//! Releasing handles: each exactly once, in a fixed order, whatever fails.

use vstd::prelude::*;
use vstd::multiset::Multiset;
use crate::error::{Operation, SwmrError, check, checked};
use crate::protocol::{Handle, Machine, Reply, Request, ResourceKind, Step, asked, run};

verus! {

/// The failure to report once `r` is known, when `earlier` is what had failed
/// before it: the first failure stands.
pub open spec fn first_failure(earlier: Option<SwmrError>, r: Result<i64, SwmrError>) -> Option<
    SwmrError,
> {
    match earlier {
        Some(e) => Some(e),
        None => match r {
            Err(e) => Some(e),
            Ok(_) => None,
        },
    }
}

/// The result of a run in which `failure` is the first thing that failed.
pub open spec fn outcome(failure: Option<SwmrError>) -> Result<(), SwmrError> {
    match failure {
        Some(e) => Err(e),
        None => Ok(()),
    }
}

/// The handles among four optional ones, in order.
pub open spec fn present(
    a: Option<Handle>,
    b: Option<Handle>,
    c: Option<Handle>,
    d: Option<Handle>,
) -> Seq<Handle> {
    let sa = if let Some(h) = a { seq![h] } else { Seq::<Handle>::empty() };
    let sb = if let Some(h) = b { seq![h] } else { Seq::<Handle>::empty() };
    let sc = if let Some(h) = c { seq![h] } else { Seq::<Handle>::empty() };
    let sd = if let Some(h) = d { seq![h] } else { Seq::<Handle>::empty() };
    sa + sb + sc + sd
}

/// The release requests for `handles`, one each, in order.
pub open spec fn closes(handles: Seq<Handle>) -> Seq<Request> {
    Seq::new(handles.len(), |i: int| Request::Close { handle: handles[i] })
}

/// The kind of resource that a request acquires when it succeeds, if it
/// acquires one: the reply to such a request is the new identifier.
pub open spec fn acquires(request: Request) -> Option<ResourceKind> {
    match request {
        Request::CreateAccessList | Request::CreateLayoutList => Some(ResourceKind::PropertyList),
        Request::OpenFile { .. } | Request::CreateFile { .. } => Some(ResourceKind::File),
        Request::OpenDataset { .. } | Request::CreateDataset { .. } => Some(ResourceKind::Dataset),
        Request::GetSpace { .. } | Request::CreateSpace { .. } => Some(ResourceKind::Dataspace),
        Request::GetType { .. } => Some(ResourceKind::Datatype),
        _ => None,
    }
}

/// The handles held once `request` has been answered with `reply`, when
/// `held` were held before: one more after a successful acquisition, one
/// fewer after a release, whether or not the release succeeded.
pub open spec fn held_after(held: Multiset<Handle>, request: Request, reply: Reply) -> Multiset<Handle> {
    match request {
        Request::Close { handle } => held.remove(handle),
        _ => match acquires(request) {
            Some(kind) => if reply.status() >= 0 {
                held.insert(Handle { kind, id: reply.status() })
            } else {
                held
            },
            None => held,
        },
    }
}

/// Whether a run keeps its books: from `step` on, with `held` in hand and
/// the driver answering with `replies`, a release is asked only for a handle
/// that is held at that moment, and an operation that ends holds exactly
/// what its outcome keeps, `kept`.
pub open spec fn balanced<M: Machine>(
    step: Step<M, M::Output>,
    replies: Seq<Reply>,
    held: Multiset<Handle>,
    kept: spec_fn(M::Output) -> Multiset<Handle>,
) -> bool
    decreases replies.len(),
{
    match step {
        Step::Done(end) => held =~= kept(end),
        Step::Next(m, request) => {
            &&& request matches Request::Close { handle } ==> held.count(handle) > 0
            &&& replies.len() > 0 ==> balanced(
                m.on_reply(replies[0]),
                replies.drop_first(),
                held_after(held, request, replies[0]),
                kept,
            )
        },
    }
}

/// What an operation keeps that hands no handle to its caller.
pub open spec fn nothing<T>() -> spec_fn(T) -> Multiset<Handle> {
    |end: T| Multiset::<Handle>::empty()
}

/// A release in progress: the reply to one release is awaited, and up to three
/// more handles follow.
pub struct Teardown {
    /// The first failure so far, of the operation or of an earlier release.
    pub failure: Option<SwmrError>,
    /// The handles still to release after the pending one, in order.
    pub second: Option<Handle>,
    pub third: Option<Handle>,
    pub fourth: Option<Handle>,
}

/// Releasing up to four handles in order, in a run whose first failure so far
/// is `failure`: the release of the first handle there is, or the outcome if
/// there is none.
pub open spec fn release_all(
    failure: Option<SwmrError>,
    a: Option<Handle>,
    b: Option<Handle>,
    c: Option<Handle>,
    d: Option<Handle>,
) -> Step<Teardown, Result<(), SwmrError>> {
    match (a, b, c, d) {
        (Some(h), _, _, _) => Step::Next(
            Teardown { failure, second: b, third: c, fourth: d },
            Request::Close { handle: h },
        ),
        (None, Some(h), _, _) => Step::Next(
            Teardown { failure, second: c, third: d, fourth: None },
            Request::Close { handle: h },
        ),
        (None, None, Some(h), _) => Step::Next(
            Teardown { failure, second: d, third: None, fourth: None },
            Request::Close { handle: h },
        ),
        (None, None, None, Some(h)) => Step::Next(
            Teardown { failure, second: None, third: None, fourth: None },
            Request::Close { handle: h },
        ),
        (None, None, None, None) => Step::Done(outcome(failure)),
    }
}

impl Teardown {
    /// Starts releasing up to four handles, in order. `failure` is what the
    /// operation that held them has failed with, if it has.
    pub fn begin(
        failure: Option<SwmrError>,
        a: Option<Handle>,
        b: Option<Handle>,
        c: Option<Handle>,
        d: Option<Handle>,
    ) -> (step: Step<Teardown, Result<(), SwmrError>>)
        ensures
            step == release_all(failure, a, b, c, d),
    {
        if let Some(h) = a {
            Step::Next(Teardown { failure, second: b, third: c, fourth: d }, Request::Close { handle: h })
        } else if let Some(h) = b {
            Step::Next(
                Teardown { failure, second: c, third: d, fourth: None },
                Request::Close { handle: h },
            )
        } else if let Some(h) = c {
            Step::Next(
                Teardown { failure, second: d, third: None, fourth: None },
                Request::Close { handle: h },
            )
        } else if let Some(h) = d {
            Step::Next(
                Teardown { failure, second: None, third: None, fourth: None },
                Request::Close { handle: h },
            )
        } else {
            match failure {
                Some(e) => Step::Done(Err(e)),
                None => Step::Done(Ok(())),
            }
        }
    }

    /// Starts releasing one handle.
    pub fn single(handle: Handle) -> (step: Step<Teardown, Result<(), SwmrError>>)
        ensures
            step == release_all(None, Some(handle), None, None, None),
    {
        Teardown::begin(None, Some(handle), None, None, None)
    }
}

impl Machine for Teardown {
    type Output = Result<(), SwmrError>;

    /// A failed release is recorded unless something failed before it; the
    /// handles that are left are released all the same.
    open spec fn on_reply(self, reply: Reply) -> Step<Self, Self::Output> {
        release_all(
            first_failure(self.failure, checked(Operation::Close, reply.status())),
            self.second,
            self.third,
            self.fourth,
            None,
        )
    }

    fn advance(self, reply: Reply) -> (next: Step<Self, Self::Output>) {
        let failure = match self.failure {
            Some(e) => Some(e),
            None => match check(Operation::Close, reply.code()) {
                Err(e) => Some(e),
                Ok(_) => None,
            },
        };
        Teardown::begin(failure, self.second, self.third, self.fourth, None)
    }
}

/// Every handle is released exactly once and in order, whatever the replies
/// are: answered once per handle, a release asks for the close of each handle
/// it was given, and for nothing else, and is then done.
pub proof fn release_is_exact(
    failure: Option<SwmrError>,
    a: Option<Handle>,
    b: Option<Handle>,
    c: Option<Handle>,
    d: Option<Handle>,
    replies: Seq<Reply>,
)
    requires
        replies.len() == present(a, b, c, d).len(),
    ensures
        asked(release_all(failure, a, b, c, d), replies) == closes(present(a, b, c, d)),
        run(release_all(failure, a, b, c, d), replies) is Done,
{
    reveal_with_fuel(asked, 6);
    reveal_with_fuel(run, 6);
    let start = release_all(failure, a, b, c, d);
    assert(asked(start, replies) =~= closes(present(a, b, c, d)));
}

/// A release reports the failure it was started with; without one, the first
/// release that failed; and success only if every release succeeded.
pub proof fn release_reports_first_failure(
    failure: Option<SwmrError>,
    a: Handle,
    b: Handle,
    replies: Seq<Reply>,
)
    requires
        replies.len() == 2,
    ensures
        run(release_all(failure, Some(a), Some(b), None, None), replies) == Step::<
            Teardown,
            Result<(), SwmrError>,
        >::Done(
            outcome(
                first_failure(
                    first_failure(failure, checked(Operation::Close, replies[0].status())),
                    checked(Operation::Close, replies[1].status()),
                ),
            ),
        ),
{
    reveal_with_fuel(run, 4);
}

} // verus!
