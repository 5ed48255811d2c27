//! The writer side of a session: the container created for SWMR writing,
//! its one growable dataset, and the append.

use vstd::prelude::*;
use crate::error::{Operation, SwmrError, check, checked, failure};
use crate::protocol::{
    Handle, Machine, Reply, Request, ResourceKind, Step, file_handle, list_handle, space_handle,
};
use crate::release::{Teardown, release_all};

verus! {

/// When an append makes its record visible to readers.
#[derive(Clone, Copy, Debug, PartialEq, Eq, Structural)]
pub enum Durability {
    /// Every append flushes: a reader that refreshes after it sees the record.
    EveryAppend,
    /// An append flushes when the extent it leaves is a multiple of this
    /// number; with 0, none does.
    Every(u64),
}

/// Whether an append that leaves the extent at `extent` flushes.
pub open spec fn flush_due(policy: Durability, extent: u64) -> bool {
    match policy {
        Durability::EveryAppend => true,
        Durability::Every(n) => n > 0 && extent % n == 0,
    }
}

/// The writer's hold on the container: the file, the dataset, and the number
/// of records the dataset has been extended to.
pub struct WriterSession {
    file_id: i64,
    dataset_id: i64,
    extent: u64,
    policy: Durability,
}

impl WriterSession {
    /// The identifier of the file.
    pub closed spec fn file(self) -> i64 {
        self.file_id
    }

    /// The identifier of the dataset.
    pub closed spec fn dataset(self) -> i64 {
        self.dataset_id
    }

    /// The number of records the dataset has been extended to.
    pub closed spec fn extent(self) -> u64 {
        self.extent
    }

    /// When appends flush.
    pub closed spec fn policy(self) -> Durability {
        self.policy
    }

    /// The session of this file and dataset at this extent.
    pub closed spec fn of(file: i64, dataset: i64, extent: u64, policy: Durability) -> WriterSession {
        WriterSession { file_id: file, dataset_id: dataset, extent, policy }
    }

    /// A session is what it was made of.
    pub broadcast proof fn of_holds(file: i64, dataset: i64, extent: u64, policy: Durability)
        ensures
            (#[trigger] WriterSession::of(file, dataset, extent, policy)).file() == file,
            WriterSession::of(file, dataset, extent, policy).dataset() == dataset,
            WriterSession::of(file, dataset, extent, policy).extent() == extent,
            WriterSession::of(file, dataset, extent, policy).policy() == policy,
    {
    }

    /// The same session with one record more.
    pub open spec fn grown(self) -> WriterSession {
        WriterSession::of(self.file(), self.dataset(), (self.extent() + 1) as u64, self.policy())
    }

    /// The release handles of the session, in the order of their release:
    /// the dataset, then the file.
    pub open spec fn handles(self) -> (Handle, Handle) {
        (
            Handle { kind: ResourceKind::Dataset, id: self.dataset() },
            Handle { kind: ResourceKind::File, id: self.file() },
        )
    }

    /// The first step of an append of `value`.
    pub open spec fn appending(self, value: i64) -> Step<Append, (WriterSession, Result<(), SwmrError>)> {
        if self.extent() == u64::MAX {
            Step::Done((self, Err(failure(Operation::Extend, 0))))
        } else {
            Step::Next(
                Append::Extend { session: self, value },
                Request::Extend { dataset: self.dataset(), len: (self.extent() + 1) as u64 },
            )
        }
    }

    /// The first step of a flush.
    pub open spec fn flushing(self) -> Step<Append, (WriterSession, Result<(), SwmrError>)> {
        Step::Next(Append::FlushDataset { session: self }, Request::FlushDataset { dataset: self.dataset() })
    }

    /// The number of records the dataset has been extended to.
    pub fn len(&self) -> (n: u64)
        ensures
            n == self.extent(),
    {
        self.extent
    }

    /// Starts the append of one record: the dataset is extended by one, the
    /// new slot, at the old extent, is written, and, where the policy says
    /// so, the dataset and then the container are flushed. The session comes
    /// back with the extent it has reached: one more as soon as the extension
    /// has succeeded, also where the write after it fails and the new slot
    /// holds nothing that was written. A dataset that cannot grow any more is
    /// refused at once with `ExtendFailed`.
    pub fn append(self, value: i64) -> (step: Step<Append, (WriterSession, Result<(), SwmrError>)>)
        ensures
            step == self.appending(value),
    {
        if self.extent == u64::MAX {
            Step::Done((self, Err(SwmrError::native(Operation::Extend, 0))))
        } else {
            let dataset: i64 = self.dataset_id;
            let len: u64 = self.extent + 1;
            Step::Next(Append::Extend { session: self, value }, Request::Extend { dataset, len })
        }
    }

    /// Starts a flush: the dataset and then the container are flushed, so
    /// that a reader that refreshes afterwards sees every record appended so
    /// far, whatever the policy of the session.
    pub fn flush(self) -> (step: Step<Append, (WriterSession, Result<(), SwmrError>)>)
        ensures
            step == self.flushing(),
    {
        let dataset: i64 = self.dataset_id;
        Step::Next(Append::FlushDataset { session: self }, Request::FlushDataset { dataset })
    }

    /// Starts the end of the session: the dataset is released, then the
    /// file, the second also when the first release fails.
    pub fn close(self) -> (step: Step<Teardown, Result<(), SwmrError>>)
        ensures
            step == release_all(None, Some(self.handles().0), Some(self.handles().1), None, None),
    {
        Teardown::begin(
            None,
            Some(Handle { kind: ResourceKind::Dataset, id: self.dataset_id }),
            Some(Handle { kind: ResourceKind::File, id: self.file_id }),
            None,
            None,
        )
    }

    fn grow(self) -> (grown: WriterSession)
        requires
            self.extent() < u64::MAX,
        ensures
            grown == self.grown(),
    {
        WriterSession {
            file_id: self.file_id,
            dataset_id: self.dataset_id,
            extent: self.extent + 1,
            policy: self.policy,
        }
    }

    fn flushes(&self) -> (due: bool)
        ensures
            due == flush_due(self.policy(), self.extent()),
    {
        match self.policy {
            Durability::EveryAppend => true,
            Durability::Every(n) => n > 0 && self.extent % n == 0,
        }
    }
}

/// An append, step by step.
pub enum Append {
    /// The reply to the extension is awaited.
    Extend { session: WriterSession, value: i64 },
    /// The file dataspace of the new extent is awaited; the slot is at `start`.
    FileSpace { session: WriterSession, value: i64, start: u64 },
    /// The one-element memory dataspace is awaited.
    MemorySpace { session: WriterSession, value: i64, start: u64, file_space: i64 },
    /// The reply to the write is awaited.
    Write { session: WriterSession, file_space: i64, mem_space: i64 },
    /// The dataspaces are being released.
    Release { session: WriterSession, release: Teardown },
    /// The reply to the flush of the dataset is awaited.
    FlushDataset { session: WriterSession },
    /// The reply to the flush of the container is awaited.
    FlushFile { session: WriterSession },
}

/// What follows the release of an append's dataspaces, which ended with
/// `released`: the failure, or the flushes where one is due.
pub open spec fn after_write(session: WriterSession, released: Result<(), SwmrError>) -> Step<
    Append,
    (WriterSession, Result<(), SwmrError>),
> {
    match released {
        Err(e) => Step::Done((session, Err(e))),
        Ok(_) => if flush_due(session.policy(), session.extent()) {
            Step::Next(Append::FlushDataset { session }, Request::FlushDataset { dataset: session.dataset() })
        } else {
            Step::Done((session, Ok(())))
        },
    }
}

fn proceed(session: WriterSession, released: Result<(), SwmrError>) -> (step: Step<
    Append,
    (WriterSession, Result<(), SwmrError>),
>)
    ensures
        step == after_write(session, released),
{
    match released {
        Err(e) => Step::Done((session, Err(e))),
        Ok(_) => if session.flushes() {
            let dataset: i64 = session.dataset_id;
            Step::Next(Append::FlushDataset { session }, Request::FlushDataset { dataset })
        } else {
            Step::Done((session, Ok(())))
        },
    }
}

impl Machine for Append {
    type Output = (WriterSession, Result<(), SwmrError>);

    open spec fn on_reply(self, reply: Reply) -> Step<Self, Self::Output> {
        match self {
            Append::Extend { session, value } => match checked(Operation::Extend, reply.status()) {
                Err(e) => Step::Done((session, Err(e))),
                Ok(_) => if session.extent() < u64::MAX {
                    Step::Next(
                        Append::FileSpace { session: session.grown(), value, start: session.extent() },
                        Request::CreateSpace { len: session.grown().extent(), growable: true },
                    )
                } else {
                    Step::Done((session, Err(failure(Operation::Extend, 0))))
                },
            },
            Append::FileSpace { session, value, start } => match checked(Operation::CreateSpace, reply.status()) {
                Err(e) => Step::Done((session, Err(e))),
                Ok(file_space) => Step::Next(
                    Append::MemorySpace { session, value, start, file_space },
                    Request::CreateSpace { len: 1, growable: false },
                ),
            },
            Append::MemorySpace { session, value, start, file_space } => match checked(
                Operation::CreateSpace,
                reply.status(),
            ) {
                Err(e) => Step::Next(
                    Append::Release {
                        session,
                        release: Teardown { failure: Some(e), second: None, third: None, fourth: None },
                    },
                    Request::Close { handle: Handle { kind: ResourceKind::Dataspace, id: file_space } },
                ),
                Ok(mem_space) => Step::Next(
                    Append::Write { session, file_space, mem_space },
                    Request::WriteSlot { dataset: session.dataset(), mem_space, file_space, start, value },
                ),
            },
            Append::Write { session, file_space, mem_space } => Step::Next(
                Append::Release {
                    session,
                    release: Teardown {
                        failure: crate::release::first_failure(
                            None,
                            checked(Operation::WriteSlot, reply.status()),
                        ),
                        second: Some(Handle { kind: ResourceKind::Dataspace, id: mem_space }),
                        third: None,
                        fourth: None,
                    },
                },
                Request::Close { handle: Handle { kind: ResourceKind::Dataspace, id: file_space } },
            ),
            Append::Release { session, release } => match release.on_reply(reply) {
                Step::Next(release, request) => Step::Next(Append::Release { session, release }, request),
                Step::Done(released) => after_write(session, released),
            },
            Append::FlushDataset { session } => match checked(Operation::FlushDataset, reply.status()) {
                Err(e) => Step::Done((session, Err(e))),
                Ok(_) => Step::Next(Append::FlushFile { session }, Request::FlushFile { file: session.file() }),
            },
            Append::FlushFile { session } => match checked(Operation::FlushFile, reply.status()) {
                Err(e) => Step::Done((session, Err(e))),
                Ok(_) => Step::Done((session, Ok(()))),
            },
        }
    }

    fn advance(self, reply: Reply) -> (next: Step<Self, Self::Output>) {
        match self {
            Append::Extend { session, value } => match check(Operation::Extend, reply.code()) {
                Err(e) => Step::Done((session, Err(e))),
                Ok(_) => if session.extent < u64::MAX {
                    let start: u64 = session.extent;
                    let session = session.grow();
                    let len: u64 = session.extent;
                    Step::Next(
                        Append::FileSpace { session, value, start },
                        Request::CreateSpace { len, growable: true },
                    )
                } else {
                    Step::Done((session, Err(SwmrError::native(Operation::Extend, 0))))
                },
            },
            Append::FileSpace { session, value, start } => match check(Operation::CreateSpace, reply.code()) {
                Err(e) => Step::Done((session, Err(e))),
                Ok(file_space) => Step::Next(
                    Append::MemorySpace { session, value, start, file_space },
                    Request::CreateSpace { len: 1, growable: false },
                ),
            },
            Append::MemorySpace { session, value, start, file_space } => match check(
                Operation::CreateSpace,
                reply.code(),
            ) {
                Err(e) => Step::Next(
                    Append::Release {
                        session,
                        release: Teardown { failure: Some(e), second: None, third: None, fourth: None },
                    },
                    Request::Close { handle: Handle { kind: ResourceKind::Dataspace, id: file_space } },
                ),
                Ok(mem_space) => {
                    let dataset: i64 = session.dataset_id;
                    Step::Next(
                        Append::Write { session, file_space, mem_space },
                        Request::WriteSlot { dataset, mem_space, file_space, start, value },
                    )
                },
            },
            Append::Write { session, file_space, mem_space } => {
                let failure = match check(Operation::WriteSlot, reply.code()) {
                    Err(e) => Some(e),
                    Ok(_) => None,
                };
                Step::Next(
                    Append::Release {
                        session,
                        release: Teardown {
                            failure,
                            second: Some(Handle { kind: ResourceKind::Dataspace, id: mem_space }),
                            third: None,
                            fourth: None,
                        },
                    },
                    Request::Close { handle: Handle { kind: ResourceKind::Dataspace, id: file_space } },
                )
            },
            Append::Release { session, release } => match release.advance(reply) {
                Step::Next(release, request) => Step::Next(Append::Release { session, release }, request),
                Step::Done(released) => proceed(session, released),
            },
            Append::FlushDataset { session } => match check(Operation::FlushDataset, reply.code()) {
                Err(e) => Step::Done((session, Err(e))),
                Ok(_) => {
                    let file: i64 = session.file_id;
                    Step::Next(Append::FlushFile { session }, Request::FlushFile { file })
                },
            },
            Append::FlushFile { session } => match check(Operation::FlushFile, reply.code()) {
                Err(e) => Step::Done((session, Err(e))),
                Ok(_) => Step::Done((session, Ok(()))),
            },
        }
    }
}

/// Opening a writer session, step by step.
pub enum WriterOpen {
    /// The new container is awaited.
    File { dataset: String, chunk: u64, policy: Durability },
    /// The dataspace of the empty, growable dataset is awaited.
    Space { dataset: String, chunk: u64, policy: Durability, file: i64 },
    /// The dataset-creation property list is awaited.
    Layout { dataset: String, chunk: u64, policy: Durability, file: i64, space: i64 },
    /// The reply to the setting of the chunk size is awaited.
    Chunk { dataset: String, policy: Durability, file: i64, space: i64, plist: i64 },
    /// The new dataset is awaited.
    Dataset { policy: Durability, file: i64, space: i64, plist: i64 },
    /// The dataset is there: the property list and the dataspace are being released.
    Tidy { session: WriterSession, release: Teardown },
    /// Something failed: what had been acquired is being released.
    Abort { error: SwmrError, release: Teardown },
}

/// Giving up the opening of a writer session with `error`: up to three
/// handles are released, in order, and the error is reported.
pub open spec fn aborting(error: SwmrError, a: Option<Handle>, b: Option<Handle>, c: Option<Handle>) -> Step<
    WriterOpen,
    Result<WriterSession, SwmrError>,
> {
    match release_all(Some(error), a, b, c, None) {
        Step::Next(release, request) => Step::Next(WriterOpen::Abort { error, release }, request),
        Step::Done(_) => Step::Done(Err(error)),
    }
}

/// The first step of opening a writer session.
pub open spec fn opening_writer(path: String, dataset: String, chunk: u64, policy: Durability) -> Step<
    WriterOpen,
    Result<WriterSession, SwmrError>,
> {
    if chunk == 0 {
        Step::Done(Err(failure(Operation::SetChunk, 0)))
    } else {
        Step::Next(WriterOpen::File { dataset, chunk, policy }, Request::CreateFile { path })
    }
}

fn abort(error: SwmrError, a: Option<Handle>, b: Option<Handle>, c: Option<Handle>) -> (step: Step<
    WriterOpen,
    Result<WriterSession, SwmrError>,
>)
    ensures
        step == aborting(error, a, b, c),
{
    match Teardown::begin(Some(error), a, b, c, None) {
        Step::Next(release, request) => Step::Next(WriterOpen::Abort { error, release }, request),
        Step::Done(_) => Step::Done(Err(error)),
    }
}

/// Starts a writer session: the container at `path` is created for SWMR
/// writing, replacing a container that is already there, and in it the
/// dataset `dataset`, empty, unlimited along its one dimension, stored in
/// chunks of `chunk` records. A chunk size of 0 is refused at once with
/// `CreateFailed`. Only one writer may hold a container at a time; that is
/// the caller's to see to.
pub fn open_writer(path: String, dataset: String, chunk: u64, policy: Durability) -> (step: Step<
    WriterOpen,
    Result<WriterSession, SwmrError>,
>)
    ensures
        step == opening_writer(path, dataset, chunk, policy),
{
    if chunk == 0 {
        Step::Done(Err(SwmrError::native(Operation::SetChunk, 0)))
    } else {
        Step::Next(WriterOpen::File { dataset, chunk, policy }, Request::CreateFile { path })
    }
}

impl Machine for WriterOpen {
    type Output = Result<WriterSession, SwmrError>;

    open spec fn on_reply(self, reply: Reply) -> Step<Self, Self::Output> {
        match self {
            WriterOpen::File { dataset, chunk, policy } => match checked(Operation::CreateFile, reply.status()) {
                Err(e) => Step::Done(Err(e)),
                Ok(file) => Step::Next(
                    WriterOpen::Space { dataset, chunk, policy, file },
                    Request::CreateSpace { len: 0, growable: true },
                ),
            },
            WriterOpen::Space { dataset, chunk, policy, file } => match checked(
                Operation::CreateSpace,
                reply.status(),
            ) {
                Err(e) => aborting(e, Some(file_handle(file)), None, None),
                Ok(space) => Step::Next(
                    WriterOpen::Layout { dataset, chunk, policy, file, space },
                    Request::CreateLayoutList,
                ),
            },
            WriterOpen::Layout { dataset, chunk, policy, file, space } => match checked(
                Operation::CreateLayoutList,
                reply.status(),
            ) {
                Err(e) => aborting(e, Some(space_handle(space)), Some(file_handle(file)), None),
                Ok(plist) => Step::Next(
                    WriterOpen::Chunk { dataset, policy, file, space, plist },
                    Request::SetChunk { plist, records: chunk },
                ),
            },
            WriterOpen::Chunk { dataset, policy, file, space, plist } => match checked(
                Operation::SetChunk,
                reply.status(),
            ) {
                Err(e) => aborting(
                    e,
                    Some(list_handle(plist)),
                    Some(space_handle(space)),
                    Some(file_handle(file)),
                ),
                Ok(_) => Step::Next(
                    WriterOpen::Dataset { policy, file, space, plist },
                    Request::CreateDataset { file, name: dataset, space, layout: plist },
                ),
            },
            WriterOpen::Dataset { policy, file, space, plist } => match checked(
                Operation::CreateDataset,
                reply.status(),
            ) {
                Err(e) => aborting(
                    e,
                    Some(list_handle(plist)),
                    Some(space_handle(space)),
                    Some(file_handle(file)),
                ),
                Ok(created) => Step::Next(
                    WriterOpen::Tidy {
                        session: WriterSession::of(file, created, 0, policy),
                        release: Teardown {
                            failure: None,
                            second: Some(space_handle(space)),
                            third: None,
                            fourth: None,
                        },
                    },
                    Request::Close { handle: list_handle(plist) },
                ),
            },
            WriterOpen::Tidy { session, release } => match release.on_reply(reply) {
                Step::Next(release, request) => Step::Next(WriterOpen::Tidy { session, release }, request),
                Step::Done(Ok(_)) => Step::Done(Ok(session)),
                Step::Done(Err(e)) => aborting(e, Some(session.handles().0), Some(session.handles().1), None),
            },
            WriterOpen::Abort { error, release } => match release.on_reply(reply) {
                Step::Next(release, request) => Step::Next(WriterOpen::Abort { error, release }, request),
                Step::Done(_) => Step::Done(Err(error)),
            },
        }
    }

    fn advance(self, reply: Reply) -> (next: Step<Self, Self::Output>) {
        match self {
            WriterOpen::File { dataset, chunk, policy } => match check(Operation::CreateFile, reply.code()) {
                Err(e) => Step::Done(Err(e)),
                Ok(file) => Step::Next(
                    WriterOpen::Space { dataset, chunk, policy, file },
                    Request::CreateSpace { len: 0, growable: true },
                ),
            },
            WriterOpen::Space { dataset, chunk, policy, file } => match check(Operation::CreateSpace, reply.code()) {
                Err(e) => abort(e, Some(Handle { kind: ResourceKind::File, id: file }), None, None),
                Ok(space) => Step::Next(
                    WriterOpen::Layout { dataset, chunk, policy, file, space },
                    Request::CreateLayoutList,
                ),
            },
            WriterOpen::Layout { dataset, chunk, policy, file, space } => match check(
                Operation::CreateLayoutList,
                reply.code(),
            ) {
                Err(e) => abort(
                    e,
                    Some(Handle { kind: ResourceKind::Dataspace, id: space }),
                    Some(Handle { kind: ResourceKind::File, id: file }),
                    None,
                ),
                Ok(plist) => Step::Next(
                    WriterOpen::Chunk { dataset, policy, file, space, plist },
                    Request::SetChunk { plist, records: chunk },
                ),
            },
            WriterOpen::Chunk { dataset, policy, file, space, plist } => match check(
                Operation::SetChunk,
                reply.code(),
            ) {
                Err(e) => abort(
                    e,
                    Some(Handle { kind: ResourceKind::PropertyList, id: plist }),
                    Some(Handle { kind: ResourceKind::Dataspace, id: space }),
                    Some(Handle { kind: ResourceKind::File, id: file }),
                ),
                Ok(_) => Step::Next(
                    WriterOpen::Dataset { policy, file, space, plist },
                    Request::CreateDataset { file, name: dataset, space, layout: plist },
                ),
            },
            WriterOpen::Dataset { policy, file, space, plist } => match check(
                Operation::CreateDataset,
                reply.code(),
            ) {
                Err(e) => abort(
                    e,
                    Some(Handle { kind: ResourceKind::PropertyList, id: plist }),
                    Some(Handle { kind: ResourceKind::Dataspace, id: space }),
                    Some(Handle { kind: ResourceKind::File, id: file }),
                ),
                Ok(created) => Step::Next(
                    WriterOpen::Tidy {
                        session: WriterSession { file_id: file, dataset_id: created, extent: 0, policy },
                        release: Teardown {
                            failure: None,
                            second: Some(Handle { kind: ResourceKind::Dataspace, id: space }),
                            third: None,
                            fourth: None,
                        },
                    },
                    Request::Close { handle: Handle { kind: ResourceKind::PropertyList, id: plist } },
                ),
            },
            WriterOpen::Tidy { session, release } => match release.advance(reply) {
                Step::Next(release, request) => Step::Next(WriterOpen::Tidy { session, release }, request),
                Step::Done(Ok(_)) => Step::Done(Ok(session)),
                Step::Done(Err(e)) => abort(
                    e,
                    Some(Handle { kind: ResourceKind::Dataset, id: session.dataset_id }),
                    Some(Handle { kind: ResourceKind::File, id: session.file_id }),
                    None,
                ),
            },
            WriterOpen::Abort { error, release } => match release.advance(reply) {
                Step::Next(release, request) => Step::Next(WriterOpen::Abort { error, release }, request),
                Step::Done(_) => Step::Done(Err(error)),
            },
        }
    }
}

} // verus!
