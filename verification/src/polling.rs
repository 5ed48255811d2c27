//! The books of a polling reader: what it holds from step to step, and that
//! it ends with nothing in hand.

use vstd::prelude::*;
use vstd::multiset::Multiset;
use crate::container::{
    gives_back, keeps_reader, newest_n_releases_what_it_acquires, opening_keeps_only_its_result,
    reads_give_the_dataset_back, reads_release_what_they_acquire,
};
use crate::dataset::{DatasetOpen, H5Dataset, Outcome, ReadAll, TailRead};
use crate::error::SwmrError;
use crate::protocol::{Handle, Machine, Reply, Request, Step, dataset_handle, ends_with};
use crate::release::{balanced, held_after, nothing};
use crate::swmr::{
    ReaderOpen, ReaderSession, connected, leaving, located, opening_reader,
    polling, polling_round, read_all_of_round, read_newest_of_round, ROUNDS, WINDOW,
};

verus! {

/// What a polling reader holds between two steps of a round: the file, the
/// access property list, and the dataset if it is held.
pub open spec fn reader_holds(session: ReaderSession, dataset: Option<Handle>) -> Multiset<Handle> {
    let both = Multiset::<Handle>::empty().insert(session.handles().0).insert(session.handles().1);
    match dataset {
        Some(handle) => both.insert(handle),
        None => both,
    }
}

/// What is held after a reply does not depend on what else is held.
proof fn held_after_frames(inner: Multiset<Handle>, rest: Multiset<Handle>, request: Request, reply: Reply)
    requires
        request matches Request::Close { handle } ==> inner.count(handle) > 0,
    ensures
        held_after(inner.add(rest), request, reply) =~= held_after(inner, request, reply).add(rest),
{
}

/// The end of a polling reader releases what is held at that point.
proof fn leaving_is_balanced(
    session: ReaderSession,
    dataset: Option<Handle>,
    failure: Option<SwmrError>,
    replies: Seq<Reply>,
    held: Multiset<Handle>,
)
    requires
        held =~= reader_holds(session, dataset),
    ensures
        balanced(leaving(session, dataset, failure), replies, held, nothing()),
{
    reveal_with_fuel(balanced, 5);
}

/// Whether round `round` and those after it keep the books, for the dataset `id`.
spec fn rounds_balanced(session: ReaderSession, id: i64, round: u8) -> bool {
    forall|d: H5Dataset, r: Seq<Reply>|
        d.is_open() && d.native_id() == id ==> #[trigger] balanced(
            polling_round(session, d, round),
            r,
            reader_holds(session, Some(dataset_handle(id))),
            nothing(),
        )
}

/// The read of the newest records of a round keeps the books, and so does
/// what follows it, if the rounds after it do.
proof fn newest_of_round_is_balanced(
    session: ReaderSession,
    round: u8,
    all: Vec<i64>,
    id: i64,
    tail: Step<TailRead, Outcome<Vec<i64>>>,
    replies: Seq<Reply>,
    inner: Multiset<Handle>,
)
    requires
        round < ROUNDS,
        balanced(tail, replies, inner, nothing()),
        ends_with(tail, replies, gives_back(id)),
        rounds_balanced(session, id, (round + 1) as u8),
    ensures
        balanced(
            read_newest_of_round(session, round, all, tail),
            replies,
            inner.add(reader_holds(session, Some(dataset_handle(id)))),
            nothing(),
        ),
    decreases replies.len(),
{
    let rest = reader_holds(session, Some(dataset_handle(id)));
    let held = inner.add(rest);
    reveal_with_fuel(balanced, 3);
    reveal_with_fuel(ends_with, 2);
    match tail {
        Step::Done((dataset, Err(e))) => {
            assert(held =~= rest);
            leaving_is_balanced(session, dataset.release_handle(), Some(e), replies, held);
        },
        Step::Done((dataset, Ok(newest))) => {
            assert(held =~= rest);
            if replies.len() >= 2 {
                let after = replies.drop_first().drop_first();
                assert(balanced(polling_round(session, dataset, (round + 1) as u8), after, rest, nothing()));
            }
        },
        Step::Next(m, request) => {
            if replies.len() > 0 {
                held_after_frames(inner, rest, request, replies[0]);
                newest_of_round_is_balanced(
                    session,
                    round,
                    all,
                    id,
                    m.on_reply(replies[0]),
                    replies.drop_first(),
                    held_after(inner, request, replies[0]),
                );
            }
        },
    }
}

/// The full read of a round keeps the books, and so does what follows it,
/// if the rounds after it do.
proof fn all_of_round_is_balanced(
    session: ReaderSession,
    round: u8,
    id: i64,
    full: Step<ReadAll, Outcome<Vec<i64>>>,
    replies: Seq<Reply>,
    inner: Multiset<Handle>,
)
    requires
        round < ROUNDS,
        balanced(full, replies, inner, nothing()),
        ends_with(full, replies, gives_back(id)),
        rounds_balanced(session, id, (round + 1) as u8),
    ensures
        balanced(
            read_all_of_round(session, round, full),
            replies,
            inner.add(reader_holds(session, Some(dataset_handle(id)))),
            nothing(),
        ),
    decreases replies.len(),
{
    let rest = reader_holds(session, Some(dataset_handle(id)));
    let held = inner.add(rest);
    reveal_with_fuel(balanced, 2);
    reveal_with_fuel(ends_with, 2);
    match full {
        Step::Done((dataset, Err(e))) => {
            assert(held =~= rest);
            leaving_is_balanced(session, dataset.release_handle(), Some(e), replies, held);
        },
        Step::Done((dataset, Ok(all))) => {
            newest_n_releases_what_it_acquires(dataset, WINDOW, replies);
            reads_give_the_dataset_back(dataset, WINDOW, replies);
            newest_of_round_is_balanced(
                session,
                round,
                all,
                id,
                dataset.reading_newest(WINDOW),
                replies,
                Multiset::empty(),
            );
            assert(held =~= Multiset::<Handle>::empty().add(rest));
        },
        Step::Next(m, request) => {
            if replies.len() > 0 {
                held_after_frames(inner, rest, request, replies[0]);
                all_of_round_is_balanced(
                    session,
                    round,
                    id,
                    m.on_reply(replies[0]),
                    replies.drop_first(),
                    held_after(inner, request, replies[0]),
                );
            }
        },
    }
}

/// Every round keeps the books, from any round on.
proof fn round_is_balanced(session: ReaderSession, dataset: H5Dataset, round: u8, replies: Seq<Reply>)
    requires
        dataset.is_open(),
    ensures
        balanced(
            polling_round(session, dataset, round),
            replies,
            reader_holds(session, Some(dataset_handle(dataset.native_id()))),
            nothing(),
        ),
    decreases ROUNDS - round,
{
    let id = dataset.native_id();
    let rest = reader_holds(session, Some(dataset_handle(id)));
    if round < ROUNDS {
        assert forall|d: H5Dataset, r: Seq<Reply>| d.is_open() && d.native_id() == id implies #[trigger] balanced(
            polling_round(session, d, (round + 1) as u8),
            r,
            reader_holds(session, Some(dataset_handle(id))),
            nothing(),
        ) by {
            round_is_balanced(session, d, (round + 1) as u8, r);
        }
        reads_release_what_they_acquire(dataset, replies);
        reads_give_the_dataset_back(dataset, WINDOW, replies);
        all_of_round_is_balanced(session, round, id, dataset.reading_all(), replies, Multiset::empty());
        assert(rest =~= Multiset::<Handle>::empty().add(rest));
    } else {
        leaving_is_balanced(session, dataset.release_handle(), None, replies, rest);
    }
}

/// The opening of the dataset keeps the books, and so do the rounds.
proof fn locating_is_balanced(session: ReaderSession, name: String, replies: Seq<Reply>)
    ensures
        balanced(located(session, session.locating(name)), replies, reader_holds(session, None), nothing()),
{
    broadcast use H5Dataset::in_state_holds;
    let rest = reader_holds(session, None);
    reveal_with_fuel(balanced, 2);
    if replies.len() > 0 {
        let request = Request::OpenDataset { file: session.file_id(), name };
        match DatasetOpen::Pending.on_reply(replies[0]) {
            Step::Done(Ok(dataset)) => {
                round_is_balanced(session, dataset, 0, replies.drop_first());
                assert(held_after(rest, request, replies[0]) =~= reader_holds(
                    session,
                    Some(dataset_handle(dataset.native_id())),
                ));
            },
            Step::Done(Err(e)) => {
                leaving_is_balanced(session, None, Some(e), replies.drop_first(), rest);
            },
            Step::Next(_, _) => {},
        }
    }
}

/// The opening of the session keeps the books, and so does what follows it.
proof fn connecting_is_balanced(
    name: String,
    connect: Step<ReaderOpen, Result<ReaderSession, SwmrError>>,
    replies: Seq<Reply>,
    inner: Multiset<Handle>,
)
    requires
        balanced(connect, replies, inner, keeps_reader()),
    ensures
        balanced(connected(name, connect), replies, inner, nothing()),
    decreases replies.len(),
{
    reveal_with_fuel(balanced, 2);
    match connect {
        Step::Done(Err(e)) => {},
        Step::Done(Ok(session)) => {
            locating_is_balanced(session, name, replies);
            assert(inner =~= reader_holds(session, None));
        },
        Step::Next(m, request) => {
            if replies.len() > 0 {
                connecting_is_balanced(
                    name,
                    m.on_reply(replies[0]),
                    replies.drop_first(),
                    held_after(inner, request, replies[0]),
                );
            }
        },
    }
}

/// A polling reader leaks nothing and releases nothing twice, whatever the
/// driver answers and wherever a round fails: when it ends, the dataset, the
/// file and the access property list have each been released exactly once.
pub proof fn polling_reader_releases_all(path: String, dataset: String, replies: Seq<Reply>)
    ensures
        balanced(polling(path, dataset), replies, Multiset::empty(), nothing()),
{
    opening_keeps_only_its_result(0, 0, path, 0, 0, replies);
    connecting_is_balanced(dataset, opening_reader(path), replies, Multiset::empty());
}

} // verus!
