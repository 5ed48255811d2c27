//! The container as the protocol takes it to behave, and what the reads of a
//! dataset come to when it does.
//!
//! The storage layer is not part of this library. What is proved here holds
//! of every driver whose replies are those of a container that keeps the
//! records it was given, hands out the extent it has, and reads the range it
//! is asked for.

use vstd::prelude::*;
use vstd::multiset::Multiset;
use crate::dataset::{DatasetClose, ExtentQuery, H5Dataset, Outcome, ReadAll, Refresh, TailRead};
use crate::dataspace::{DataSpace, Selection, least, newest, select};
use crate::error::{ErrorKind, Operation, SwmrError, failure, stale};
use crate::protocol::{Handle, Machine, Reply, Request, Step, asked, ends_with, run};
use crate::release::{balanced, nothing};
use crate::swmr::{OpenFileMrRead, ReaderSession, SwmrReadFapl, opening_reader};
use crate::writer::{Append, Durability, WriterSession, flush_due, opening_writer};

verus! {

/// Whether `reply` is what a container that shows `records` to its readers
/// answers to `request`, nothing having failed: the extent is the number of
/// records, a read gives the records of the range asked for, in order, and
/// every other call succeeds.
pub open spec fn serves(records: Seq<i64>, request: Request, reply: Reply) -> bool {
    match request {
        Request::QueryExtent { .. } => {
            &&& reply matches Reply::Extent { status, dims }
            &&& status >= 0
            &&& dims@ == seq![records.len() as u64]
        },
        Request::ReadAll { .. } => {
            &&& reply matches Reply::Records { status, data }
            &&& status >= 0
            &&& data@ == records
        },
        Request::ReadWindow { start, count, .. } => {
            &&& reply matches Reply::Records { status, data }
            &&& status >= 0
            &&& start + count <= records.len()
            &&& data@ == select(records, Selection { start, count })
        },
        _ => reply.status() >= 0,
    }
}

/// Whether each of `replies` is what a container that shows `records` answers
/// to the request it follows, from `step` on.
pub open spec fn served<M: Machine>(records: Seq<i64>, step: Step<M, M::Output>, replies: Seq<Reply>) -> bool
    decreases replies.len(),
{
    if replies.len() == 0 {
        true
    } else {
        match step {
            Step::Next(m, request) => serves(records, request, replies[0]) && served(
                records,
                m.on_reply(replies[0]),
                replies.drop_first(),
            ),
            Step::Done(_) => true,
        }
    }
}

/// A read of the newest `n` records gives the last `n` records that the
/// container shows, or all of them if there are fewer, in the order in which
/// they were written; and the dataset is refreshed by it.
pub proof fn newest_n_is_the_tail(dataset: H5Dataset, n: usize, records: Seq<i64>, replies: Seq<Reply>)
    requires
        dataset.is_open(),
        records.len() <= u64::MAX,
        served(records, dataset.reading_newest(n), replies),
        run(dataset.reading_newest(n), replies) is Done,
    ensures
        run(dataset.reading_newest(n), replies) matches Step::Done((after, Ok(got))) && {
            &&& after == dataset.refreshed()
            &&& got@ == newest(records, n as int)
            &&& got@.len() == least(n as int, records.len() as int)
        },
{
    broadcast use H5Dataset::in_state_holds, DataSpace::of_holds;
    reveal_with_fuel(run, 11);
    reveal_with_fuel(served, 11);
}

/// A read of the newest records leaks nothing and releases nothing twice,
/// whatever the driver answers and wherever the read fails: each dataspace
/// it acquires is released exactly once before it ends.
pub proof fn newest_n_releases_what_it_acquires(dataset: H5Dataset, n: usize, replies: Seq<Reply>)
    ensures
        balanced(dataset.reading_newest(n), replies, Multiset::empty(), nothing()),
{
    broadcast use H5Dataset::in_state_holds, DataSpace::of_holds;
    reveal_with_fuel(balanced, 11);
}

/// On an empty dataset a read of the newest records gives no records, and
/// no error.
pub proof fn newest_of_nothing_is_nothing(dataset: H5Dataset, n: usize, replies: Seq<Reply>)
    requires
        dataset.is_open(),
        served(Seq::<i64>::empty(), dataset.reading_newest(n), replies),
        run(dataset.reading_newest(n), replies) is Done,
    ensures
        run(dataset.reading_newest(n), replies) matches Step::Done((_, Ok(got))) && got@.len() == 0,
{
    newest_n_is_the_tail(dataset, n, Seq::<i64>::empty(), replies);
}

/// A read of all records gives exactly the records that the container
/// shows: each once, in the order in which they were written.
pub proof fn read_all_is_everything(dataset: H5Dataset, records: Seq<i64>, replies: Seq<Reply>)
    requires
        dataset.is_open(),
        records.len() <= u64::MAX,
        served(records, dataset.reading_all(), replies),
        run(dataset.reading_all(), replies) is Done,
    ensures
        run(dataset.reading_all(), replies) matches Step::Done((after, Ok(got))) && {
            &&& after == dataset.refreshed()
            &&& got@ == records
        },
{
    broadcast use H5Dataset::in_state_holds;
    reveal_with_fuel(run, 7);
    reveal_with_fuel(served, 7);
}

/// A refresh gives the extent that the container shows at that moment, and
/// leaves the dataset refreshed.
pub proof fn refresh_gives_the_extent(dataset: H5Dataset, records: Seq<i64>, replies: Seq<Reply>)
    requires
        dataset.is_open(),
        records.len() <= u64::MAX,
        served(records, dataset.refreshing(), replies),
        run(dataset.refreshing(), replies) is Done,
    ensures
        run(dataset.refreshing(), replies) matches Step::Done((after, Ok(dims))) && {
            &&& after == dataset.refreshed()
            &&& dims@ == seq![records.len() as u64]
        },
{
    broadcast use H5Dataset::in_state_holds;
    reveal_with_fuel(run, 6);
    reveal_with_fuel(served, 6);
}

/// Two refreshes in a row, with nothing written in between, give the same
/// extent.
pub proof fn refresh_twice_gives_the_same(
    dataset: H5Dataset,
    records: Seq<i64>,
    first: Seq<Reply>,
    second: Seq<Reply>,
)
    requires
        dataset.is_open(),
        records.len() <= u64::MAX,
        served(records, dataset.refreshing(), first),
        run(dataset.refreshing(), first) is Done,
        served(records, dataset.refreshed().refreshing(), second),
        run(dataset.refreshed().refreshing(), second) is Done,
    ensures
        run(dataset.refreshing(), first) matches Step::Done((once, Ok(before)))
            && run(once.refreshing(), second) matches Step::Done((twice, Ok(after))) && {
            &&& before@ == after@
            &&& twice == once
        },
{
    broadcast use H5Dataset::in_state_holds;
    refresh_gives_the_extent(dataset, records, first);
    refresh_gives_the_extent(dataset.refreshed(), records, second);
    H5Dataset::same(dataset.refreshed().refreshed(), dataset.refreshed());
}

/// What a reader was shown stays: where the container later shows `later`,
/// of which the first `seen` records were shown when a read of the newest
/// `n` was made, that read gave a run of `later` that ends at `seen`.
pub proof fn window_is_a_run_of_what_follows(later: Seq<i64>, seen: int, n: int)
    requires
        0 <= seen <= later.len(),
        0 <= n,
    ensures
        newest(later.take(seen), n) == later.subrange(seen - least(n, seen), seen),
{
}

/// Nothing can be asked of a dataset that has been released: every
/// operation on it ends at once with `UseAfterClose`, and no request is made.
pub proof fn closed_dataset_refuses(dataset: H5Dataset, n: usize)
    requires
        !dataset.is_open(),
    ensures
        dataset.measuring() == Step::<ExtentQuery, Outcome<Vec<u64>>>::Done(
            (dataset, Err(stale(Operation::GetSpace))),
        ),
        dataset.refreshing() == Step::<Refresh, Outcome<Vec<u64>>>::Done(
            (dataset, Err(stale(Operation::Refresh))),
        ),
        dataset.reading_all() == Step::<ReadAll, Outcome<Vec<i64>>>::Done(
            (dataset, Err(stale(Operation::ReadAll))),
        ),
        dataset.reading_newest(n) == Step::<TailRead, Outcome<Vec<i64>>>::Done(
            (dataset, Err(stale(Operation::ReadWindow))),
        ),
        dataset.closing() == Step::<DatasetClose, Outcome<()>>::Done((dataset, Err(stale(Operation::Close)))),
{
}

/// A dataset is released once: after its release, whatever the native layer
/// answered, the handle is closed and a second release asks for nothing.
pub proof fn dataset_is_released_once(dataset: H5Dataset, reply: Reply)
    requires
        dataset.is_open(),
    ensures
        dataset.closing() matches Step::Next(close, request) && {
            &&& request == (Request::Close { handle: dataset.handle() })
            &&& close.on_reply(reply) matches Step::Done((after, result))
            &&& !after.is_open()
            &&& result is Ok <==> reply.status() >= 0
            &&& after.closing() is Done
        },
{
    broadcast use H5Dataset::in_state_holds;
}

/// The queries and reads of a dataset leak nothing and release nothing
/// twice, whatever the driver answers and wherever they fail.
pub proof fn reads_release_what_they_acquire(dataset: H5Dataset, replies: Seq<Reply>)
    ensures
        balanced(dataset.measuring(), replies, Multiset::empty(), nothing()),
        balanced(dataset.refreshing(), replies, Multiset::empty(), nothing()),
        balanced(dataset.reading_all(), replies, Multiset::empty(), nothing()),
{
    broadcast use H5Dataset::in_state_holds;
    reveal_with_fuel(balanced, 7);
}

/// What the opening of a pair of dataspaces keeps: the pair, if it succeeds.
pub open spec fn keeps_spaces() -> spec_fn(Result<DataSpace, SwmrError>) -> Multiset<Handle> {
    |end: Result<DataSpace, SwmrError>|
        match end {
            Ok(space) => Multiset::<Handle>::empty().insert(space.handles().0).insert(space.handles().1),
            Err(_) => Multiset::<Handle>::empty(),
        }
}

/// What the opening of a dataset keeps: the dataset, if it succeeds.
pub open spec fn keeps_dataset() -> spec_fn(Result<H5Dataset, SwmrError>) -> Multiset<Handle> {
    |end: Result<H5Dataset, SwmrError>|
        match end {
            Ok(dataset) => Multiset::<Handle>::empty().insert(dataset.handle()),
            Err(_) => Multiset::<Handle>::empty(),
        }
}

/// What the making of an access property list keeps: the list, if it succeeds.
pub open spec fn keeps_list() -> spec_fn(Result<SwmrReadFapl, SwmrError>) -> Multiset<Handle> {
    |end: Result<SwmrReadFapl, SwmrError>|
        match end {
            Ok(fapl) => Multiset::<Handle>::empty().insert(fapl.handle()),
            Err(_) => Multiset::<Handle>::empty(),
        }
}

/// What the opening of a container keeps: the file, if it succeeds.
pub open spec fn keeps_file() -> spec_fn(Result<OpenFileMrRead, SwmrError>) -> Multiset<Handle> {
    |end: Result<OpenFileMrRead, SwmrError>|
        match end {
            Ok(file) => Multiset::<Handle>::empty().insert(file.handle()),
            Err(_) => Multiset::<Handle>::empty(),
        }
}

/// What the opening of a reader session keeps: the file and the access
/// property list, if it succeeds.
pub open spec fn keeps_reader() -> spec_fn(Result<ReaderSession, SwmrError>) -> Multiset<Handle> {
    |end: Result<ReaderSession, SwmrError>|
        match end {
            Ok(session) => Multiset::<Handle>::empty().insert(session.handles().0).insert(
                session.handles().1,
            ),
            Err(_) => Multiset::<Handle>::empty(),
        }
}

/// What the opening of a writer session keeps: the dataset and the file, if
/// it succeeds.
pub open spec fn keeps_writer() -> spec_fn(Result<WriterSession, SwmrError>) -> Multiset<Handle> {
    |end: Result<WriterSession, SwmrError>|
        match end {
            Ok(session) => Multiset::<Handle>::empty().insert(session.handles().0).insert(
                session.handles().1,
            ),
            Err(_) => Multiset::<Handle>::empty(),
        }
}

/// Acquiring leaves nothing behind: an operation that opens something ends
/// holding exactly what it hands to its caller, and where it fails, nothing.
/// This holds whatever the driver answers.
pub proof fn opening_keeps_only_its_result(
    dataset_id: i64,
    size: usize,
    name: String,
    file_id: i64,
    access_plist: i64,
    replies: Seq<Reply>,
)
    ensures
        balanced(DataSpace::opening(dataset_id, size), replies, Multiset::empty(), keeps_spaces()),
        balanced(H5Dataset::opening(name, file_id), replies, Multiset::empty(), keeps_dataset()),
        balanced(SwmrReadFapl::creating(), replies, Multiset::empty(), keeps_list()),
        balanced(OpenFileMrRead::opening(name, access_plist), replies, Multiset::empty(), keeps_file()),
        balanced(opening_reader(name), replies, Multiset::empty(), keeps_reader()),
{
    broadcast use
        H5Dataset::in_state_holds,
        DataSpace::of_holds,
        SwmrReadFapl::of_holds,
        OpenFileMrRead::of_holds,
        ReaderSession::of_holds,
    ;
    reveal_with_fuel(balanced, 6);
}

/// Opening a writer session leaves nothing behind either: it ends holding
/// the dataset and the file, and where it fails, nothing.
#[verifier::rlimit(80)]
#[verifier::spinoff_prover]
pub proof fn writer_opening_keeps_only_its_result(
    path: String,
    dataset: String,
    chunk: u64,
    policy: Durability,
    replies: Seq<Reply>,
)
    ensures
        balanced(opening_writer(path, dataset, chunk, policy), replies, Multiset::empty(), keeps_writer()),
{
    broadcast use WriterSession::of_holds;
    reveal_with_fuel(balanced, 12);
}

/// An append leaks nothing and releases nothing twice, whatever the driver
/// answers and wherever it fails.
pub proof fn append_releases_what_it_acquires(session: WriterSession, value: i64, replies: Seq<Reply>)
    ensures
        balanced(session.appending(value), replies, Multiset::empty(), nothing()),
{
    broadcast use WriterSession::of_holds;
    reveal_with_fuel(balanced, 10);
}

/// Where there is no container to open, a reader session fails with
/// `OpenFailed`, having released the access property list it had made.
pub proof fn reader_needs_a_container(path: String, replies: Seq<Reply>)
    requires
        replies.len() == 4,
        replies[0].status() >= 0,
        replies[1].status() >= 0,
        replies[2].status() < 0,
    ensures
        run(opening_reader(path), replies) matches Step::Done(Err(e)) && {
            &&& e.kind == ErrorKind::OpenFailed
            &&& e == failure(Operation::OpenFile, replies[2].status())
        },
        asked(opening_reader(path), replies).len() == 4,
        asked(opening_reader(path), replies)[3] == (Request::Close {
            handle: SwmrReadFapl::of(replies[0].status()).handle(),
        }),
{
    broadcast use SwmrReadFapl::of_holds, OpenFileMrRead::of_holds, ReaderSession::of_holds;
    reveal_with_fuel(run, 6);
    reveal_with_fuel(asked, 6);
}

/// The container as its writer and its readers have it: the records of the
/// dataset as written, and those of them that a reader sees when it
/// refreshes.
pub struct Container {
    /// The records of the dataset, one per slot of its extent.
    pub slots: Seq<i64>,
    /// The records that had been flushed at the last flush.
    pub visible: Seq<i64>,
}

/// The container once the writer's `request` has succeeded: an extension
/// adds slots and keeps the records there are, a write fills its slot, a
/// flush shows the readers all that was written, and nothing else changes
/// any record.
pub open spec fn written(c: Container, request: Request) -> Container {
    match request {
        Request::Extend { len, .. } => if len >= c.slots.len() {
            Container {
                slots: c.slots + Seq::new((len - c.slots.len()) as nat, |i: int| 0i64),
                visible: c.visible,
            }
        } else {
            Container { slots: c.slots.take(len as int), visible: c.visible }
        },
        Request::WriteSlot { start, value, .. } => if start < c.slots.len() {
            Container { slots: c.slots.update(start as int, value), visible: c.visible }
        } else {
            c
        },
        Request::FlushDataset { .. } | Request::FlushFile { .. } => Container {
            slots: c.slots,
            visible: c.slots,
        },
        _ => c,
    }
}

/// The container once each of the writer's `requests` has succeeded, in order.
pub open spec fn performed(c: Container, requests: Seq<Request>) -> Container
    decreases requests.len(),
{
    if requests.len() == 0 {
        c
    } else {
        performed(written(c, requests[0]), requests.drop_first())
    }
}

/// Whether every one of `replies` reports success.
pub open spec fn succeeding(replies: Seq<Reply>) -> bool {
    forall|i: int| 0 <= i < replies.len() ==> (#[trigger] replies[i]).status() >= 0
}

/// The container after the append of `value` has gone through and flushed.
pub open spec fn appended(c: Container, value: i64) -> Container {
    Container { slots: c.slots.push(value), visible: c.slots.push(value) }
}

/// The container after each of `values` has been appended and flushed, in order.
pub open spec fn appended_all(c: Container, values: Seq<i64>) -> Container
    decreases values.len(),
{
    if values.len() == 0 {
        c
    } else {
        appended(appended_all(c, values.drop_last()), values.last())
    }
}

/// An append that meets no failure and flushes adds exactly one record: the
/// session's extent grows by one, the records that were there are kept, the
/// new record is the last, and the readers are shown all of them.
pub proof fn append_adds_one_record(session: WriterSession, value: i64, c: Container, replies: Seq<Reply>)
    requires
        session.extent() == c.slots.len(),
        session.extent() < u64::MAX,
        flush_due(session.policy(), session.grown().extent()),
        succeeding(replies),
        run(session.appending(value), replies) is Done,
    ensures
        run(session.appending(value), replies) == Step::<Append, (WriterSession, Result<(), SwmrError>)>::Done(
            (session.grown(), Ok(())),
        ),
        session.grown().extent() == session.extent() + 1,
        performed(c, asked(session.appending(value), replies)) == appended(c, value),
{
    broadcast use WriterSession::of_holds;
    append_runs_to_its_end(session, value, replies);
    let requests = asked(session.appending(value), replies);
    assert(requests.len() == 8 && requests[0] is Extend && requests[3] is WriteSlot && requests[7] is FlushFile)
        by {
        reveal_with_fuel(asked, 10);
    }
    assert(requests[0] == (Request::Extend { dataset: session.dataset(), len: session.grown().extent() })
        && requests[3]->WriteSlot_start == session.extent() && requests[3]->WriteSlot_value == value
        && requests[1] is CreateSpace && requests[2] is CreateSpace && requests[4] is Close
        && requests[5] is Close && requests[6] is FlushDataset) by {
        reveal_with_fuel(asked, 10);
    }
    performed_in_turn(c, requests);
    let c1 = written(c, requests[0]);
    assert(c1.slots =~= c.slots.push(0i64));
    let c4 = written(written(written(c1, requests[1]), requests[2]), requests[3]);
    assert(c4.slots =~= c.slots.push(value));
    let end = performed(c, requests);
    assert(end.slots =~= c.slots.push(value));
    assert(end.visible =~= c.slots.push(value));
}

/// An append that meets no failure runs to its end in eight steps when it
/// flushes, and succeeds.
proof fn append_runs_to_its_end(session: WriterSession, value: i64, replies: Seq<Reply>)
    requires
        session.extent() < u64::MAX,
        flush_due(session.policy(), session.grown().extent()),
        succeeding(replies),
        run(session.appending(value), replies) is Done,
    ensures
        replies.len() >= 8,
        run(session.appending(value), replies) == Step::<Append, (WriterSession, Result<(), SwmrError>)>::Done(
            (session.grown(), Ok(())),
        ),
{
    broadcast use WriterSession::of_holds;
    reveal_with_fuel(run, 10);
}

/// The writer's first eight requests take effect one after the other.
proof fn performed_in_turn(c: Container, requests: Seq<Request>)
    requires
        requests.len() == 8,
    ensures
        performed(c, requests) == written(
            written(
                written(
                    written(
                        written(
                            written(written(written(c, requests[0]), requests[1]), requests[2]),
                            requests[3],
                        ),
                        requests[4],
                    ),
                    requests[5],
                ),
                requests[6],
            ),
            requests[7],
        ),
{
    reveal_with_fuel(performed, 10);
    let r1 = requests.drop_first();
    let r2 = r1.drop_first();
    let r3 = r2.drop_first();
    let r4 = r3.drop_first();
    let r5 = r4.drop_first();
    let r6 = r5.drop_first();
    let r7 = r6.drop_first();
    assert(r1[0] == requests[1] && r2[0] == requests[2] && r3[0] == requests[3] && r4[0] == requests[4]
        && r5[0] == requests[5] && r6[0] == requests[6] && r7[0] == requests[7]);
    assert(r7.drop_first().len() == 0);
}

/// An append that meets no failure and does not flush adds its record
/// without showing it: the readers see what they saw.
pub proof fn unflushed_append_is_not_shown(
    session: WriterSession,
    value: i64,
    c: Container,
    replies: Seq<Reply>,
)
    requires
        session.extent() == c.slots.len(),
        session.extent() < u64::MAX,
        !flush_due(session.policy(), session.grown().extent()),
        succeeding(replies),
        run(session.appending(value), replies) is Done,
    ensures
        run(session.appending(value), replies) == Step::<Append, (WriterSession, Result<(), SwmrError>)>::Done(
            (session.grown(), Ok(())),
        ),
        performed(c, asked(session.appending(value), replies)).slots == c.slots.push(value),
        performed(c, asked(session.appending(value), replies)).visible == c.visible,
{
    broadcast use WriterSession::of_holds;
    reveal_with_fuel(run, 10);
    reveal_with_fuel(asked, 10);
    reveal_with_fuel(performed, 10);
    let end = performed(c, asked(session.appending(value), replies));
    assert(end.slots =~= c.slots.push(value));
}

/// A flush that meets no failure shows the readers every record written.
pub proof fn flush_shows_everything(session: WriterSession, c: Container, replies: Seq<Reply>)
    requires
        succeeding(replies),
        run(session.flushing(), replies) is Done,
    ensures
        run(session.flushing(), replies) == Step::<Append, (WriterSession, Result<(), SwmrError>)>::Done(
            (session, Ok(())),
        ),
        performed(c, asked(session.flushing(), replies)).visible == c.slots,
        performed(c, asked(session.flushing(), replies)).slots == c.slots,
{
    reveal_with_fuel(run, 4);
    reveal_with_fuel(asked, 4);
    reveal_with_fuel(performed, 4);
}

/// Where the write fails after the extension has succeeded, the append
/// fails with `WriteFailed` and the extension stands: the session and the
/// dataset are one slot longer, the records that were there are kept, and
/// what the new slot holds was not written by anyone. Nothing is flushed.
pub proof fn failed_write_leaves_the_extension(
    session: WriterSession,
    value: i64,
    c: Container,
    replies: Seq<Reply>,
)
    requires
        session.extent() == c.slots.len(),
        session.extent() < u64::MAX,
        replies.len() == 6,
        replies[0].status() >= 0,
        replies[1].status() >= 0,
        replies[2].status() >= 0,
        replies[3].status() < 0,
    ensures
        run(session.appending(value), replies) == Step::<Append, (WriterSession, Result<(), SwmrError>)>::Done(
            (session.grown(), Err(failure(Operation::WriteSlot, replies[3].status()))),
        ),
        failure(Operation::WriteSlot, replies[3].status()).kind == ErrorKind::WriteFailed,
        session.grown().extent() == session.extent() + 1,
        asked(session.appending(value), replies).len() == 6,
        performed(c, asked(session.appending(value), replies).take(3)).slots.len() == c.slots.len() + 1,
        performed(c, asked(session.appending(value), replies).take(3)).slots.take(c.slots.len() as int)
            == c.slots,
        performed(c, asked(session.appending(value), replies).take(3)).visible == c.visible,
{
    broadcast use WriterSession::of_holds;
    reveal_with_fuel(run, 8);
    reveal_with_fuel(asked, 8);
    reveal_with_fuel(performed, 5);
    let requests = asked(session.appending(value), replies).take(3);
    assert(requests.len() == 3);
    assert(requests.drop_first().len() == 2);
    assert(requests.drop_first().drop_first().len() == 1);
    let end = performed(c, requests);
    assert(end.slots.take(c.slots.len() as int) =~= c.slots);
}

/// After any number of appends that went through and flushed, a container
/// that was empty shows exactly the values appended: each once, in the order
/// of the appends.
pub proof fn appends_show_in_order(values: Seq<i64>)
    ensures
        appended_all(Container { slots: Seq::empty(), visible: Seq::empty() }, values).visible == values,
        appended_all(Container { slots: Seq::empty(), visible: Seq::empty() }, values).slots == values,
    decreases values.len(),
{
    let empty = Container { slots: Seq::empty(), visible: Seq::empty() };
    if values.len() > 0 {
        appends_show_in_order(values.drop_last());
        assert(values.drop_last().push(values.last()) =~= values);
    } else {
        assert(appended_all(empty, values).visible =~= values);
        assert(appended_all(empty, values).slots =~= values);
    }
}

/// After any number of appends that went through and flushed, a read of all
/// records gives exactly the values appended so far: none missing, none
/// twice, in the order of the appends.
pub proof fn read_all_after_appends(dataset: H5Dataset, values: Seq<i64>, replies: Seq<Reply>)
    requires
        dataset.is_open(),
        values.len() <= u64::MAX,
        served(
            appended_all(Container { slots: Seq::empty(), visible: Seq::empty() }, values).visible,
            dataset.reading_all(),
            replies,
        ),
        run(dataset.reading_all(), replies) is Done,
    ensures
        run(dataset.reading_all(), replies) matches Step::Done((_, Ok(got))) && got@ == values,
{
    appends_show_in_order(values);
    read_all_is_everything(dataset, values, replies);
}

/// A writer session that opens without failure holds an empty dataset, and
/// has released the property list and the dataspace it was made with.
pub proof fn writer_opens_on_an_empty_dataset(
    path: String,
    dataset: String,
    chunk: u64,
    policy: Durability,
    replies: Seq<Reply>,
)
    requires
        chunk > 0,
        succeeding(replies),
        run(opening_writer(path, dataset, chunk, policy), replies) is Done,
    ensures
        run(opening_writer(path, dataset, chunk, policy), replies) matches Step::Done(Ok(session)) && {
            &&& session.extent() == 0
            &&& session.policy() == policy
            &&& session.file() == replies[0].status()
            &&& session.dataset() == replies[4].status()
        },
        asked(opening_writer(path, dataset, chunk, policy), replies)[0] == (Request::CreateFile { path }),
        asked(opening_writer(path, dataset, chunk, policy), replies)[1] == (Request::CreateSpace {
            len: 0,
            growable: true,
        }),
        asked(opening_writer(path, dataset, chunk, policy), replies)[3] == (Request::SetChunk {
            plist: replies[2].status(),
            records: chunk,
        }),
{
    broadcast use WriterSession::of_holds;
    reveal_with_fuel(run, 9);
    reveal_with_fuel(asked, 9);
}

/// Whether an outcome gives back the dataset `id`, still open.
pub open spec fn gives_back<T>(id: i64) -> spec_fn(Outcome<T>) -> bool {
    |end: Outcome<T>| end.0.is_open() && end.0.native_id() == id
}

/// The queries and reads of an open dataset give the dataset back, open,
/// however they end and whatever the driver answers.
pub proof fn reads_give_the_dataset_back(dataset: H5Dataset, n: usize, replies: Seq<Reply>)
    requires
        dataset.is_open(),
    ensures
        ends_with(dataset.measuring(), replies, gives_back(dataset.native_id())),
        ends_with(dataset.refreshing(), replies, gives_back(dataset.native_id())),
        ends_with(dataset.reading_all(), replies, gives_back(dataset.native_id())),
        ends_with(dataset.reading_newest(n), replies, gives_back(dataset.native_id())),
{
    broadcast use H5Dataset::in_state_holds, DataSpace::of_holds;
    reveal_with_fuel(ends_with, 11);
}

/// A read of the newest `n` records never gives more than `n`, whatever the
/// driver answers.
pub proof fn newest_n_never_exceeds_n(dataset: H5Dataset, n: usize, replies: Seq<Reply>)
    ensures
        ends_with(
            dataset.reading_newest(n),
            replies,
            |end: Outcome<Vec<i64>>| end.1 matches Ok(got) ==> got@.len() <= n,
        ),
{
    broadcast use H5Dataset::in_state_holds, DataSpace::of_holds;
    reveal_with_fuel(ends_with, 11);
}

/// The extent that the writer counts never shrinks, and an append adds at
/// most one to it, however it ends.
pub proof fn append_never_shrinks(session: WriterSession, value: i64, replies: Seq<Reply>)
    ensures
        ends_with(
            session.appending(value),
            replies,
            |end: (WriterSession, Result<(), SwmrError>)|
                session.extent() <= end.0.extent() <= session.extent() + 1 && (end.1 is Ok
                    ==> end.0.extent() == session.extent() + 1),
        ),
{
    broadcast use WriterSession::of_holds;
    reveal_with_fuel(ends_with, 10);
}

/// Every read starts with a refresh: on an open dataset, the first request
/// of a read of all records and of a read of the newest is the refresh, and
/// the read itself is asked for only once the refresh has succeeded.
pub proof fn reads_refresh_first(dataset: H5Dataset, n: usize, replies: Seq<Reply>, i: int)
    requires
        dataset.is_open(),
    ensures
        asked(dataset.reading_all(), replies)[0] == (Request::Refresh { dataset: dataset.native_id() }),
        asked(dataset.reading_newest(n), replies)[0] == (Request::Refresh { dataset: dataset.native_id() }),
        0 <= i < asked(dataset.reading_all(), replies).len() && asked(dataset.reading_all(), replies)[i] is ReadAll
            ==> i == 4 && replies[0].status() >= 0,
        0 <= i < asked(dataset.reading_newest(n), replies).len() && asked(
            dataset.reading_newest(n),
            replies,
        )[i] is ReadWindow ==> i == 6 && replies[0].status() >= 0,
{
    broadcast use H5Dataset::in_state_holds, DataSpace::of_holds;
    reveal_with_fuel(asked, 11);
}

/// The window that a read of the newest records asks for lies within the
/// extent that its refresh gave: it ends where the extent ends, and holds
/// `n` records, or as many as there are if there are fewer.
pub proof fn window_lies_within_the_extent(dataset: H5Dataset, n: usize, replies: Seq<Reply>)
    requires
        asked(dataset.reading_newest(n), replies).len() > 6,
        asked(dataset.reading_newest(n), replies)[6] is ReadWindow,
    ensures
        asked(dataset.reading_newest(n), replies)[6] matches Request::ReadWindow { start, count, .. }
            && replies[2] matches Reply::Extent { dims, .. } && {
            &&& dims@.len() == 1
            &&& start + count == dims@[0]
            &&& count == least(n as int, dims@[0] as int)
        },
{
    broadcast use H5Dataset::in_state_holds, DataSpace::of_holds;
    reveal_with_fuel(asked, 11);
}

} // verus!
