//! Selections over the first dimension, and the pair of dataspaces that a
//! windowed read goes through.

use vstd::prelude::*;
use crate::error::{Operation, SwmrError, check, checked};
use crate::protocol::{Handle, Machine, Reply, Request, ResourceKind, Step, asked, run};
use crate::release::{Teardown, release_all};

verus! {

/// A contiguous range of records: `count` of them from `start` on.
#[derive(Clone, Copy, Debug, PartialEq, Eq, Structural)]
pub struct Selection {
    pub start: u64,
    pub count: u64,
}

/// The smaller of two numbers.
pub open spec fn least(a: int, b: int) -> int {
    if a <= b {
        a
    } else {
        b
    }
}

/// The range of the newest `window` records of a dataset that holds `extent`
/// of them: all of them if it holds fewer.
pub open spec fn tail_window(extent: u64, window: u64) -> Selection {
    Selection {
        start: (extent - least(window as int, extent as int)) as u64,
        count: least(window as int, extent as int) as u64,
    }
}

/// The memory-side selection that goes with a file-side one: as many
/// elements, from the start of the buffer.
pub open spec fn memory_window(file: Selection) -> Selection {
    Selection { start: 0, count: file.count }
}

/// The records of `records` that a selection covers.
pub open spec fn select<T>(records: Seq<T>, selection: Selection) -> Seq<T> {
    records.subrange(selection.start as int, selection.start + selection.count)
}

/// The last `n` records, in order: all of them if there are fewer.
pub open spec fn newest<T>(records: Seq<T>, n: int) -> Seq<T> {
    records.subrange(records.len() - least(n, records.len() as int), records.len() as int)
}

/// Computes the file-side and memory-side selections for the trailing
/// `window` records of a dataset whose first dimension is `dataset_extent`.
pub fn build_tail_window(dataset_extent: u64, window: u64) -> (w: (Selection, Selection))
    ensures
        w.0 == tail_window(dataset_extent, window),
        w.1 == memory_window(w.0),
        w.0.count == least(window as int, dataset_extent as int),
        w.0.start + w.0.count == dataset_extent,
{
    let count: u64 = if window < dataset_extent {
        window
    } else {
        dataset_extent
    };
    let start: u64 = dataset_extent - count;
    (Selection { start, count }, Selection { start: 0, count })
}

/// The tail window of a dataset covers exactly its newest records: as many
/// as asked for or as there are, whichever is fewer, and in their order.
pub proof fn tail_window_selects_newest<T>(records: Seq<T>, window: u64)
    requires
        records.len() <= u64::MAX,
    ensures
        select(records, tail_window(records.len() as u64, window)) == newest(records, window as int),
        newest(records, window as int).len() == least(window as int, records.len() as int),
        forall|i: int|
            0 <= i < newest(records, window as int).len() ==> newest(records, window as int)[i]
                == records[records.len() - newest(records, window as int).len() + i],
{
}

/// The tail window of an empty dataset is empty.
pub proof fn tail_window_of_empty(window: u64)
    ensures
        tail_window(0, window) == (Selection { start: 0, count: 0 }),
{
}

/// The two dataspaces of a windowed read: a copy of the dataset's file
/// dataspace and a memory dataspace of the window's size. They are acquired
/// together and released together.
pub struct DataSpace {
    ds_id: i64,
    ms_id: i64,
}

impl DataSpace {
    /// The identifier of the file dataspace.
    pub closed spec fn file_space(self) -> i64 {
        self.ds_id
    }

    /// The identifier of the memory dataspace.
    pub closed spec fn memory_space(self) -> i64 {
        self.ms_id
    }

    /// The pair that owns these two dataspaces.
    pub closed spec fn of(file_space: i64, memory_space: i64) -> DataSpace {
        DataSpace { ds_id: file_space, ms_id: memory_space }
    }

    /// A pair is what it was made of.
    pub broadcast proof fn of_holds(file_space: i64, memory_space: i64)
        ensures
            (#[trigger] DataSpace::of(file_space, memory_space)).file_space() == file_space,
            DataSpace::of(file_space, memory_space).memory_space() == memory_space,
    {
    }

    /// Two pairs of the same dataspaces are the same pair.
    pub proof fn same(a: DataSpace, b: DataSpace)
        requires
            a.file_space() == b.file_space(),
            a.memory_space() == b.memory_space(),
        ensures
            a == b,
    {
    }

    /// The first step of acquiring the pair for a window of `size` records of
    /// the dataset `dataset_id`.
    pub open spec fn opening(dataset_id: i64, size: usize) -> Step<
        SpaceOpen,
        Result<DataSpace, SwmrError>,
    > {
        Step::Next(SpaceOpen::FileSpace { size: size as u64 }, Request::GetSpace { dataset: dataset_id })
    }

    /// Starts acquiring the pair for a window of `size` records of the dataset
    /// `dataset_id`: first a copy of the file dataspace, then the memory
    /// dataspace.
    pub fn new(dataset_id: i64, size: usize) -> (step: Step<SpaceOpen, Result<DataSpace, SwmrError>>)
        ensures
            step == DataSpace::opening(dataset_id, size),
    {
        Step::Next(SpaceOpen::FileSpace { size: size as u64 }, Request::GetSpace { dataset: dataset_id })
    }

    /// The identifier of the file dataspace, to pass to a call.
    pub fn dataspace_id(&self) -> (id: i64)
        ensures
            id == self.file_space(),
    {
        self.ds_id
    }

    /// The identifier of the memory dataspace, to pass to a call.
    pub fn memoryspace_id(&self) -> (id: i64)
        ensures
            id == self.memory_space(),
    {
        self.ms_id
    }

    /// The two handles of the pair, in the order of their release.
    pub open spec fn handles(self) -> (Handle, Handle) {
        (
            Handle { kind: ResourceKind::Dataspace, id: self.file_space() },
            Handle { kind: ResourceKind::Dataspace, id: self.memory_space() },
        )
    }

    /// Starts releasing the pair: the file dataspace, then the memory
    /// dataspace, the second also when the first release fails. `failure` is
    /// what the read that used them has failed with, if it has.
    pub fn release(self, failure: Option<SwmrError>) -> (step: Step<Teardown, Result<(), SwmrError>>)
        ensures
            step == release_all(failure, Some(self.handles().0), Some(self.handles().1), None, None),
    {
        Teardown::begin(
            failure,
            Some(Handle { kind: ResourceKind::Dataspace, id: self.ds_id }),
            Some(Handle { kind: ResourceKind::Dataspace, id: self.ms_id }),
            None,
            None,
        )
    }
}

/// Acquiring a [`DataSpace`], step by step.
pub enum SpaceOpen {
    /// The file dataspace is awaited; the memory dataspace will have `size` elements.
    FileSpace { size: u64 },
    /// The memory dataspace is awaited; the file dataspace is held.
    MemorySpace { file_space: i64 },
    /// The memory dataspace could not be had: the file dataspace is being released.
    Undo { error: SwmrError },
}

impl Machine for SpaceOpen {
    type Output = Result<DataSpace, SwmrError>;

    open spec fn on_reply(self, reply: Reply) -> Step<Self, Self::Output> {
        match self {
            SpaceOpen::FileSpace { size } => match checked(Operation::GetSpace, reply.status()) {
                Ok(id) => Step::Next(
                    SpaceOpen::MemorySpace { file_space: id },
                    Request::CreateSpace { len: size, growable: false },
                ),
                Err(e) => Step::Done(Err(e)),
            },
            SpaceOpen::MemorySpace { file_space } => match checked(
                Operation::CreateSpace,
                reply.status(),
            ) {
                Ok(id) => Step::Done(Ok(DataSpace::of(file_space, id))),
                Err(e) => Step::Next(
                    SpaceOpen::Undo { error: e },
                    Request::Close { handle: Handle { kind: ResourceKind::Dataspace, id: file_space } },
                ),
            },
            SpaceOpen::Undo { error } => Step::Done(Err(error)),
        }
    }

    fn advance(self, reply: Reply) -> (next: Step<Self, Self::Output>) {
        match self {
            SpaceOpen::FileSpace { size } => match check(Operation::GetSpace, reply.code()) {
                Ok(id) => Step::Next(
                    SpaceOpen::MemorySpace { file_space: id },
                    Request::CreateSpace { len: size, growable: false },
                ),
                Err(e) => Step::Done(Err(e)),
            },
            SpaceOpen::MemorySpace { file_space } => match check(Operation::CreateSpace, reply.code()) {
                Ok(id) => Step::Done(Ok(DataSpace { ds_id: file_space, ms_id: id })),
                Err(e) => Step::Next(
                    SpaceOpen::Undo { error: e },
                    Request::Close { handle: Handle { kind: ResourceKind::Dataspace, id: file_space } },
                ),
            },
            SpaceOpen::Undo { error } => Step::Done(Err(error)),
        }
    }
}

/// Acquiring the pair succeeds exactly when both dataspaces can be had, and
/// then holds the two identifiers that were given; it fails with the first
/// failure. Where the memory dataspace cannot be had, the file dataspace is
/// released before the failure is reported.
pub proof fn space_open_outcome(dataset_id: i64, size: usize, replies: Seq<Reply>)
    requires
        replies.len() == 3,
    ensures
        ({
            let file = replies[0].status();
            let memory = replies[1].status();
            let end = run(DataSpace::opening(dataset_id, size), replies);
            let requests = asked(DataSpace::opening(dataset_id, size), replies);
            let space = Handle { kind: ResourceKind::Dataspace, id: file };
            &&& file < 0 ==> end == Step::<SpaceOpen, Result<DataSpace, SwmrError>>::Done(
                Err(crate::error::failure(Operation::GetSpace, file)),
            ) && requests.len() == 1
            &&& file >= 0 && memory < 0 ==> end == Step::<SpaceOpen, Result<DataSpace, SwmrError>>::Done(
                Err(crate::error::failure(Operation::CreateSpace, memory)),
            ) && requests.len() == 3 && requests[2] == (Request::Close { handle: space })
            &&& file >= 0 && memory >= 0 ==> end == Step::<SpaceOpen, Result<DataSpace, SwmrError>>::Done(
                Ok(DataSpace::of(file, memory)),
            ) && requests.len() == 2
        }),
{
    reveal_with_fuel(run, 5);
    reveal_with_fuel(asked, 5);
}

} // verus!
