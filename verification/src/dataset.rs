//! The dataset controller: one open dataset, its extent, and the reads that
//! follow a refresh.

use vstd::prelude::*;
use vstd::pervasive::unreached;
use crate::dataspace::{DataSpace, Selection, SpaceOpen, build_tail_window, tail_window};
use crate::error::{Operation, SwmrError, check, checked, failure, stale};
use crate::htype::{H5Datatype, TypeOpen};
use crate::protocol::{Handle, Machine, Reply, Request, ResourceKind, Step};
use crate::release::Teardown;

verus! {

/// Where an open dataset handle stands.
#[derive(Clone, Copy, Debug, PartialEq, Eq, Structural)]
pub enum DatasetState {
    /// Opened, and not refreshed since.
    Opened,
    /// The last refresh succeeded: the extent it gave was current as of that call.
    Refreshed,
    /// Released. Nothing can be asked of it any more.
    Closed,
}

/// An open dataset. It owns the native identifier until it is closed.
pub struct H5Dataset {
    dataset_id: i64,
    state: DatasetState,
}

/// What an operation on a dataset ends with: the dataset, for the next
/// operation, and the result.
pub type Outcome<T> = (H5Dataset, Result<T, SwmrError>);

/// The extent along the first dimension of a one-dimensional dataset. A
/// dataset of any other rank is refused as unreadable.
pub open spec fn first_dimension(dims: Seq<u64>) -> Result<u64, SwmrError> {
    if dims.len() == 1 {
        Ok(dims[0])
    } else {
        Err(failure(Operation::QueryExtent, 0))
    }
}

/// The extent along the first dimension of a one-dimensional dataset.
pub fn only_dimension(dims: &Vec<u64>) -> (r: Result<u64, SwmrError>)
    ensures
        r == first_dimension(dims@),
{
    if dims.len() == 1 {
        Ok(dims[0])
    } else {
        Err(SwmrError::native(Operation::QueryExtent, 0))
    }
}

impl H5Dataset {
    /// The native identifier.
    pub closed spec fn native_id(self) -> i64 {
        self.dataset_id
    }

    /// Where the handle stands.
    pub closed spec fn state(self) -> DatasetState {
        self.state
    }

    /// The handle of the dataset `id` in the given state.
    pub closed spec fn in_state(id: i64, state: DatasetState) -> H5Dataset {
        H5Dataset { dataset_id: id, state }
    }

    /// A handle is what it was made of.
    pub broadcast proof fn in_state_holds(id: i64, state: DatasetState)
        ensures
            (#[trigger] H5Dataset::in_state(id, state)).native_id() == id,
            H5Dataset::in_state(id, state).state() == state,
    {
    }

    /// A handle is determined by its identifier and its state.
    pub proof fn same(a: H5Dataset, b: H5Dataset)
        requires
            a.native_id() == b.native_id(),
            a.state() == b.state(),
        ensures
            a == b,
    {
    }

    /// Whether the handle can still be used.
    pub open spec fn is_open(self) -> bool {
        self.state() != DatasetState::Closed
    }

    /// The same dataset after a successful refresh.
    pub open spec fn refreshed(self) -> H5Dataset {
        H5Dataset::in_state(self.native_id(), DatasetState::Refreshed)
    }

    /// The same dataset after its release.
    pub open spec fn released(self) -> H5Dataset {
        H5Dataset::in_state(self.native_id(), DatasetState::Closed)
    }

    /// The release handle of the dataset.
    pub open spec fn handle(self) -> Handle {
        Handle { kind: ResourceKind::Dataset, id: self.native_id() }
    }

    /// What there is to release of the dataset: its handle, unless it has
    /// been released already.
    pub open spec fn release_handle(self) -> Option<Handle> {
        if self.is_open() {
            Some(self.handle())
        } else {
            None
        }
    }

    /// The first step of opening the dataset `name` of the file `file_id`.
    pub open spec fn opening(name: String, file_id: i64) -> Step<DatasetOpen, Result<H5Dataset, SwmrError>> {
        Step::Next(DatasetOpen::Pending, Request::OpenDataset { file: file_id, name })
    }

    /// The first step of an extent query.
    pub open spec fn measuring(self) -> Step<ExtentQuery, Outcome<Vec<u64>>> {
        if self.is_open() {
            Step::Next(ExtentQuery::Space { dataset: self }, Request::GetSpace { dataset: self.native_id() })
        } else {
            Step::Done((self, Err(stale(Operation::GetSpace))))
        }
    }

    /// The first step of a refresh.
    pub open spec fn refreshing(self) -> Step<Refresh, Outcome<Vec<u64>>> {
        if self.is_open() {
            Step::Next(Refresh::Invalidate { dataset: self }, Request::Refresh { dataset: self.native_id() })
        } else {
            Step::Done((self, Err(stale(Operation::Refresh))))
        }
    }

    /// The first step of a full read.
    pub open spec fn reading_all(self) -> Step<ReadAll, Outcome<Vec<i64>>> {
        match self.refreshing() {
            Step::Next(refresh, request) => Step::Next(ReadAll::Refreshing { refresh }, request),
            Step::Done(end) => Step::Done((end.0, Err(stale(Operation::ReadAll)))),
        }
    }

    /// The first step of a read of the newest `n` records.
    pub open spec fn reading_newest(self, n: usize) -> Step<TailRead, Outcome<Vec<i64>>> {
        match self.refreshing() {
            Step::Next(refresh, request) => Step::Next(TailRead::Refreshing { n, refresh }, request),
            Step::Done(end) => Step::Done((end.0, Err(stale(Operation::ReadWindow)))),
        }
    }

    /// The first step of getting the element type.
    pub open spec fn typing(self) -> Step<TypeOpen, Result<H5Datatype, SwmrError>> {
        if self.is_open() {
            H5Datatype::opening(self.native_id())
        } else {
            Step::Done(Err(stale(Operation::GetType)))
        }
    }

    /// The first step of the release.
    pub open spec fn closing(self) -> Step<DatasetClose, Outcome<()>> {
        if self.is_open() {
            Step::Next(DatasetClose { dataset: self }, Request::Close { handle: self.handle() })
        } else {
            Step::Done((self, Err(stale(Operation::Close))))
        }
    }

    /// Starts opening the dataset `name` of the open file `file_id`. The
    /// outcome is the handle, in state `Opened`, or `OpenFailed`.
    pub fn new(name: String, file_id: i64) -> (step: Step<DatasetOpen, Result<H5Dataset, SwmrError>>)
        ensures
            step == H5Dataset::opening(name, file_id),
    {
        Step::Next(DatasetOpen::Pending, Request::OpenDataset { file: file_id, name })
    }

    /// The native identifier, to pass to a call.
    pub fn id(&self) -> (id: i64)
        ensures
            id == self.native_id(),
    {
        self.dataset_id
    }

    /// Whether the handle has been released.
    pub fn is_closed(&self) -> (closed: bool)
        ensures
            closed == !self.is_open(),
    {
        match self.state {
            DatasetState::Closed => true,
            _ => false,
        }
    }

    /// Whether the last refresh of the handle succeeded.
    pub fn is_refreshed(&self) -> (fresh: bool)
        ensures
            fresh == (self.state() == DatasetState::Refreshed),
    {
        match self.state {
            DatasetState::Refreshed => true,
            _ => false,
        }
    }

    /// Starts a query of the current size of each dimension. The sizes are
    /// asked of a dataspace fetched from the dataset for this call, never of
    /// one kept from before.
    pub fn ndims(self) -> (step: Step<ExtentQuery, Outcome<Vec<u64>>>)
        ensures
            step == self.measuring(),
    {
        if self.is_closed() {
            Step::Done((self, Err(SwmrError::use_after_close(Operation::GetSpace))))
        } else {
            let dataset: i64 = self.dataset_id;
            Step::Next(ExtentQuery::Space { dataset: self }, Request::GetSpace { dataset })
        }
    }

    /// Starts a refresh: the cached metadata is dropped, then the extent is
    /// queried. The outcome is the extent after the refresh.
    pub fn refresh(self) -> (step: Step<Refresh, Outcome<Vec<u64>>>)
        ensures
            step == self.refreshing(),
    {
        if self.is_closed() {
            Step::Done((self, Err(SwmrError::use_after_close(Operation::Refresh))))
        } else {
            let dataset: i64 = self.dataset_id;
            Step::Next(Refresh::Invalidate { dataset: self }, Request::Refresh { dataset })
        }
    }

    /// Starts a read of all records: a refresh, then one read of the whole
    /// extent.
    pub fn read_all(self) -> (step: Step<ReadAll, Outcome<Vec<i64>>>)
        ensures
            step == self.reading_all(),
    {
        match self.refresh() {
            Step::Next(refresh, request) => Step::Next(ReadAll::Refreshing { refresh }, request),
            Step::Done(end) => Step::Done((end.0, Err(SwmrError::use_after_close(Operation::ReadAll)))),
        }
    }

    /// Starts a read of the newest `n` records, or of all if there are fewer:
    /// a refresh, then one read of the trailing window.
    pub fn get_newest_n(self, n: usize) -> (step: Step<TailRead, Outcome<Vec<i64>>>)
        ensures
            step == self.reading_newest(n),
    {
        match self.refresh() {
            Step::Next(refresh, request) => Step::Next(TailRead::Refreshing { n, refresh }, request),
            Step::Done(end) => Step::Done((end.0, Err(SwmrError::use_after_close(Operation::ReadWindow)))),
        }
    }

    /// Starts getting the element type of the dataset.
    pub fn get_datatype(&self) -> (step: Step<TypeOpen, Result<H5Datatype, SwmrError>>)
        ensures
            step == self.typing(),
    {
        if self.is_closed() {
            Step::Done(Err(SwmrError::use_after_close(Operation::GetType)))
        } else {
            H5Datatype::new(self.id())
        }
    }

    /// Starts the release of the dataset. Whatever the native layer answers,
    /// the handle is `Closed` afterwards: a release is never asked for twice.
    pub fn close(self) -> (step: Step<DatasetClose, Outcome<()>>)
        ensures
            step == self.closing(),
    {
        if self.is_closed() {
            Step::Done((self, Err(SwmrError::use_after_close(Operation::Close))))
        } else {
            let handle = Handle { kind: ResourceKind::Dataset, id: self.dataset_id };
            Step::Next(DatasetClose { dataset: self }, Request::Close { handle })
        }
    }

    /// Gives up the dataset for what there is to release of it.
    pub fn into_release_handle(self) -> (handle: Option<Handle>)
        ensures
            handle == self.release_handle(),
    {
        if self.is_closed() {
            None
        } else {
            Some(Handle { kind: ResourceKind::Dataset, id: self.dataset_id })
        }
    }

    fn mark(self, state: DatasetState) -> (marked: H5Dataset)
        ensures
            marked == H5Dataset::in_state(self.native_id(), state),
    {
        H5Dataset { dataset_id: self.dataset_id, state }
    }
}

/// Opening a dataset: the reply to the open is awaited.
pub enum DatasetOpen {
    Pending,
}

impl Machine for DatasetOpen {
    type Output = Result<H5Dataset, SwmrError>;

    open spec fn on_reply(self, reply: Reply) -> Step<Self, Self::Output> {
        match checked(Operation::OpenDataset, reply.status()) {
            Ok(id) => Step::Done(Ok(H5Dataset::in_state(id, DatasetState::Opened))),
            Err(e) => Step::Done(Err(e)),
        }
    }

    fn advance(self, reply: Reply) -> (next: Step<Self, Self::Output>) {
        match check(Operation::OpenDataset, reply.code()) {
            Ok(id) => Step::Done(Ok(H5Dataset { dataset_id: id, state: DatasetState::Opened })),
            Err(e) => Step::Done(Err(e)),
        }
    }
}

/// Releasing a dataset: the reply to the close is awaited.
pub struct DatasetClose {
    pub dataset: H5Dataset,
}

impl Machine for DatasetClose {
    type Output = Outcome<()>;

    open spec fn on_reply(self, reply: Reply) -> Step<Self, Self::Output> {
        match checked(Operation::Close, reply.status()) {
            Ok(_) => Step::Done((self.dataset.released(), Ok(()))),
            Err(e) => Step::Done((self.dataset.released(), Err(e))),
        }
    }

    fn advance(self, reply: Reply) -> (next: Step<Self, Self::Output>) {
        let closed = self.dataset.mark(DatasetState::Closed);
        match check(Operation::Close, reply.code()) {
            Ok(_) => Step::Done((closed, Ok(()))),
            Err(e) => Step::Done((closed, Err(e))),
        }
    }
}

/// An extent query, step by step.
pub enum ExtentQuery {
    /// The dataset's file dataspace is awaited.
    Space { dataset: H5Dataset },
    /// The dimensions of the dataspace are awaited.
    Dims { dataset: H5Dataset, space: i64 },
    /// The dataspace is being released; `dims` is what the query gave.
    Release { dataset: H5Dataset, dims: Result<Vec<u64>, SwmrError> },
}

impl Machine for ExtentQuery {
    type Output = Outcome<Vec<u64>>;

    open spec fn on_reply(self, reply: Reply) -> Step<Self, Self::Output> {
        match self {
            ExtentQuery::Space { dataset } => match checked(Operation::GetSpace, reply.status()) {
                Ok(space) => Step::Next(ExtentQuery::Dims { dataset, space }, Request::QueryExtent { space }),
                Err(e) => Step::Done((dataset, Err(e))),
            },
            ExtentQuery::Dims { dataset, space } => Step::Next(
                ExtentQuery::Release { dataset, dims: reply.extent() },
                Request::Close { handle: Handle { kind: ResourceKind::Dataspace, id: space } },
            ),
            ExtentQuery::Release { dataset, dims } => match (dims, checked(Operation::Close, reply.status())) {
                (Ok(_), Err(e)) => Step::Done((dataset, Err(e))),
                _ => Step::Done((dataset, dims)),
            },
        }
    }

    fn advance(self, reply: Reply) -> (next: Step<Self, Self::Output>) {
        match self {
            ExtentQuery::Space { dataset } => match check(Operation::GetSpace, reply.code()) {
                Ok(space) => Step::Next(ExtentQuery::Dims { dataset, space }, Request::QueryExtent { space }),
                Err(e) => Step::Done((dataset, Err(e))),
            },
            ExtentQuery::Dims { dataset, space } => Step::Next(
                ExtentQuery::Release { dataset, dims: reply.into_extent() },
                Request::Close { handle: Handle { kind: ResourceKind::Dataspace, id: space } },
            ),
            ExtentQuery::Release { dataset, dims } => match (dims, check(Operation::Close, reply.code())) {
                (Ok(_), Err(e)) => Step::Done((dataset, Err(e))),
                (dims, _) => Step::Done((dataset, dims)),
            },
        }
    }
}

/// A refresh, step by step.
pub enum Refresh {
    /// The reply to the metadata refresh is awaited.
    Invalidate { dataset: H5Dataset },
    /// The extent is being queried.
    Measure { query: ExtentQuery },
}

impl Machine for Refresh {
    type Output = Outcome<Vec<u64>>;

    open spec fn on_reply(self, reply: Reply) -> Step<Self, Self::Output> {
        match self {
            Refresh::Invalidate { dataset } => match checked(Operation::Refresh, reply.status()) {
                Ok(_) => match dataset.measuring() {
                    Step::Next(query, request) => Step::Next(Refresh::Measure { query }, request),
                    Step::Done(end) => Step::Done(end),
                },
                Err(e) => Step::Done((dataset, Err(e))),
            },
            Refresh::Measure { query } => match query.on_reply(reply) {
                Step::Next(query, request) => Step::Next(Refresh::Measure { query }, request),
                Step::Done((dataset, Ok(dims))) => Step::Done((dataset.refreshed(), Ok(dims))),
                Step::Done((dataset, Err(e))) => Step::Done((dataset, Err(e))),
            },
        }
    }

    fn advance(self, reply: Reply) -> (next: Step<Self, Self::Output>) {
        match self {
            Refresh::Invalidate { dataset } => match check(Operation::Refresh, reply.code()) {
                Ok(_) => match dataset.ndims() {
                    Step::Next(query, request) => Step::Next(Refresh::Measure { query }, request),
                    Step::Done(end) => Step::Done(end),
                },
                Err(e) => Step::Done((dataset, Err(e))),
            },
            Refresh::Measure { query } => match query.advance(reply) {
                Step::Next(query, request) => Step::Next(Refresh::Measure { query }, request),
                Step::Done((dataset, Ok(dims))) => Step::Done((dataset.mark(DatasetState::Refreshed), Ok(dims))),
                Step::Done((dataset, Err(e))) => Step::Done((dataset, Err(e))),
            },
        }
    }
}

/// A read of all records, step by step.
pub enum ReadAll {
    /// The refresh that goes before the read is under way.
    Refreshing { refresh: Refresh },
    /// The records are awaited: `len` of them.
    Reading { dataset: H5Dataset, len: u64 },
}

impl Machine for ReadAll {
    type Output = Outcome<Vec<i64>>;

    open spec fn on_reply(self, reply: Reply) -> Step<Self, Self::Output> {
        match self {
            ReadAll::Refreshing { refresh } => match refresh.on_reply(reply) {
                Step::Next(refresh, request) => Step::Next(ReadAll::Refreshing { refresh }, request),
                Step::Done((dataset, Err(e))) => Step::Done((dataset, Err(e))),
                Step::Done((dataset, Ok(dims))) => match first_dimension(dims@) {
                    Ok(len) => Step::Next(
                        ReadAll::Reading { dataset, len },
                        Request::ReadAll { dataset: dataset.native_id(), len },
                    ),
                    Err(e) => Step::Done((dataset, Err(e))),
                },
            },
            ReadAll::Reading { dataset, len } => Step::Done((dataset, reply.records(Operation::ReadAll, len))),
        }
    }

    fn advance(self, reply: Reply) -> (next: Step<Self, Self::Output>) {
        match self {
            ReadAll::Refreshing { refresh } => match refresh.advance(reply) {
                Step::Next(refresh, request) => Step::Next(ReadAll::Refreshing { refresh }, request),
                Step::Done((dataset, Err(e))) => Step::Done((dataset, Err(e))),
                Step::Done((dataset, Ok(dims))) => match only_dimension(&dims) {
                    Ok(len) => {
                        let id: i64 = dataset.id();
                        Step::Next(ReadAll::Reading { dataset, len }, Request::ReadAll { dataset: id, len })
                    },
                    Err(e) => Step::Done((dataset, Err(e))),
                },
            },
            ReadAll::Reading { dataset, len } => Step::Done((dataset, reply.into_records(Operation::ReadAll, len))),
        }
    }
}

/// A read of the newest records, step by step.
pub enum TailRead {
    /// The refresh that goes before the read is under way.
    Refreshing { n: usize, refresh: Refresh },
    /// The two dataspaces of the window are being acquired.
    Opening { dataset: H5Dataset, window: Selection, open: SpaceOpen },
    /// The records of the window are awaited.
    Reading { dataset: H5Dataset, window: Selection, space: DataSpace },
    /// The two dataspaces are being released; `records` is what the read gave.
    Releasing { dataset: H5Dataset, records: Result<Vec<i64>, SwmrError>, release: Teardown },
}

/// What a read hands to the release of its dataspaces: its failure, if it failed.
pub open spec fn failure_of<T>(r: Result<T, SwmrError>) -> Option<SwmrError> {
    match r {
        Ok(_) => None,
        Err(e) => Some(e),
    }
}

impl Machine for TailRead {
    type Output = Outcome<Vec<i64>>;

    open spec fn on_reply(self, reply: Reply) -> Step<Self, Self::Output> {
        match self {
            TailRead::Refreshing { n, refresh } => match refresh.on_reply(reply) {
                Step::Next(refresh, request) => Step::Next(TailRead::Refreshing { n, refresh }, request),
                Step::Done((dataset, Err(e))) => Step::Done((dataset, Err(e))),
                Step::Done((dataset, Ok(dims))) => match first_dimension(dims@) {
                    Ok(extent) => Step::Next(
                        TailRead::Opening {
                            dataset,
                            window: tail_window(extent, n as u64),
                            open: SpaceOpen::FileSpace { size: tail_window(extent, n as u64).count },
                        },
                        Request::GetSpace { dataset: dataset.native_id() },
                    ),
                    Err(e) => Step::Done((dataset, Err(e))),
                },
            },
            TailRead::Opening { dataset, window, open } => match open.on_reply(reply) {
                Step::Next(open, request) => Step::Next(TailRead::Opening { dataset, window, open }, request),
                Step::Done(Err(e)) => Step::Done((dataset, Err(e))),
                Step::Done(Ok(space)) => Step::Next(
                    TailRead::Reading { dataset, window, space },
                    Request::ReadWindow {
                        dataset: dataset.native_id(),
                        mem_space: space.memory_space(),
                        file_space: space.file_space(),
                        start: window.start,
                        count: window.count,
                    },
                ),
            },
            TailRead::Reading { dataset, window, space } => Step::Next(
                TailRead::Releasing {
                    dataset,
                    records: reply.records(Operation::ReadWindow, window.count),
                    release: Teardown {
                        failure: failure_of(reply.records(Operation::ReadWindow, window.count)),
                        second: Some(space.handles().1),
                        third: None,
                        fourth: None,
                    },
                },
                Request::Close { handle: space.handles().0 },
            ),
            TailRead::Releasing { dataset, records, release } => match release.on_reply(reply) {
                Step::Next(release, request) => Step::Next(
                    TailRead::Releasing { dataset, records, release },
                    request,
                ),
                Step::Done(Ok(_)) => Step::Done((dataset, records)),
                Step::Done(Err(e)) => Step::Done((dataset, Err(e))),
            },
        }
    }

    fn advance(self, reply: Reply) -> (next: Step<Self, Self::Output>) {
        match self {
            TailRead::Refreshing { n, refresh } => match refresh.advance(reply) {
                Step::Next(refresh, request) => Step::Next(TailRead::Refreshing { n, refresh }, request),
                Step::Done((dataset, Err(e))) => Step::Done((dataset, Err(e))),
                Step::Done((dataset, Ok(dims))) => match only_dimension(&dims) {
                    Ok(extent) => {
                        let window = build_tail_window(extent, n as u64).0;
                        match DataSpace::new(dataset.id(), window.count as usize) {
                            Step::Next(open, request) => Step::Next(
                                TailRead::Opening { dataset, window, open },
                                request,
                            ),
                            Step::Done(_) => unreached(),
                        }
                    },
                    Err(e) => Step::Done((dataset, Err(e))),
                },
            },
            TailRead::Opening { dataset, window, open } => match open.advance(reply) {
                Step::Next(open, request) => Step::Next(TailRead::Opening { dataset, window, open }, request),
                Step::Done(Err(e)) => Step::Done((dataset, Err(e))),
                Step::Done(Ok(space)) => {
                    let request = Request::ReadWindow {
                        dataset: dataset.id(),
                        mem_space: space.memoryspace_id(),
                        file_space: space.dataspace_id(),
                        start: window.start,
                        count: window.count,
                    };
                    Step::Next(TailRead::Reading { dataset, window, space }, request)
                },
            },
            TailRead::Reading { dataset, window, space } => {
                let records = reply.into_records(Operation::ReadWindow, window.count);
                let failed = match &records {
                    Ok(_) => None,
                    Err(e) => Some(*e),
                };
                match space.release(failed) {
                    Step::Next(release, request) => Step::Next(
                        TailRead::Releasing { dataset, records, release },
                        request,
                    ),
                    Step::Done(_) => unreached(),
                }
            },
            TailRead::Releasing { dataset, records, release } => match release.advance(reply) {
                Step::Next(release, request) => Step::Next(
                    TailRead::Releasing { dataset, records, release },
                    request,
                ),
                Step::Done(Ok(_)) => Step::Done((dataset, records)),
                Step::Done(Err(e)) => Step::Done((dataset, Err(e))),
            },
        }
    }
}

} // verus!
