//! The requests a driver performs for the library, and its replies.
//!
//! An operation never calls the storage layer. It hands out a [`Request`],
//! waits for the [`Reply`], and decides what comes next: another request, or
//! the outcome. The driver owns the container; the library owns the order of
//! the calls, what each is made with, and what each failure means.

use vstd::prelude::*;
use crate::error::{Operation, SwmrError, failure};

verus! {

/// The kinds of native resource a handle can own.
#[derive(Clone, Copy, Debug, PartialEq, Eq, Structural)]
pub enum ResourceKind {
    File,
    Dataset,
    Dataspace,
    Datatype,
    PropertyList,
}

/// A native resource to release: its kind and its identifier.
#[derive(Clone, Copy, Debug, PartialEq, Eq, Structural)]
pub struct Handle {
    pub kind: ResourceKind,
    pub id: i64,
}

/// The handle of a dataspace.
pub open spec fn space_handle(id: i64) -> Handle {
    Handle { kind: ResourceKind::Dataspace, id }
}

/// The handle of a property list.
pub open spec fn list_handle(id: i64) -> Handle {
    Handle { kind: ResourceKind::PropertyList, id }
}

/// The handle of a file.
pub open spec fn file_handle(id: i64) -> Handle {
    Handle { kind: ResourceKind::File, id }
}

/// The handle of a dataset.
pub open spec fn dataset_handle(id: i64) -> Handle {
    Handle { kind: ResourceKind::Dataset, id }
}

/// The class of a stored element type.
#[derive(Clone, Copy, Debug, PartialEq, Eq, Structural)]
pub enum TypeClass {
    Integer,
    Float,
    Other,
}

/// Whether a stored integer type has a sign.
#[derive(Clone, Copy, Debug, PartialEq, Eq, Structural)]
pub enum Sign {
    Unsigned,
    Signed,
    NotApplicable,
}

/// One call for the driver to perform. Identifiers are those of earlier
/// replies; the driver adds nothing of its own.
pub enum Request {
    /// Create a file-access property list; the reply is its identifier.
    CreateAccessList,
    /// Pin both library-version bounds of an access list to the latest format.
    PinLatestFormat { plist: i64 },
    /// Open an existing container read-only for SWMR reading.
    OpenFile { path: String, access_plist: i64 },
    /// Open a dataset of a file by name.
    OpenDataset { file: i64, name: String },
    /// Get a fresh copy of a dataset's file dataspace.
    GetSpace { dataset: i64 },
    /// Report the size of each dimension of a dataspace.
    QueryExtent { space: i64 },
    /// Create a one-dimensional dataspace of `len` elements, unlimited if `growable`.
    CreateSpace { len: u64, growable: bool },
    /// Drop the dataset's cached metadata so that the next calls see what the writer flushed.
    Refresh { dataset: i64 },
    /// Read the whole dataset: `len` records, in order.
    ReadAll { dataset: i64, len: u64 },
    /// Select `[start, start + count)` in the file dataspace and read it through
    /// the memory dataspace: `count` records, in order.
    ReadWindow { dataset: i64, mem_space: i64, file_space: i64, start: u64, count: u64 },
    /// Get the element type of a dataset; the reply is its identifier.
    GetType { dataset: i64 },
    /// Report class, size in bytes and signedness of an element type.
    Describe { datatype: i64 },
    /// Release a handle. A failed release is also the driver's to log.
    Close { handle: Handle },
    /// Create the container, replacing whatever is at the path, for SWMR writing.
    CreateFile { path: String },
    /// Create a dataset-creation property list; the reply is its identifier.
    CreateLayoutList,
    /// Set the records per chunk on a dataset-creation property list.
    SetChunk { plist: i64, records: u64 },
    /// Create a dataset of 64-bit signed integers with the given dataspace and layout.
    CreateDataset { file: i64, name: String, space: i64, layout: i64 },
    /// Set the dataset's extent along its first dimension.
    Extend { dataset: i64, len: u64 },
    /// Select the single slot at `start` in the file dataspace and write `value` to it.
    WriteSlot { dataset: i64, mem_space: i64, file_space: i64, start: u64, value: i64 },
    /// Flush the dataset's buffers.
    FlushDataset { dataset: i64 },
    /// Flush the whole container, making everything written visible to readers.
    FlushFile { file: i64 },
    /// Show one round of a polling reader: the newest records and all of them.
    Report { newest: Vec<i64>, all: Vec<i64> },
    /// Wait before the next round.
    Pause { millis: u64 },
}

/// What the driver hands back for a request.
pub enum Reply {
    /// A status, or the identifier of what was acquired: negative on failure.
    Code(i64),
    /// A status and the size of each dimension.
    Extent { status: i64, dims: Vec<u64> },
    /// A status and the records read.
    Records { status: i64, data: Vec<i64> },
    /// A status and the description of an element type.
    TypeInfo { status: i64, class: TypeClass, size: u64, sign: Sign },
}

/// What a state machine gives after each reply: the next request with the
/// state that waits for its reply, or the operation's outcome.
pub enum Step<M, T> {
    Next(M, Request),
    Done(T),
}

impl Request {
    /// The operation that this request asks for.
    pub open spec fn operation(self) -> Operation {
        match self {
            Request::CreateAccessList => Operation::CreateAccessList,
            Request::PinLatestFormat { .. } => Operation::PinLatestFormat,
            Request::OpenFile { .. } => Operation::OpenFile,
            Request::OpenDataset { .. } => Operation::OpenDataset,
            Request::GetSpace { .. } => Operation::GetSpace,
            Request::QueryExtent { .. } => Operation::QueryExtent,
            Request::CreateSpace { .. } => Operation::CreateSpace,
            Request::Refresh { .. } => Operation::Refresh,
            Request::ReadAll { .. } => Operation::ReadAll,
            Request::ReadWindow { .. } => Operation::ReadWindow,
            Request::GetType { .. } => Operation::GetType,
            Request::Describe { .. } => Operation::Describe,
            Request::Close { .. } => Operation::Close,
            Request::CreateFile { .. } => Operation::CreateFile,
            Request::CreateLayoutList => Operation::CreateLayoutList,
            Request::SetChunk { .. } => Operation::SetChunk,
            Request::CreateDataset { .. } => Operation::CreateDataset,
            Request::Extend { .. } => Operation::Extend,
            Request::WriteSlot { .. } => Operation::WriteSlot,
            Request::FlushDataset { .. } => Operation::FlushDataset,
            Request::FlushFile { .. } => Operation::FlushFile,
            Request::Report { .. } => Operation::Report,
            Request::Pause { .. } => Operation::Pause,
        }
    }

    /// The operation that this request asks for.
    pub fn op(&self) -> (op: Operation)
        ensures
            op == self.operation(),
    {
        match self {
            Request::CreateAccessList => Operation::CreateAccessList,
            Request::PinLatestFormat { .. } => Operation::PinLatestFormat,
            Request::OpenFile { .. } => Operation::OpenFile,
            Request::OpenDataset { .. } => Operation::OpenDataset,
            Request::GetSpace { .. } => Operation::GetSpace,
            Request::QueryExtent { .. } => Operation::QueryExtent,
            Request::CreateSpace { .. } => Operation::CreateSpace,
            Request::Refresh { .. } => Operation::Refresh,
            Request::ReadAll { .. } => Operation::ReadAll,
            Request::ReadWindow { .. } => Operation::ReadWindow,
            Request::GetType { .. } => Operation::GetType,
            Request::Describe { .. } => Operation::Describe,
            Request::Close { .. } => Operation::Close,
            Request::CreateFile { .. } => Operation::CreateFile,
            Request::CreateLayoutList => Operation::CreateLayoutList,
            Request::SetChunk { .. } => Operation::SetChunk,
            Request::CreateDataset { .. } => Operation::CreateDataset,
            Request::Extend { .. } => Operation::Extend,
            Request::WriteSlot { .. } => Operation::WriteSlot,
            Request::FlushDataset { .. } => Operation::FlushDataset,
            Request::FlushFile { .. } => Operation::FlushFile,
            Request::Report { .. } => Operation::Report,
            Request::Pause { .. } => Operation::Pause,
        }
    }
}

impl Reply {
    /// The status that the reply carries.
    pub open spec fn status(self) -> i64 {
        match self {
            Reply::Code(c) => c,
            Reply::Extent { status, .. } => status,
            Reply::Records { status, .. } => status,
            Reply::TypeInfo { status, .. } => status,
        }
    }

    /// The dimensions that a reply to an extent query stands for: those of a
    /// successful extent reply, and a failed query for anything else.
    pub open spec fn extent(self) -> Result<Vec<u64>, SwmrError> {
        match self {
            Reply::Extent { status, dims } => if status < 0 {
                Err(failure(Operation::QueryExtent, status))
            } else {
                Ok(dims)
            },
            _ => Err(failure(Operation::QueryExtent, self.status())),
        }
    }

    /// The records that a reply to the read `op` of `len` records stands for:
    /// those of a successful reply of exactly that length, and a failed read
    /// for anything else.
    pub open spec fn records(self, op: Operation, len: u64) -> Result<Vec<i64>, SwmrError> {
        match self {
            Reply::Records { status, data } => if status < 0 || data@.len() != len {
                Err(failure(op, status))
            } else {
                Ok(data)
            },
            _ => Err(failure(op, self.status())),
        }
    }

    /// The status that the reply carries.
    pub fn code(&self) -> (c: i64)
        ensures
            c == self.status(),
    {
        match self {
            Reply::Code(c) => *c,
            Reply::Extent { status, .. } => *status,
            Reply::Records { status, .. } => *status,
            Reply::TypeInfo { status, .. } => *status,
        }
    }

    /// Takes the dimensions out of a reply to an extent query.
    pub fn into_extent(self) -> (r: Result<Vec<u64>, SwmrError>)
        ensures
            r == self.extent(),
    {
        match self {
            Reply::Extent { status, dims } => if status < 0 {
                Err(SwmrError::native(Operation::QueryExtent, status))
            } else {
                Ok(dims)
            },
            other => Err(SwmrError::native(Operation::QueryExtent, other.code())),
        }
    }

    /// Takes the records out of a reply to the read `op` of `len` records.
    pub fn into_records(self, op: Operation, len: u64) -> (r: Result<Vec<i64>, SwmrError>)
        ensures
            r == self.records(op, len),
    {
        match self {
            Reply::Records { status, data } => {
                let got: usize = data.len();
                if status < 0 || got as u64 != len {
                    Err(SwmrError::native(op, status))
                } else {
                    Ok(data)
                }
            },
            other => Err(SwmrError::native(op, other.code())),
        }
    }
}

/// An operation in progress: a state that waits for the reply to the request
/// it was handed out with.
pub trait Machine: Sized {
    /// What the operation ends with.
    type Output;

    /// The transition: what follows from this state on `reply`.
    spec fn on_reply(self, reply: Reply) -> Step<Self, Self::Output>;

    /// Takes the reply to the pending request and gives the next step.
    fn advance(self, reply: Reply) -> (next: Step<Self, Self::Output>)
        ensures
            next == self.on_reply(reply),
    ;
}

/// Where an operation stands after the driver has answered with `replies`, in
/// order, starting from `step`. Replies beyond the operation's end are not
/// looked at.
pub open spec fn run<M: Machine>(step: Step<M, M::Output>, replies: Seq<Reply>) -> Step<
    M,
    M::Output,
>
    decreases replies.len(),
{
    if replies.len() == 0 {
        step
    } else {
        match step {
            Step::Next(m, _) => run(m.on_reply(replies[0]), replies.drop_first()),
            Step::Done(_) => step,
        }
    }
}

/// The requests handed out while the driver answers with `replies`, starting
/// from `step`: the pending one first.
pub open spec fn asked<M: Machine>(step: Step<M, M::Output>, replies: Seq<Reply>) -> Seq<Request>
    decreases replies.len(),
{
    match step {
        Step::Done(_) => Seq::empty(),
        Step::Next(m, req) => if replies.len() == 0 {
            seq![req]
        } else {
            seq![req] + asked(m.on_reply(replies[0]), replies.drop_first())
        },
    }
}

/// Whether every end that a run can come to is a good one: from `step` on,
/// with the driver answering with `replies`, an operation that ends does so
/// with an outcome that `good` holds of.
pub open spec fn ends_with<M: Machine>(
    step: Step<M, M::Output>,
    replies: Seq<Reply>,
    good: spec_fn(M::Output) -> bool,
) -> bool
    decreases replies.len(),
{
    match step {
        Step::Done(end) => good(end),
        Step::Next(m, _) => replies.len() > 0 ==> ends_with(m.on_reply(replies[0]), replies.drop_first(), good),
    }
}

} // verus!
