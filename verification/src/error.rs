//! The typed errors that every failed native call is mapped to.

use vstd::prelude::*;

verus! {

/// What went wrong, by the phase of the protocol it belongs to.
#[derive(Clone, Copy, Debug, PartialEq, Eq, Structural)]
pub enum ErrorKind {
    OpenFailed,
    CreateFailed,
    ExtendFailed,
    WriteFailed,
    ReadFailed,
    FlushFailed,
    RefreshFailed,
    CloseFailed,
    UseAfterClose,
}

/// The operations the protocol is made of: the native calls, and the two
/// things a polling reader asks of its driver besides.
#[derive(Clone, Copy, Debug, PartialEq, Eq, Structural)]
pub enum Operation {
    CreateAccessList,
    PinLatestFormat,
    OpenFile,
    OpenDataset,
    GetSpace,
    QueryExtent,
    CreateSpace,
    Refresh,
    ReadAll,
    ReadWindow,
    GetType,
    Describe,
    Close,
    CreateFile,
    CreateLayoutList,
    SetChunk,
    CreateDataset,
    Extend,
    WriteSlot,
    FlushDataset,
    FlushFile,
    Report,
    Pause,
}

/// A failed operation with the status the native layer gave for it.
#[derive(Clone, Copy, Debug, PartialEq, Eq, Structural)]
pub struct SwmrError {
    pub kind: ErrorKind,
    pub op: Operation,
    pub status: i64,
}

/// The kind of error that a failure of `op` is reported as. Showing records
/// and waiting are the driver's own and are not looked at for failure; they
/// are counted with the reads.
pub open spec fn kind_of(op: Operation) -> ErrorKind {
    match op {
        Operation::OpenFile | Operation::OpenDataset | Operation::GetSpace | Operation::GetType =>
            ErrorKind::OpenFailed,
        Operation::CreateAccessList
        | Operation::PinLatestFormat
        | Operation::CreateSpace
        | Operation::CreateFile
        | Operation::CreateLayoutList
        | Operation::SetChunk
        | Operation::CreateDataset => ErrorKind::CreateFailed,
        Operation::Extend => ErrorKind::ExtendFailed,
        Operation::WriteSlot => ErrorKind::WriteFailed,
        Operation::QueryExtent
        | Operation::ReadAll
        | Operation::ReadWindow
        | Operation::Describe
        | Operation::Report
        | Operation::Pause => ErrorKind::ReadFailed,
        Operation::FlushDataset | Operation::FlushFile => ErrorKind::FlushFailed,
        Operation::Refresh => ErrorKind::RefreshFailed,
        Operation::Close => ErrorKind::CloseFailed,
    }
}

/// The error for a failure of `op` with native status `status`.
pub open spec fn failure(op: Operation, status: i64) -> SwmrError {
    SwmrError { kind: kind_of(op), op, status }
}

/// The error for an operation attempted on a handle that was already released.
pub open spec fn stale(op: Operation) -> SwmrError {
    SwmrError { kind: ErrorKind::UseAfterClose, op, status: 0 }
}

/// A native status or identifier is a failure exactly when it is negative.
pub open spec fn checked(op: Operation, code: i64) -> Result<i64, SwmrError> {
    if code < 0 {
        Err(failure(op, code))
    } else {
        Ok(code)
    }
}

impl Operation {
    /// The kind of error that a failure of this operation is reported as.
    pub fn error_kind(self) -> (kind: ErrorKind)
        ensures
            kind == kind_of(self),
    {
        match self {
            Operation::OpenFile | Operation::OpenDataset | Operation::GetSpace | Operation::GetType =>
                ErrorKind::OpenFailed,
            Operation::Extend => ErrorKind::ExtendFailed,
            Operation::WriteSlot => ErrorKind::WriteFailed,
            Operation::FlushDataset | Operation::FlushFile => ErrorKind::FlushFailed,
            Operation::Refresh => ErrorKind::RefreshFailed,
            Operation::Close => ErrorKind::CloseFailed,
            Operation::QueryExtent
            | Operation::ReadAll
            | Operation::ReadWindow
            | Operation::Describe
            | Operation::Report
            | Operation::Pause => ErrorKind::ReadFailed,
            _ => ErrorKind::CreateFailed,
        }
    }
}

impl SwmrError {
    /// The error for a failure of `op` with native status `status`.
    pub fn native(op: Operation, status: i64) -> (e: SwmrError)
        ensures
            e == failure(op, status),
    {
        SwmrError { kind: op.error_kind(), op, status }
    }

    /// The error for `op` attempted on a released handle.
    pub fn use_after_close(op: Operation) -> (e: SwmrError)
        ensures
            e == stale(op),
    {
        SwmrError { kind: ErrorKind::UseAfterClose, op, status: 0 }
    }
}

/// Maps what a native call returned to a typed result: a negative status or
/// identifier is the failure of `op`, anything else is handed through.
pub fn check(op: Operation, code: i64) -> (r: Result<i64, SwmrError>)
    ensures
        r == checked(op, code),
{
    if code < 0 {
        Err(SwmrError::native(op, code))
    } else {
        Ok(code)
    }
}

} // verus!
