//! The element type of a dataset, and the closed set of element kinds that
//! the consumers of a buffer can work with.

use vstd::prelude::*;
use crate::error::{Operation, SwmrError, check, checked, failure};
use crate::protocol::{Handle, Machine, Reply, Request, ResourceKind, Sign, Step, TypeClass};
use crate::release::{Teardown, release_all};

verus! {

/// The element type of a dataset: the native handle, and what the type was
/// found to be when the handle was acquired.
pub struct H5Datatype {
    type_id: i64,
    class: TypeClass,
    size: u64,
    sign: Sign,
}

impl Reply {
    /// The description that a reply to a type query stands for: that of a
    /// successful type reply, and a failed query for anything else.
    pub open spec fn description(self) -> Result<(TypeClass, u64, Sign), SwmrError> {
        match self {
            Reply::TypeInfo { status, class, size, sign } => if status < 0 {
                Err(failure(Operation::Describe, status))
            } else {
                Ok((class, size, sign))
            },
            _ => Err(failure(Operation::Describe, self.status())),
        }
    }

    /// Takes the description out of a reply to a type query.
    pub fn into_description(self) -> (r: Result<(TypeClass, u64, Sign), SwmrError>)
        ensures
            r == self.description(),
    {
        match self {
            Reply::TypeInfo { status, class, size, sign } => if status < 0 {
                Err(SwmrError::native(Operation::Describe, status))
            } else {
                Ok((class, size, sign))
            },
            other => Err(SwmrError::native(Operation::Describe, other.code())),
        }
    }
}

impl H5Datatype {
    /// The native identifier.
    pub closed spec fn native_id(self) -> i64 {
        self.type_id
    }

    /// The class of the type.
    pub closed spec fn type_class(self) -> TypeClass {
        self.class
    }

    /// The size of one element, in bytes.
    pub closed spec fn byte_size(self) -> u64 {
        self.size
    }

    /// Whether the type has a sign.
    pub closed spec fn signedness(self) -> Sign {
        self.sign
    }

    /// The type `id`, described.
    pub closed spec fn of(id: i64, class: TypeClass, size: u64, sign: Sign) -> H5Datatype {
        H5Datatype { type_id: id, class, size, sign }
    }

    /// A type is what it was made of.
    pub broadcast proof fn of_holds(id: i64, class: TypeClass, size: u64, sign: Sign)
        ensures
            (#[trigger] H5Datatype::of(id, class, size, sign)).native_id() == id,
            H5Datatype::of(id, class, size, sign).type_class() == class,
            H5Datatype::of(id, class, size, sign).byte_size() == size,
            H5Datatype::of(id, class, size, sign).signedness() == sign,
    {
    }

    /// The release handle of the type.
    pub open spec fn handle(self) -> Handle {
        Handle { kind: ResourceKind::Datatype, id: self.native_id() }
    }

    /// The first step of getting the element type of the dataset `dataset_id`.
    pub open spec fn opening(dataset_id: i64) -> Step<TypeOpen, Result<H5Datatype, SwmrError>> {
        Step::Next(TypeOpen::Type, Request::GetType { dataset: dataset_id })
    }

    /// Starts getting the element type of the dataset `dataset_id`: the type
    /// is acquired, then described. If it cannot be described it is released
    /// again.
    pub fn new(dataset_id: i64) -> (step: Step<TypeOpen, Result<H5Datatype, SwmrError>>)
        ensures
            step == H5Datatype::opening(dataset_id),
    {
        Step::Next(TypeOpen::Type, Request::GetType { dataset: dataset_id })
    }

    /// The native identifier, to pass to a call.
    pub fn id(&self) -> (id: i64)
        ensures
            id == self.native_id(),
    {
        self.type_id
    }

    /// The class of the type.
    pub fn class(&self) -> (class: TypeClass)
        ensures
            class == self.type_class(),
    {
        self.class
    }

    /// The size of one element, in bytes.
    pub fn size(&self) -> (size: u64)
        ensures
            size == self.byte_size(),
    {
        self.size
    }

    /// Whether the type has a sign.
    pub fn sign(&self) -> (sign: Sign)
        ensures
            sign == self.signedness(),
    {
        self.sign
    }

    /// Starts the release of the type.
    pub fn release(self) -> (step: Step<Teardown, Result<(), SwmrError>>)
        ensures
            step == release_all(None, Some(self.handle()), None, None, None),
    {
        Teardown::single(Handle { kind: ResourceKind::Datatype, id: self.type_id })
    }
}

/// Getting an element type, step by step.
pub enum TypeOpen {
    /// The type is awaited.
    Type,
    /// The description of the type is awaited.
    Description { datatype: i64 },
    /// The type could not be described: it is being released.
    Undo { error: SwmrError },
}

impl Machine for TypeOpen {
    type Output = Result<H5Datatype, SwmrError>;

    open spec fn on_reply(self, reply: Reply) -> Step<Self, Self::Output> {
        match self {
            TypeOpen::Type => match checked(Operation::GetType, reply.status()) {
                Ok(datatype) => Step::Next(TypeOpen::Description { datatype }, Request::Describe { datatype }),
                Err(e) => Step::Done(Err(e)),
            },
            TypeOpen::Description { datatype } => match reply.description() {
                Ok((class, size, sign)) => Step::Done(Ok(H5Datatype::of(datatype, class, size, sign))),
                Err(e) => Step::Next(
                    TypeOpen::Undo { error: e },
                    Request::Close { handle: Handle { kind: ResourceKind::Datatype, id: datatype } },
                ),
            },
            TypeOpen::Undo { error } => Step::Done(Err(error)),
        }
    }

    fn advance(self, reply: Reply) -> (next: Step<Self, Self::Output>) {
        match self {
            TypeOpen::Type => match check(Operation::GetType, reply.code()) {
                Ok(datatype) => Step::Next(TypeOpen::Description { datatype }, Request::Describe { datatype }),
                Err(e) => Step::Done(Err(e)),
            },
            TypeOpen::Description { datatype } => match reply.into_description() {
                Ok((class, size, sign)) => Step::Done(Ok(H5Datatype { type_id: datatype, class, size, sign })),
                Err(e) => Step::Next(
                    TypeOpen::Undo { error: e },
                    Request::Close { handle: Handle { kind: ResourceKind::Datatype, id: datatype } },
                ),
            },
            TypeOpen::Undo { error } => Step::Done(Err(error)),
        }
    }
}

/// Which of the native element types a stored type equals, as the storage
/// layer answers for each.
#[derive(Clone, Copy, Debug, PartialEq, Eq, Structural)]
pub struct TypeMatches {
    pub is_i32: bool,
    pub is_i64: bool,
    pub is_usize: bool,
    pub is_u32: bool,
    pub is_u64: bool,
    pub is_f32: bool,
    pub is_f64: bool,
    /// The size of `usize` where the answers were given, in bytes.
    pub pointer_bytes: usize,
}

/// The element kinds that a buffer can be read as.
#[derive(Clone, Copy, Debug, PartialEq, Eq, Structural)]
pub enum NativePrimitiveType {
    Integer32b,
    Integer64b,
    UnsignedInteger32b,
    UnsignedInteger64b,
    Float32b,
    Float64b,
    Pointer(usize),
}

/// The families of element kinds.
#[derive(Clone, Copy, Debug, PartialEq, Eq, Structural)]
pub enum Family {
    Integer,
    UnsignedInteger,
    Float,
    Pointer,
}

/// The element kind of a stored type: that of the first native type it
/// equals, asked in the order `i32`, `i64`, `usize`, `u32`, `u64`, `f32`,
/// `f64`; none if it equals none of them.
pub open spec fn kind_of_type(m: TypeMatches) -> Option<NativePrimitiveType> {
    if m.is_i32 {
        Some(NativePrimitiveType::Integer32b)
    } else if m.is_i64 {
        Some(NativePrimitiveType::Integer64b)
    } else if m.is_usize {
        Some(NativePrimitiveType::Pointer(m.pointer_bytes))
    } else if m.is_u32 {
        Some(NativePrimitiveType::UnsignedInteger32b)
    } else if m.is_u64 {
        Some(NativePrimitiveType::UnsignedInteger64b)
    } else if m.is_f32 {
        Some(NativePrimitiveType::Float32b)
    } else if m.is_f64 {
        Some(NativePrimitiveType::Float64b)
    } else {
        None
    }
}

impl NativePrimitiveType {
    /// The width of one element, in bits.
    pub open spec fn bits(self) -> int {
        match self {
            NativePrimitiveType::Integer32b
            | NativePrimitiveType::UnsignedInteger32b
            | NativePrimitiveType::Float32b => 32,
            NativePrimitiveType::Integer64b
            | NativePrimitiveType::UnsignedInteger64b
            | NativePrimitiveType::Float64b => 64,
            NativePrimitiveType::Pointer(bytes) => bytes * 8,
        }
    }

    /// The family of the kind.
    pub open spec fn family_of(self) -> Family {
        match self {
            NativePrimitiveType::Integer32b | NativePrimitiveType::Integer64b => Family::Integer,
            NativePrimitiveType::UnsignedInteger32b | NativePrimitiveType::UnsignedInteger64b =>
                Family::UnsignedInteger,
            NativePrimitiveType::Float32b | NativePrimitiveType::Float64b => Family::Float,
            NativePrimitiveType::Pointer(_) => Family::Pointer,
        }
    }

    /// Resolves the element kind of a stored type from what the storage
    /// layer answered about it. A type that equals none of the native types
    /// is not supported, and has no kind.
    pub fn from_dtype(dtype: &TypeMatches) -> (kind: Option<NativePrimitiveType>)
        ensures
            kind == kind_of_type(*dtype),
    {
        if dtype.is_i32 {
            Some(NativePrimitiveType::Integer32b)
        } else if dtype.is_i64 {
            Some(NativePrimitiveType::Integer64b)
        } else if dtype.is_usize {
            Some(NativePrimitiveType::Pointer(dtype.pointer_bytes))
        } else if dtype.is_u32 {
            Some(NativePrimitiveType::UnsignedInteger32b)
        } else if dtype.is_u64 {
            Some(NativePrimitiveType::UnsignedInteger64b)
        } else if dtype.is_f32 {
            Some(NativePrimitiveType::Float32b)
        } else if dtype.is_f64 {
            Some(NativePrimitiveType::Float64b)
        } else {
            None
        }
    }

    /// The width of one element, in bits.
    pub fn width_bits(&self) -> (bits: u128)
        ensures
            bits == self.bits(),
    {
        match self {
            NativePrimitiveType::Integer32b
            | NativePrimitiveType::UnsignedInteger32b
            | NativePrimitiveType::Float32b => 32,
            NativePrimitiveType::Integer64b
            | NativePrimitiveType::UnsignedInteger64b
            | NativePrimitiveType::Float64b => 64,
            NativePrimitiveType::Pointer(bytes) => {
                let wide: u128 = *bytes as u128;
                wide * 8
            },
        }
    }

    /// The family of the kind.
    pub fn family(&self) -> (family: Family)
        ensures
            family == self.family_of(),
    {
        match self {
            NativePrimitiveType::Integer32b | NativePrimitiveType::Integer64b => Family::Integer,
            NativePrimitiveType::UnsignedInteger32b | NativePrimitiveType::UnsignedInteger64b =>
                Family::UnsignedInteger,
            NativePrimitiveType::Float32b | NativePrimitiveType::Float64b => Family::Float,
            NativePrimitiveType::Pointer(_) => Family::Pointer,
        }
    }
}

impl Family {
    /// The words for the family, as they stand after the width in a
    /// description such as "64-bit unsigned integer".
    pub fn words(&self) -> (words: &'static str)
        ensures
            words@ == match *self {
                Family::Integer => "integer"@,
                Family::UnsignedInteger => "unsigned integer"@,
                Family::Float => "float"@,
                Family::Pointer => "pointer"@,
            },
    {
        match self {
            Family::Integer => "integer",
            Family::UnsignedInteger => "unsigned integer",
            Family::Float => "float",
            Family::Pointer => "pointer",
        }
    }
}

} // verus!
