//! What the pipeline has to know of the tensors of an inference engine: the
//! kind of their elements, and how many elements a buffer holds.

use vstd::prelude::*;

verus! {

/// The element kinds that a tensor can be read as.
#[derive(Clone, Copy, Debug, PartialEq, Eq, Structural)]
pub enum TensorKind {
    /// No element type: the tensor has no typed contents.
    NoType,
    /// 32-bit binary fraction.
    Float32,
    /// 32-bit signed integer.
    Int32,
    /// 8-bit unsigned integer.
    UInt8,
    /// 64-bit signed integer.
    Int64,
    /// 16-bit signed integer.
    Int16,
    /// 8-bit signed integer.
    Int8,
    /// 64-bit binary fraction.
    Float64,
}

/// An element type code of the engine that has no kind here: strings,
/// booleans, half-width fractions, complex numbers, and unknown codes.
#[derive(Clone, Copy, Debug, PartialEq, Eq, Structural)]
pub struct UnsupportedTensorType {
    pub code: i32,
}

/// Why a tensor cannot be read as a buffer of some kind.
#[derive(Clone, Copy, Debug, PartialEq, Eq, Structural)]
pub enum TensorError {
    /// The tensor holds elements of another kind than the one asked for.
    TypeMismatch { expected: TensorKind, found: TensorKind },
    /// The tensor has no element type, so it has no elements to count.
    Untyped,
}

/// The kind that the engine's type code stands for, if it has one.
pub open spec fn kind_of_code(code: i32) -> Option<TensorKind> {
    if code == 0 {
        Some(TensorKind::NoType)
    } else if code == 1 {
        Some(TensorKind::Float32)
    } else if code == 2 {
        Some(TensorKind::Int32)
    } else if code == 3 {
        Some(TensorKind::UInt8)
    } else if code == 4 {
        Some(TensorKind::Int64)
    } else if code == 7 {
        Some(TensorKind::Int16)
    } else if code == 9 {
        Some(TensorKind::Int8)
    } else if code == 11 {
        Some(TensorKind::Float64)
    } else {
        None
    }
}

/// Bytes that one element of a kind takes.
pub open spec fn bytes_per_element(kind: TensorKind) -> nat {
    match kind {
        TensorKind::NoType => 0,
        TensorKind::Float32 => 4,
        TensorKind::Int32 => 4,
        TensorKind::UInt8 => 1,
        TensorKind::Int64 => 8,
        TensorKind::Int16 => 2,
        TensorKind::Int8 => 1,
        TensorKind::Float64 => 8,
    }
}

/// Tells the element kind from the engine's type code.
pub fn tensor_type_id(code: i32) -> (kind: Result<TensorKind, UnsupportedTensorType>)
    ensures
        match kind_of_code(code) {
            Some(k) => kind == Ok::<TensorKind, UnsupportedTensorType>(k),
            None => kind == Err::<TensorKind, UnsupportedTensorType>(
                UnsupportedTensorType { code },
            ),
        },
{
    match code {
        0 => Ok(TensorKind::NoType),
        1 => Ok(TensorKind::Float32),
        2 => Ok(TensorKind::Int32),
        3 => Ok(TensorKind::UInt8),
        4 => Ok(TensorKind::Int64),
        7 => Ok(TensorKind::Int16),
        9 => Ok(TensorKind::Int8),
        11 => Ok(TensorKind::Float64),
        _ => Err(UnsupportedTensorType { code }),
    }
}

impl TensorKind {
    /// Bytes that one element of this kind takes.
    pub fn element_size(self) -> (size: usize)
        ensures
            size == bytes_per_element(self),
    {
        match self {
            TensorKind::NoType => 0,
            TensorKind::Float32 => 4,
            TensorKind::Int32 => 4,
            TensorKind::UInt8 => 1,
            TensorKind::Int64 => 8,
            TensorKind::Int16 => 2,
            TensorKind::Int8 => 1,
            TensorKind::Float64 => 8,
        }
    }
}

/// What the engine tells of one tensor: the kind of its elements, its shape
/// and the size of its buffer in bytes.
pub struct TensorRef {
    pub kind: TensorKind,
    pub dims: Vec<usize>,
    pub n_bytes: usize,
}

/// How many elements of kind `expected` a tensor of kind `found` with
/// `n_bytes` bytes hands out.
pub open spec fn typed_len(found: TensorKind, n_bytes: usize, expected: TensorKind) -> Result<
    usize,
    TensorError,
> {
    if found != expected {
        Err(TensorError::TypeMismatch { expected, found })
    } else if found == TensorKind::NoType {
        Err(TensorError::Untyped)
    } else {
        Ok((n_bytes as nat / bytes_per_element(found)) as usize)
    }
}

impl TensorRef {
    /// The number of elements that the buffer holds when it is read as
    /// elements of kind `expected`: the whole elements that fit its bytes. A
    /// tensor of another kind is not read as `expected`.
    pub fn data(&self, expected: TensorKind) -> (len: Result<usize, TensorError>)
        ensures
            len == typed_len(self.kind, self.n_bytes, expected),
    {
        if self.kind != expected {
            return Err(TensorError::TypeMismatch { expected, found: self.kind });
        }
        let size = self.kind.element_size();
        if size == 0 {
            return Err(TensorError::Untyped);
        }
        Ok(self.n_bytes / size)
    }
}

/// What the engine tells of one tensor that the caller fills.
pub struct TensorRefMut {
    pub kind: TensorKind,
    pub dims: Vec<usize>,
    pub n_bytes: usize,
}

impl TensorRefMut {
    /// The number of elements that the buffer takes when it is filled with
    /// elements of kind `expected`. A tensor of another kind is not filled
    /// with them.
    pub fn data_mut(&self, expected: TensorKind) -> (len: Result<usize, TensorError>)
        ensures
            len == typed_len(self.kind, self.n_bytes, expected),
    {
        if self.kind != expected {
            return Err(TensorError::TypeMismatch { expected, found: self.kind });
        }
        let size = self.kind.element_size();
        if size == 0 {
            return Err(TensorError::Untyped);
        }
        Ok(self.n_bytes / size)
    }
}

} // verus!
