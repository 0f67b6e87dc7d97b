use vstd::prelude::*;

verus! {

/// Element type of a tensor, as the engine encodes it.
#[derive(Clone, Copy, Debug, PartialEq, Eq, Structural)]
pub enum TensorElementDataType {
    /// 32-bit floating point
    Float,
    /// Unsigned 8-bit integer
    Uint8,
    /// Signed 8-bit integer
    Int8,
    /// Unsigned 16-bit integer
    Uint16,
    /// Signed 16-bit integer
    Int16,
    /// Signed 32-bit integer
    Int32,
    /// Signed 64-bit integer
    Int64,
    /// String
    String,
    /// 64-bit floating point
    Double,
    /// Unsigned 32-bit integer
    Uint32,
    /// Unsigned 64-bit integer
    Uint64,
}

/// The engine's numeric code of each supported element type.
pub open spec fn element_type_code(t: TensorElementDataType) -> u32 {
    match t {
        TensorElementDataType::Float => 1,
        TensorElementDataType::Uint8 => 2,
        TensorElementDataType::Int8 => 3,
        TensorElementDataType::Uint16 => 4,
        TensorElementDataType::Int16 => 5,
        TensorElementDataType::Int32 => 6,
        TensorElementDataType::Int64 => 7,
        TensorElementDataType::String => 8,
        TensorElementDataType::Double => 11,
        TensorElementDataType::Uint32 => 12,
        TensorElementDataType::Uint64 => 13,
    }
}

/// The element type that the engine's code stands for, if it is supported.
pub open spec fn element_type_of_code(code: u32) -> Option<TensorElementDataType> {
    match code {
        1 => Some(TensorElementDataType::Float),
        2 => Some(TensorElementDataType::Uint8),
        3 => Some(TensorElementDataType::Int8),
        4 => Some(TensorElementDataType::Uint16),
        5 => Some(TensorElementDataType::Int16),
        6 => Some(TensorElementDataType::Int32),
        7 => Some(TensorElementDataType::Int64),
        8 => Some(TensorElementDataType::String),
        11 => Some(TensorElementDataType::Double),
        12 => Some(TensorElementDataType::Uint32),
        13 => Some(TensorElementDataType::Uint64),
        _ => None,
    }
}

impl TensorElementDataType {
    /// The engine's numeric code for this element type.
    pub fn code(self) -> (r: u32)
        ensures
            r == element_type_code(self),
    {
        match self {
            TensorElementDataType::Float => 1,
            TensorElementDataType::Uint8 => 2,
            TensorElementDataType::Int8 => 3,
            TensorElementDataType::Uint16 => 4,
            TensorElementDataType::Int16 => 5,
            TensorElementDataType::Int32 => 6,
            TensorElementDataType::Int64 => 7,
            TensorElementDataType::String => 8,
            TensorElementDataType::Double => 11,
            TensorElementDataType::Uint32 => 12,
            TensorElementDataType::Uint64 => 13,
        }
    }

    /// Decodes the engine's numeric code; `None` for the undefined type and
    /// for types this crate does not support.
    pub fn from_code(code: u32) -> (r: Option<TensorElementDataType>)
        ensures
            r == element_type_of_code(code),
    {
        match code {
            1 => Some(TensorElementDataType::Float),
            2 => Some(TensorElementDataType::Uint8),
            3 => Some(TensorElementDataType::Int8),
            4 => Some(TensorElementDataType::Uint16),
            5 => Some(TensorElementDataType::Int16),
            6 => Some(TensorElementDataType::Int32),
            7 => Some(TensorElementDataType::Int64),
            8 => Some(TensorElementDataType::String),
            11 => Some(TensorElementDataType::Double),
            12 => Some(TensorElementDataType::Uint32),
            13 => Some(TensorElementDataType::Uint64),
            _ => None,
        }
    }
}

/// Decoding is the inverse of encoding: a code decodes to an element type
/// exactly when it is that type's code.
pub proof fn lemma_element_type_code_round_trip(code: u32, t: TensorElementDataType)
    ensures
        element_type_of_code(code) == Some(t) <==> element_type_code(t) == code,
{
}

/// Graph optimization level applied when a session is created.
#[derive(Clone, Copy, Debug, PartialEq, Eq, Structural)]
pub enum GraphOptimizationLevel {
    /// Disable all optimizations
    DisableAll,
    /// Basic optimizations
    Basic,
    /// Extended optimizations
    Extended,
    /// All optimizations
    All,
}

/// Allocator kind used for a session's memory.
#[derive(Clone, Copy, Debug, PartialEq, Eq, Structural)]
pub enum AllocatorType {
    /// Device allocator
    Device,
    /// Arena allocator
    Arena,
}

/// Memory type of a session's buffers.
#[derive(Clone, Copy, Debug, PartialEq, Eq, Structural)]
pub enum MemType {
    /// CPU memory that a non-CPU provider reads its inputs from
    CPUInput,
    /// CPU memory that a non-CPU provider writes its outputs to
    CPUOutput,
    /// The default memory of the provider
    Default,
}

} // verus!
