//! KeyValues (Valve Data Format) nodes: the type tag of a node and the
//! engine-owned containers that engine calls pass around.
use vstd::prelude::*;

verus! {

/// An engine string handle.
#[derive(Debug, Clone, Copy, PartialEq, Eq, Structural)]
pub struct StringT(pub u32);

/// Defines the underlying data type of a KeyValues node.
#[derive(Debug, Clone, Copy, PartialEq, Eq, Structural)]
pub enum KeyValuesType {
    /// The node holds no value (the engine's `TYPE_NONE`).
    Empty,
    String,
    Int,
    Float,
    Ptr,
    WString,
    Color,
    Uint64,
    CompiledIntByte,
}

/// The byte that stands for a type tag in a node's memory layout.
pub open spec fn key_values_type_code(t: KeyValuesType) -> u8 {
    match t {
        KeyValuesType::Empty => 0,
        KeyValuesType::String => 1,
        KeyValuesType::Int => 2,
        KeyValuesType::Float => 3,
        KeyValuesType::Ptr => 4,
        KeyValuesType::WString => 5,
        KeyValuesType::Color => 6,
        KeyValuesType::Uint64 => 7,
        KeyValuesType::CompiledIntByte => 8,
    }
}

/// The type tag that a byte of a node's memory layout stands for, if any.
pub open spec fn key_values_type_of(code: u8) -> Option<KeyValuesType> {
    if code == 0 {
        Some(KeyValuesType::Empty)
    } else if code == 1 {
        Some(KeyValuesType::String)
    } else if code == 2 {
        Some(KeyValuesType::Int)
    } else if code == 3 {
        Some(KeyValuesType::Float)
    } else if code == 4 {
        Some(KeyValuesType::Ptr)
    } else if code == 5 {
        Some(KeyValuesType::WString)
    } else if code == 6 {
        Some(KeyValuesType::Color)
    } else if code == 7 {
        Some(KeyValuesType::Uint64)
    } else if code == 8 {
        Some(KeyValuesType::CompiledIntByte)
    } else {
        None
    }
}

impl KeyValuesType {
    /// The type tag that a byte of a node's memory layout stands for, if any.
    pub fn from_code(code: u8) -> (r: Option<KeyValuesType>)
        ensures
            r == key_values_type_of(code),
            (r == Some(KeyValuesType::Empty)) == (code == 0),
            (r == Some(KeyValuesType::String)) == (code == 1),
            (r == Some(KeyValuesType::Int)) == (code == 2),
            (r == Some(KeyValuesType::Float)) == (code == 3),
            (r == Some(KeyValuesType::Ptr)) == (code == 4),
            (r == Some(KeyValuesType::WString)) == (code == 5),
            (r == Some(KeyValuesType::Color)) == (code == 6),
            (r == Some(KeyValuesType::Uint64)) == (code == 7),
            (r == Some(KeyValuesType::CompiledIntByte)) == (code == 8),
            (r is None) == (code > 8),
    {
        match code {
            0 => Some(KeyValuesType::Empty),
            1 => Some(KeyValuesType::String),
            2 => Some(KeyValuesType::Int),
            3 => Some(KeyValuesType::Float),
            4 => Some(KeyValuesType::Ptr),
            5 => Some(KeyValuesType::WString),
            6 => Some(KeyValuesType::Color),
            7 => Some(KeyValuesType::Uint64),
            8 => Some(KeyValuesType::CompiledIntByte),
            _ => None,
        }
    }

    /// The byte that stands for this type tag in a node's memory layout.
    pub fn code(&self) -> (r: u8)
        ensures
            r == key_values_type_code(*self),
            (r == 0) == (*self == KeyValuesType::Empty),
            (r == 1) == (*self == KeyValuesType::String),
            (r == 2) == (*self == KeyValuesType::Int),
            (r == 3) == (*self == KeyValuesType::Float),
            (r == 4) == (*self == KeyValuesType::Ptr),
            (r == 5) == (*self == KeyValuesType::WString),
            (r == 6) == (*self == KeyValuesType::Color),
            (r == 7) == (*self == KeyValuesType::Uint64),
            (r == 8) == (*self == KeyValuesType::CompiledIntByte),
    {
        match self {
            KeyValuesType::Empty => 0,
            KeyValuesType::String => 1,
            KeyValuesType::Int => 2,
            KeyValuesType::Float => 3,
            KeyValuesType::Ptr => 4,
            KeyValuesType::WString => 5,
            KeyValuesType::Color => 6,
            KeyValuesType::Uint64 => 7,
            KeyValuesType::CompiledIntByte => 8,
        }
    }
}

/// The engine's type byte of each tag, as a node lays it out: 0 for no value,
/// 1 for a string, 2 for an int, 3 for a float, 4 for a pointer, 5 for a wide
/// string, 6 for a color, 7 for a 64-bit unsigned int, 8 for a compiled int
/// byte; no other byte stands for a tag.
pub proof fn lemma_key_values_type_bytes(code: u8, t: KeyValuesType)
    ensures
        (key_values_type_of(code) == Some(KeyValuesType::Empty)) == (code == 0),
        (key_values_type_of(code) == Some(KeyValuesType::String)) == (code == 1),
        (key_values_type_of(code) == Some(KeyValuesType::Int)) == (code == 2),
        (key_values_type_of(code) == Some(KeyValuesType::Float)) == (code == 3),
        (key_values_type_of(code) == Some(KeyValuesType::Ptr)) == (code == 4),
        (key_values_type_of(code) == Some(KeyValuesType::WString)) == (code == 5),
        (key_values_type_of(code) == Some(KeyValuesType::Color)) == (code == 6),
        (key_values_type_of(code) == Some(KeyValuesType::Uint64)) == (code == 7),
        (key_values_type_of(code) == Some(KeyValuesType::CompiledIntByte)) == (code == 8),
        (key_values_type_of(code) is None) == (code > 8),
        (key_values_type_code(t) == 0) == (t == KeyValuesType::Empty),
        (key_values_type_code(t) == 1) == (t == KeyValuesType::String),
        (key_values_type_code(t) == 2) == (t == KeyValuesType::Int),
        (key_values_type_code(t) == 3) == (t == KeyValuesType::Float),
        (key_values_type_code(t) == 4) == (t == KeyValuesType::Ptr),
        (key_values_type_code(t) == 5) == (t == KeyValuesType::WString),
        (key_values_type_code(t) == 6) == (t == KeyValuesType::Color),
        (key_values_type_code(t) == 7) == (t == KeyValuesType::Uint64),
        (key_values_type_code(t) == 8) == (t == KeyValuesType::CompiledIntByte),
{
}

/// A type tag is read back from its own byte.
pub proof fn lemma_key_values_type_code_round_trip(t: KeyValuesType)
    ensures
        key_values_type_of(key_values_type_code(t)) == Some(t),
{
}

/// A byte that some type tag stands for is written back as itself.
pub proof fn lemma_key_values_type_of_round_trip(code: u8)
    requires
        key_values_type_of(code) is Some,
    ensures
        key_values_type_code(key_values_type_of(code)->0) == code,
{
}

/// An engine vector container.
pub struct CUtlVector {
    _private: (),
}

/// An engine bit vector.
pub struct CBitVec {
    _private: (),
}

/// A network bit-stream writer.
pub struct BfWrite {
    _private: (),
}

/// A network bit-stream reader.
pub struct BfRead {
    _private: (),
}

/// Game statistics data.
pub struct CGamestatsData {
    _private: (),
}

/// Save/restore data.
pub struct CSaveRestoreData {
    _private: (),
}

} // verus!
