//! Server-side entities: handles, the decisions taken on what the engine reports
//! of an entity, and the opaque engine types that entity calls pass around.
use vstd::prelude::*;

use crate::text::{parse_i32, spec_parse_i32};

verus! {

/// A unique identifier for a networkable entity. It combines an entity index
/// with a serial number to prevent stale handles from referring to new entities
/// that have taken the same index.
#[derive(Debug, Clone, Copy, PartialEq, Eq, Structural, Hash, Default)]
pub struct CBaseHandle(pub u32);

/// The text that the engine gave back, or the empty string where it gave none.
pub open spec fn text_or_empty(value: Option<String>) -> Seq<char> {
    match value {
        Some(s) => s@,
        None => Seq::empty(),
    }
}

/// The integer that the engine's text holds, where it gave text that parses as one.
pub open spec fn parsed_i32(value: Option<String>) -> Option<i32> {
    match value {
        Some(s) => spec_parse_i32(s@),
        None => None,
    }
}

/// The core server-side entity class in the Source Engine. Values of it live in
/// the engine and are only ever handled by reference.
pub struct CBaseEntity {
    _private: (),
}

impl CBaseEntity {
    /// Returns the entity index held in the entity's handle: its low twelve bits.
    pub fn get_index(handle: CBaseHandle) -> (r: i32)
        ensures
            r == handle.0 % 4096,
    {
        let raw: u32 = handle.0;
        let signed: i32 = raw as i32;
        let index: i32 = signed & 0xFFF;
        assert(((raw as i32) & 0xFFFi32) as int == raw % 4096) by (bit_vector);
        index
    }

    /// The C++ class name of the entity, given the name that its networkable
    /// interface reports (`None` where the entity has no networkable interface).
    pub fn get_class_name(class_name: Option<String>) -> (r: String)
        ensures
            r@ == text_or_empty(class_name),
    {
        match class_name {
            Some(name) => name,
            None => String::new(),
        }
    }

    /// Retrieves the networkable class name of the entity.
    pub fn get_classname(class_name: Option<String>) -> (r: String)
        ensures
            r@ == text_or_empty(class_name),
    {
        Self::get_class_name(class_name)
    }

    /// The health of the entity, given its "health" key value: the value as an
    /// integer, or 0 where there is none or it does not parse.
    pub fn get_health(health: Option<String>) -> (r: i32)
        ensures
            r == match parsed_i32(health) {
                Some(v) => v,
                None => 0,
            },
    {
        match health {
            Some(text) => match parse_i32(text.as_str()) {
                Some(v) => v,
                None => 0,
            },
            None => 0,
        }
    }

    /// The target name of the entity, given its "targetname" key value.
    pub fn get_name(targetname: Option<String>) -> (r: String)
        ensures
            r@ == text_or_empty(targetname),
    {
        match targetname {
            Some(name) => name,
            None => String::new(),
        }
    }

    /// Decides the removal of the entity, given its "hammerid" key value: the
    /// Hammer ID to remove, where the value is present and parses as an integer;
    /// otherwise nothing is removed.
    pub fn destroy(hammer_id: Option<String>) -> (r: Option<i32>)
        ensures
            r == parsed_i32(hammer_id),
    {
        match hammer_id {
            Some(text) => parse_i32(text.as_str()),
            None => None,
        }
    }
}

/// The networkable side of a server entity (engine-owned).
pub struct IServerNetworkable {
    _private: (),
}

/// The server-side entity interface (engine-owned).
pub struct IServerEntity {
    _private: (),
}

/// An entity's network slot (engine-owned).
pub struct Edict {
    _private: (),
}

/// A client-side entity (engine-owned).
pub struct IClientEntity {
    _private: (),
}

/// The collision interface of an entity (engine-owned).
pub struct ICollideable {
    _private: (),
}

/// Engine-owned change-tracking accessor of an edict.
pub struct IChangeInfoAccessor {
    _private: (),
}

/// Engine-owned spatial partition.
pub struct ISpatialPartition {
    _private: (),
}

/// Engine-owned debugging scratch pad.
pub struct IScratchPad3D {
    _private: (),
}

/// Engine-owned transmit-check state of a client.
pub struct CCheckTransmitInfo {
    _private: (),
}

/// Engine-owned shared edict change information.
pub struct CSharedEdictChangeInfo {
    _private: (),
}

} // verus!
