//! What a trace reports about the thing it hit.
use vstd::prelude::*;

use crate::masks::SurfaceFlags;
use vstd::string::StringExecFns;

verus! {

/// The body part that a trace hit.
#[derive(Debug, Clone, Copy, PartialEq, Eq, Structural)]
pub enum HitGroup {
    Generic,
    Head,
    Chest,
    Stomach,
    LeftArm,
    RightArm,
    LeftLeg,
    RightLeg,
    Gear,
    Unknown,
}

/// The hit group that the engine's numeric code stands for.
pub open spec fn hit_group_of(val: i32) -> HitGroup {
    if val == 0 {
        HitGroup::Generic
    } else if val == 1 {
        HitGroup::Head
    } else if val == 2 {
        HitGroup::Chest
    } else if val == 3 {
        HitGroup::Stomach
    } else if val == 4 {
        HitGroup::LeftArm
    } else if val == 5 {
        HitGroup::RightArm
    } else if val == 6 {
        HitGroup::LeftLeg
    } else if val == 7 {
        HitGroup::RightLeg
    } else if val == 10 {
        HitGroup::Gear
    } else {
        HitGroup::Unknown
    }
}

/// The engine's numeric code of a hit group.
pub open spec fn hit_group_code(group: HitGroup) -> i32 {
    match group {
        HitGroup::Generic => 0,
        HitGroup::Head => 1,
        HitGroup::Chest => 2,
        HitGroup::Stomach => 3,
        HitGroup::LeftArm => 4,
        HitGroup::RightArm => 5,
        HitGroup::LeftLeg => 6,
        HitGroup::RightLeg => 7,
        HitGroup::Gear => 10,
        HitGroup::Unknown => -1i32,
    }
}

impl HitGroup {
    /// The engine's numeric code of this hit group.
    pub fn code(&self) -> (r: i32)
        ensures
            r == hit_group_code(*self),
            (r == 0) == (*self == HitGroup::Generic),
            (r == 1) == (*self == HitGroup::Head),
            (r == 2) == (*self == HitGroup::Chest),
            (r == 3) == (*self == HitGroup::Stomach),
            (r == 4) == (*self == HitGroup::LeftArm),
            (r == 5) == (*self == HitGroup::RightArm),
            (r == 6) == (*self == HitGroup::LeftLeg),
            (r == 7) == (*self == HitGroup::RightLeg),
            (r == 10) == (*self == HitGroup::Gear),
            (r == -1) == (*self == HitGroup::Unknown),
    {
        match self {
            HitGroup::Generic => 0,
            HitGroup::Head => 1,
            HitGroup::Chest => 2,
            HitGroup::Stomach => 3,
            HitGroup::LeftArm => 4,
            HitGroup::RightArm => 5,
            HitGroup::LeftLeg => 6,
            HitGroup::RightLeg => 7,
            HitGroup::Gear => 10,
            HitGroup::Unknown => -1i32,
        }
    }
}

impl From<i32> for HitGroup {
    fn from(val: i32) -> (r: HitGroup)
        ensures
            (r == HitGroup::Generic) == (val == 0),
            (r == HitGroup::Head) == (val == 1),
            (r == HitGroup::Chest) == (val == 2),
            (r == HitGroup::Stomach) == (val == 3),
            (r == HitGroup::LeftArm) == (val == 4),
            (r == HitGroup::RightArm) == (val == 5),
            (r == HitGroup::LeftLeg) == (val == 6),
            (r == HitGroup::RightLeg) == (val == 7),
            (r == HitGroup::Gear) == (val == 10),
            (r == HitGroup::Unknown) == !(0 <= val <= 7 || val == 10),
    {
        if val == 0 {
            HitGroup::Generic
        } else if val == 1 {
            HitGroup::Head
        } else if val == 2 {
            HitGroup::Chest
        } else if val == 3 {
            HitGroup::Stomach
        } else if val == 4 {
            HitGroup::LeftArm
        } else if val == 5 {
            HitGroup::RightArm
        } else if val == 6 {
            HitGroup::LeftLeg
        } else if val == 7 {
            HitGroup::RightLeg
        } else if val == 10 {
            HitGroup::Gear
        } else {
            HitGroup::Unknown
        }
    }
}

impl vstd::std_specs::convert::FromSpecImpl<i32> for HitGroup {
    open spec fn obeys_from_spec() -> bool {
        true
    }

    open spec fn from_spec(v: i32) -> HitGroup {
        hit_group_of(v)
    }
}

/// The engine's hitgroup code of each body part: 0 generic, 1 head, 2 chest,
/// 3 stomach, 4 left arm, 5 right arm, 6 left leg, 7 right leg, 10 gear; every
/// other code reads as unknown, whose own code is -1.
pub proof fn lemma_hit_group_codes(val: i32, group: HitGroup)
    ensures
        (hit_group_of(val) == HitGroup::Generic) == (val == 0),
        (hit_group_of(val) == HitGroup::Head) == (val == 1),
        (hit_group_of(val) == HitGroup::Chest) == (val == 2),
        (hit_group_of(val) == HitGroup::Stomach) == (val == 3),
        (hit_group_of(val) == HitGroup::LeftArm) == (val == 4),
        (hit_group_of(val) == HitGroup::RightArm) == (val == 5),
        (hit_group_of(val) == HitGroup::LeftLeg) == (val == 6),
        (hit_group_of(val) == HitGroup::RightLeg) == (val == 7),
        (hit_group_of(val) == HitGroup::Gear) == (val == 10),
        (hit_group_of(val) == HitGroup::Unknown) == !(0 <= val <= 7 || val == 10),
        (hit_group_code(group) == 0) == (group == HitGroup::Generic),
        (hit_group_code(group) == 1) == (group == HitGroup::Head),
        (hit_group_code(group) == 2) == (group == HitGroup::Chest),
        (hit_group_code(group) == 3) == (group == HitGroup::Stomach),
        (hit_group_code(group) == 4) == (group == HitGroup::LeftArm),
        (hit_group_code(group) == 5) == (group == HitGroup::RightArm),
        (hit_group_code(group) == 6) == (group == HitGroup::LeftLeg),
        (hit_group_code(group) == 7) == (group == HitGroup::RightLeg),
        (hit_group_code(group) == 10) == (group == HitGroup::Gear),
        (hit_group_code(group) == -1) == (group == HitGroup::Unknown),
{
}

/// Every hit group is read back from its own numeric code.
pub proof fn lemma_hit_group_code_round_trip(group: HitGroup)
    ensures
        hit_group_of(hit_group_code(group)) == group,
{
}

/// The kind of objects that a trace filter lets a trace hit.
#[derive(Debug, Clone, Copy, PartialEq, Eq, Structural)]
pub enum TraceTypeT {
    Everything,
    WorldOnly,
    EntitiesOnly,
    EverythingFilterProps,
}

/// The engine's numeric code of a trace type.
pub open spec fn trace_type_code(t: TraceTypeT) -> i32 {
    match t {
        TraceTypeT::Everything => 0,
        TraceTypeT::WorldOnly => 1,
        TraceTypeT::EntitiesOnly => 2,
        TraceTypeT::EverythingFilterProps => 3,
    }
}

impl TraceTypeT {
    /// The engine's numeric code of this trace type.
    pub fn code(&self) -> (r: i32)
        ensures
            r == trace_type_code(*self),
            (r == 0) == (*self == TraceTypeT::Everything),
            (r == 1) == (*self == TraceTypeT::WorldOnly),
            (r == 2) == (*self == TraceTypeT::EntitiesOnly),
            (r == 3) == (*self == TraceTypeT::EverythingFilterProps),
    {
        match self {
            TraceTypeT::Everything => 0,
            TraceTypeT::WorldOnly => 1,
            TraceTypeT::EntitiesOnly => 2,
            TraceTypeT::EverythingFilterProps => 3,
        }
    }
}

/// The engine's code of each trace type: 0 everything, 1 world only, 2 entities
/// only, 3 everything but props.
pub proof fn lemma_trace_type_codes(t: TraceTypeT)
    ensures
        (trace_type_code(t) == 0) == (t == TraceTypeT::Everything),
        (trace_type_code(t) == 1) == (t == TraceTypeT::WorldOnly),
        (trace_type_code(t) == 2) == (t == TraceTypeT::EntitiesOnly),
        (trace_type_code(t) == 3) == (t == TraceTypeT::EverythingFilterProps),
{
}

/// The surface that a trace hit: its surface-property index and its flags.
#[allow(non_camel_case_types)]
#[derive(Debug, Clone, Copy, PartialEq, Eq, Structural)]
pub struct csurface_t {
    pub surface_props: i16,
    pub flags: u16,
}

impl csurface_t {
    /// Returns the surface flags.
    pub fn get_flags(&self) -> (r: SurfaceFlags)
        ensures
            r@ == self.flags,
    {
        SurfaceFlags::from_bits_truncate(self.flags)
    }

    /// Returns true if this is a sky surface.
    pub fn is_sky(&self) -> (r: bool)
        ensures
            r == ((self.flags & SurfaceFlags::SKY) == SurfaceFlags::SKY || (self.flags
                & SurfaceFlags::SKY2D) == SurfaceFlags::SKY2D),
    {
        let flags = self.get_flags();
        flags.contains(SurfaceFlags::from_bits_retain(SurfaceFlags::SKY)) || flags.contains(
            SurfaceFlags::from_bits_retain(SurfaceFlags::SKY2D),
        )
    }

    /// Returns true if portals cannot be placed on this surface.
    pub fn is_no_portal(&self) -> (r: bool)
        ensures
            r == ((self.flags & SurfaceFlags::NOPORTAL) == SurfaceFlags::NOPORTAL),
    {
        self.get_flags().contains(SurfaceFlags::from_bits_retain(SurfaceFlags::NOPORTAL))
    }

    /// Returns true if paint/decals cannot be placed on this surface.
    pub fn is_no_paint(&self) -> (r: bool)
        ensures
            r == ((self.flags & SurfaceFlags::NOPAINT) == SurfaceFlags::NOPAINT),
    {
        self.get_flags().contains(SurfaceFlags::from_bits_retain(SurfaceFlags::NOPAINT))
    }

    /// Returns true if this surface is not drawn (nodraw).
    pub fn is_nodraw(&self) -> (r: bool)
        ensures
            r == ((self.flags & SurfaceFlags::NODRAW) == SurfaceFlags::NODRAW),
    {
        self.get_flags().contains(SurfaceFlags::from_bits_retain(SurfaceFlags::NODRAW))
    }
}

/// Whether a trace hit an entity other than the world, given the class name of
/// the entity that it reports as hit (`None` where it reports none): the world
/// itself is the entity of class `worldspawn`.
pub fn did_hit_entity(hit_class_name: Option<String>) -> (r: bool)
    ensures
        r == match hit_class_name {
            Some(name) => name@ != "worldspawn"@,
            None => false,
        },
{
    match hit_class_name {
        Some(name) => {
            let world = String::from_str("worldspawn");
            !(name == world)
        },
        None => false,
    }
}

} // verus!
