//! Contents, trace-mask and surface flags.
use vstd::prelude::*;
use vstd::std_specs::ops::{BitAndSpec, BitOrSpec, BitXorSpec, NotSpec, SubSpec};

verus! {

/// The bits of every flag that `ContentsFlags` names.
pub open spec fn contents_known_bits() -> i32 {
    0x7F0F_FFFF
}

/// Flags representing the contents of a leaf or brush.
#[derive(Debug, Clone, Copy, PartialEq, Eq, PartialOrd, Ord, Structural, Hash)]
pub struct ContentsFlags {
    pub bits: i32,
}

impl View for ContentsFlags {
    type V = i32;

    open spec fn view(&self) -> i32 {
        self.bits
    }
}

impl ContentsFlags {
    /// No contents.
    pub const EMPTY: i32 = 0x0;
    /// An eye is never valid in a solid.
    pub const SOLID: i32 = 0x1;
    /// Translucent, but not watery (glass).
    pub const WINDOW: i32 = 0x2;
    pub const AUX: i32 = 0x4;
    /// Bullets/sight pass through, but solids don't.
    pub const GRATE: i32 = 0x8;
    pub const SLIME: i32 = 0x10;
    pub const WATER: i32 = 0x20;
    /// Block AI line of sight.
    pub const BLOCKLOS: i32 = 0x40;
    /// Things that cannot be seen through.
    pub const OPAQUE: i32 = 0x80;
    pub const TESTFOGVOLUME: i32 = 0x100;
    pub const UNUSED: i32 = 0x200;
    pub const BLOCKLIGHT: i32 = 0x400;
    /// Per team contents.
    pub const TEAM1: i32 = 0x800;
    pub const TEAM2: i32 = 0x1000;
    /// Ignore OPAQUE on surfaces with NODRAW.
    pub const IGNORE_NODRAW_OPAQUE: i32 = 0x2000;
    /// Hits MOVETYPE_PUSH (doors, plats, etc.).
    pub const MOVEABLE: i32 = 0x4000;
    pub const AREAPORTAL: i32 = 0x8000;
    pub const PLAYERCLIP: i32 = 0x1_0000;
    pub const MONSTERCLIP: i32 = 0x2_0000;
    /// Paintable surface.
    pub const BRUSH_PAINT: i32 = 0x4_0000;
    pub const GRENADECLIP: i32 = 0x8_0000;
    /// Removed before bsping.
    pub const ORIGIN: i32 = 0x100_0000;
    /// In-game only.
    pub const MONSTER: i32 = 0x200_0000;
    pub const DEBRIS: i32 = 0x400_0000;
    /// Brushes to be added after vis leafs.
    pub const DETAIL: i32 = 0x800_0000;
    /// Auto set if any surface has trans.
    pub const TRANSLUCENT: i32 = 0x1000_0000;
    pub const LADDER: i32 = 0x2000_0000;
    /// Use accurate hitboxes on trace.
    pub const HITBOX: i32 = 0x4000_0000;

    /// The empty set of flags.
    pub fn empty() -> (r: ContentsFlags)
        ensures
            r@ == 0,
    {
        ContentsFlags { bits: 0 }
    }

    /// Every flag that this type names.
    pub fn all() -> (r: ContentsFlags)
        ensures
            r@ == contents_known_bits(),
    {
        ContentsFlags { bits: 0x7F0F_FFFF }
    }

    /// The flags with exactly these bits, named or not.
    pub fn from_bits_retain(bits: i32) -> (r: ContentsFlags)
        ensures
            r@ == bits,
    {
        ContentsFlags { bits }
    }

    /// The flags with these bits, dropping every bit that no flag names.
    pub fn from_bits_truncate(bits: i32) -> (r: ContentsFlags)
        ensures
            r@ == bits & contents_known_bits(),
    {
        ContentsFlags { bits: bits & 0x7F0F_FFFF }
    }

    /// The raw bits.
    pub fn bits(&self) -> (r: i32)
        ensures
            r == self@,
    {
        self.bits
    }

    /// Whether every flag of `other` is set in `self`.
    pub fn contains(&self, other: ContentsFlags) -> (r: bool)
        ensures
            r == ((self@ & other@) == other@),
    {
        (self.bits & other.bits) == other.bits
    }

    /// The flags set in either.
    pub fn union(self, other: ContentsFlags) -> (r: ContentsFlags)
        ensures
            r@ == self@ | other@,
    {
        ContentsFlags { bits: self.bits | other.bits }
    }
}

/// Predefined masks for spatial queries (traces).
#[derive(Debug, Clone, Copy, PartialEq, Eq, PartialOrd, Ord, Structural, Hash)]
pub struct MaskFlags {
    pub bits: i32,
}

impl View for MaskFlags {
    type V = i32;

    open spec fn view(&self) -> i32 {
        self.bits
    }
}

impl MaskFlags {
    /// Every content bit.
    pub const ALL: i32 = -1;
    /// Everything that is normally solid.
    pub const SOLID: i32 = ContentsFlags::SOLID | ContentsFlags::MOVEABLE | ContentsFlags::WINDOW
        | ContentsFlags::MONSTER | ContentsFlags::GRATE;
    /// Everything that blocks player movement.
    pub const PLAYERSOLID: i32 = ContentsFlags::SOLID | ContentsFlags::MOVEABLE
        | ContentsFlags::PLAYERCLIP | ContentsFlags::WINDOW | ContentsFlags::MONSTER
        | ContentsFlags::GRATE;
    /// Blocks npc movement.
    pub const NPCSOLID: i32 = ContentsFlags::SOLID | ContentsFlags::MOVEABLE
        | ContentsFlags::MONSTERCLIP | ContentsFlags::WINDOW | ContentsFlags::MONSTER
        | ContentsFlags::GRATE;
    /// Everything that blocks lighting.
    pub const OPAQUE: i32 = ContentsFlags::SOLID | ContentsFlags::MOVEABLE | ContentsFlags::OPAQUE;
    /// Everything that blocks line of sight for players.
    pub const VISIBLE: i32 = MaskFlags::OPAQUE | ContentsFlags::IGNORE_NODRAW_OPAQUE;
    /// Everything that blocks line of sight for AI.
    pub const BLOCKLOS: i32 = ContentsFlags::SOLID | ContentsFlags::MOVEABLE
        | ContentsFlags::BLOCKLOS;
    /// Bullets see these as solid.
    pub const SHOT: i32 = ContentsFlags::SOLID | ContentsFlags::MOVEABLE | ContentsFlags::MONSTER
        | ContentsFlags::WINDOW | ContentsFlags::DEBRIS | ContentsFlags::HITBOX;
    /// Non-raycasted weapons see this as solid (includes grates).
    pub const SHOT_HULL: i32 = ContentsFlags::SOLID | ContentsFlags::MOVEABLE
        | ContentsFlags::MONSTER | ContentsFlags::WINDOW | ContentsFlags::DEBRIS
        | ContentsFlags::GRATE;
    /// What blocks portal placement and portal shots.
    pub const SHOT_PORTAL: i32 = ContentsFlags::SOLID | ContentsFlags::MOVEABLE
        | ContentsFlags::WINDOW | ContentsFlags::MONSTER;
    /// For finding floor height.
    pub const FLOORTRACE: i32 = ContentsFlags::SOLID | ContentsFlags::MOVEABLE
        | ContentsFlags::WINDOW | ContentsFlags::DEBRIS;
    /// Blocks fluid movement.
    pub const NPCFLUID: i32 = ContentsFlags::SOLID | ContentsFlags::MOVEABLE
        | ContentsFlags::MONSTERCLIP | ContentsFlags::WINDOW | ContentsFlags::MONSTER;
    /// Water physics in these contents.
    pub const WATER: i32 = ContentsFlags::WATER | ContentsFlags::MOVEABLE | ContentsFlags::SLIME;

    /// The empty mask.
    pub fn empty() -> (r: MaskFlags)
        ensures
            r@ == 0,
    {
        MaskFlags { bits: 0 }
    }

    /// The mask with every bit set.
    pub fn all() -> (r: MaskFlags)
        ensures
            r@ == -1,
    {
        MaskFlags { bits: -1 }
    }

    /// The mask with exactly these bits.
    pub fn from_bits_retain(bits: i32) -> (r: MaskFlags)
        ensures
            r@ == bits,
    {
        MaskFlags { bits }
    }

    /// The mask with these bits; as every bit is named by `ALL`, nothing is dropped.
    pub fn from_bits_truncate(bits: i32) -> (r: MaskFlags)
        ensures
            r@ == bits,
    {
        MaskFlags { bits }
    }

    /// The raw bits.
    pub fn bits(&self) -> (r: i32)
        ensures
            r == self@,
    {
        self.bits
    }

    /// Whether every bit of `other` is set in `self`.
    pub fn contains(&self, other: MaskFlags) -> (r: bool)
        ensures
            r == ((self@ & other@) == other@),
    {
        (self.bits & other.bits) == other.bits
    }

    /// The bits set in either.
    pub fn union(self, other: MaskFlags) -> (r: MaskFlags)
        ensures
            r@ == self@ | other@,
    {
        MaskFlags { bits: self.bits | other.bits }
    }
}

/// Flags that can be set on a surface.
#[derive(Debug, Clone, Copy, PartialEq, Eq, PartialOrd, Ord, Structural, Hash)]
pub struct SurfaceFlags {
    pub bits: u16,
}

impl View for SurfaceFlags {
    type V = u16;

    open spec fn view(&self) -> u16 {
        self.bits
    }
}

impl SurfaceFlags {
    pub const NONE: u16 = 0x0;
    /// Value will hold the light strength.
    pub const LIGHT: u16 = 0x1;
    /// Don't draw, indicates we should skylight + draw 2d sky but not draw the 3D skybox.
    pub const SKY2D: u16 = 0x2;
    /// Don't draw, but add to skybox.
    pub const SKY: u16 = 0x4;
    /// Turbulent water warp.
    pub const WARP: u16 = 0x8;
    pub const TRANS: u16 = 0x10;
    /// The surface can not have a portal placed on it.
    pub const NOPORTAL: u16 = 0x20;
    /// Xbox hack to work around elimination of trigger surfaces.
    pub const TRIGGER: u16 = 0x40;
    /// Don't bother referencing the texture.
    pub const NODRAW: u16 = 0x80;
    /// Make a primary bsp splitter.
    pub const HINT: u16 = 0x100;
    /// Completely ignore, allowing non-closed brushes.
    pub const SKIP: u16 = 0x200;
    /// Don't calculate light.
    pub const NOLIGHT: u16 = 0x400;
    /// Calculate three lightmaps for the surface for bumpmapping.
    pub const BUMPLIGHT: u16 = 0x800;
    /// Don't receive shadows.
    pub const NOSHADOWS: u16 = 0x1000;
    /// Don't receive decals.
    pub const NODECALS: u16 = 0x2000;
    /// The surface can not have paint placed on it (the same bit as NODECALS).
    pub const NOPAINT: u16 = 0x2000;
    /// Don't subdivide patches on this surface.
    pub const NOCHOP: u16 = 0x4000;
    /// Surface is part of a hitbox.
    pub const HITBOX: u16 = 0x8000;

    /// The empty set of flags.
    pub fn empty() -> (r: SurfaceFlags)
        ensures
            r@ == 0,
    {
        SurfaceFlags { bits: 0 }
    }

    /// Every flag that this type names: all sixteen bits.
    pub fn all() -> (r: SurfaceFlags)
        ensures
            r@ == 0xFFFF,
    {
        SurfaceFlags { bits: 0xFFFF }
    }

    /// The flags with exactly these bits.
    pub fn from_bits_retain(bits: u16) -> (r: SurfaceFlags)
        ensures
            r@ == bits,
    {
        SurfaceFlags { bits }
    }

    /// The flags with these bits; as every bit is named, nothing is dropped.
    pub fn from_bits_truncate(bits: u16) -> (r: SurfaceFlags)
        ensures
            r@ == bits,
    {
        SurfaceFlags { bits }
    }

    /// The raw bits.
    pub fn bits(&self) -> (r: u16)
        ensures
            r == self@,
    {
        self.bits
    }

    /// Whether every flag of `other` is set in `self`.
    pub fn contains(&self, other: SurfaceFlags) -> (r: bool)
        ensures
            r == ((self@ & other@) == other@),
    {
        (self.bits & other.bits) == other.bits
    }

    /// The flags set in either.
    pub fn union(self, other: SurfaceFlags) -> (r: SurfaceFlags)
        ensures
            r@ == self@ | other@,
    {
        SurfaceFlags { bits: self.bits | other.bits }
    }
}

impl ContentsFlags {
    /// The flags with these bits, or `None` where a bit is set that no flag names.
    pub fn from_bits(bits: i32) -> (r: Option<ContentsFlags>)
        ensures
            match r {
                Some(f) => bits & contents_known_bits() == bits && f@ == bits,
                None => bits & contents_known_bits() != bits,
            },
    {
        let truncated = ContentsFlags::from_bits_truncate(bits);
        if truncated.bits() == bits {
            Some(truncated)
        } else {
            None
        }
    }

    /// Whether no bit is set.
    pub fn is_empty(&self) -> (r: bool)
        ensures
            r == (self@ == 0),
    {
        self.bits == 0
    }

    /// Whether every flag that this type names is set.
    pub fn is_all(&self) -> (r: bool)
        ensures
            r == ((contents_known_bits()) | self@ == self@),
    {
        (0x7F0F_FFFFi32 | self.bits) == self.bits
    }

    /// Whether `self` and `other` have a set bit in common.
    pub fn intersects(&self, other: ContentsFlags) -> (r: bool)
        ensures
            r == (self@ & other@ != 0),
    {
        (self.bits & other.bits) != 0
    }

    /// The bits set in both.
    pub fn intersection(self, other: ContentsFlags) -> (r: ContentsFlags)
        ensures
            r@ == self@ & other@,
    {
        ContentsFlags { bits: self.bits & other.bits }
    }

    /// The bits of `self` that are not set in `other`.
    pub fn difference(self, other: ContentsFlags) -> (r: ContentsFlags)
        ensures
            r@ == self@ & !other@,
    {
        ContentsFlags { bits: self.bits & !other.bits }
    }

    /// The bits set in exactly one of the two.
    pub fn symmetric_difference(self, other: ContentsFlags) -> (r: ContentsFlags)
        ensures
            r@ == self@ ^ other@,
    {
        ContentsFlags { bits: self.bits ^ other.bits }
    }

    /// The named flags that are not set in `self`.
    pub fn complement(self) -> (r: ContentsFlags)
        ensures
            r@ == !self@ & contents_known_bits(),
    {
        ContentsFlags::from_bits_truncate(!self.bits)
    }

    /// Sets the bits of `other`.
    pub fn insert(&mut self, other: ContentsFlags)
        ensures
            final(self)@ == old(self)@ | other@,
    {
        self.bits = self.bits | other.bits;
    }

    /// Clears the bits of `other`.
    pub fn remove(&mut self, other: ContentsFlags)
        ensures
            final(self)@ == old(self)@ & !other@,
    {
        self.bits = self.bits & !other.bits;
    }

    /// Flips the bits of `other`.
    pub fn toggle(&mut self, other: ContentsFlags)
        ensures
            final(self)@ == old(self)@ ^ other@,
    {
        self.bits = self.bits ^ other.bits;
    }

    /// Sets the bits of `other` where `value` holds, and clears them where it does not.
    pub fn set(&mut self, other: ContentsFlags, value: bool)
        ensures
            final(self)@ == (if value {
                old(self)@ | other@
            } else {
                old(self)@ & !other@
            }),
    {
        if value {
            self.insert(other);
        } else {
            self.remove(other);
        }
    }
}

impl core::ops::BitOr for ContentsFlags {
    type Output = ContentsFlags;

    /// The union of the two.
    fn bitor(self, rhs: ContentsFlags) -> (r: ContentsFlags)
        ensures
            r@ == self@ | rhs@,
    {
        self.union(rhs)
    }
}

impl vstd::std_specs::ops::BitOrSpecImpl for ContentsFlags {
    open spec fn obeys_bitor_spec() -> bool {
        true
    }

    open spec fn bitor_req(self, rhs: ContentsFlags) -> bool {
        true
    }

    open spec fn bitor_spec(self, rhs: ContentsFlags) -> ContentsFlags {
        ContentsFlags { bits: self.bits | rhs.bits }
    }
}

impl core::ops::BitAnd for ContentsFlags {
    type Output = ContentsFlags;

    /// The intersection of the two.
    fn bitand(self, rhs: ContentsFlags) -> (r: ContentsFlags)
        ensures
            r@ == self@ & rhs@,
    {
        self.intersection(rhs)
    }
}

impl vstd::std_specs::ops::BitAndSpecImpl for ContentsFlags {
    open spec fn obeys_bitand_spec() -> bool {
        true
    }

    open spec fn bitand_req(self, rhs: ContentsFlags) -> bool {
        true
    }

    open spec fn bitand_spec(self, rhs: ContentsFlags) -> ContentsFlags {
        ContentsFlags { bits: self.bits & rhs.bits }
    }
}

impl core::ops::BitXor for ContentsFlags {
    type Output = ContentsFlags;

    /// The symmetric difference of the two.
    fn bitxor(self, rhs: ContentsFlags) -> (r: ContentsFlags)
        ensures
            r@ == self@ ^ rhs@,
    {
        self.symmetric_difference(rhs)
    }
}

impl vstd::std_specs::ops::BitXorSpecImpl for ContentsFlags {
    open spec fn obeys_bitxor_spec() -> bool {
        true
    }

    open spec fn bitxor_req(self, rhs: ContentsFlags) -> bool {
        true
    }

    open spec fn bitxor_spec(self, rhs: ContentsFlags) -> ContentsFlags {
        ContentsFlags { bits: self.bits ^ rhs.bits }
    }
}

impl core::ops::Sub for ContentsFlags {
    type Output = ContentsFlags;

    /// The difference of the two.
    fn sub(self, rhs: ContentsFlags) -> (r: ContentsFlags)
        ensures
            r@ == self@ & !rhs@,
    {
        self.difference(rhs)
    }
}

impl vstd::std_specs::ops::SubSpecImpl for ContentsFlags {
    open spec fn obeys_sub_spec() -> bool {
        true
    }

    open spec fn sub_req(self, rhs: ContentsFlags) -> bool {
        true
    }

    open spec fn sub_spec(self, rhs: ContentsFlags) -> ContentsFlags {
        ContentsFlags { bits: self.bits & !rhs.bits }
    }
}

impl core::ops::Not for ContentsFlags {
    type Output = ContentsFlags;

    /// The complement.
    fn not(self) -> (r: ContentsFlags)
        ensures
            r@ == !self@ & contents_known_bits(),
    {
        self.complement()
    }
}

impl vstd::std_specs::ops::NotSpecImpl for ContentsFlags {
    open spec fn obeys_not_spec() -> bool {
        true
    }

    open spec fn not_req(self) -> bool {
        true
    }

    open spec fn not_spec(self) -> ContentsFlags {
        ContentsFlags { bits: !self.bits & contents_known_bits() }
    }
}

impl MaskFlags {
    /// The flags with these bits; as every bit is named, this is always `Some`.
    pub fn from_bits(bits: i32) -> (r: Option<MaskFlags>)
        ensures
            match r {
                Some(f) => f@ == bits,
                None => false,
            },
    {
        let truncated = MaskFlags::from_bits_truncate(bits);
        if truncated.bits() == bits {
            Some(truncated)
        } else {
            None
        }
    }

    /// Whether no bit is set.
    pub fn is_empty(&self) -> (r: bool)
        ensures
            r == (self@ == 0),
    {
        self.bits == 0
    }

    /// Whether every flag that this type names is set.
    pub fn is_all(&self) -> (r: bool)
        ensures
            r == (self@ == -1i32),
    {
        self.bits == -1i32
    }

    /// Whether `self` and `other` have a set bit in common.
    pub fn intersects(&self, other: MaskFlags) -> (r: bool)
        ensures
            r == (self@ & other@ != 0),
    {
        (self.bits & other.bits) != 0
    }

    /// The bits set in both.
    pub fn intersection(self, other: MaskFlags) -> (r: MaskFlags)
        ensures
            r@ == self@ & other@,
    {
        MaskFlags { bits: self.bits & other.bits }
    }

    /// The bits of `self` that are not set in `other`.
    pub fn difference(self, other: MaskFlags) -> (r: MaskFlags)
        ensures
            r@ == self@ & !other@,
    {
        MaskFlags { bits: self.bits & !other.bits }
    }

    /// The bits set in exactly one of the two.
    pub fn symmetric_difference(self, other: MaskFlags) -> (r: MaskFlags)
        ensures
            r@ == self@ ^ other@,
    {
        MaskFlags { bits: self.bits ^ other.bits }
    }

    /// The named flags that are not set in `self`.
    pub fn complement(self) -> (r: MaskFlags)
        ensures
            r@ == !self@,
    {
        MaskFlags::from_bits_truncate(!self.bits)
    }

    /// Sets the bits of `other`.
    pub fn insert(&mut self, other: MaskFlags)
        ensures
            final(self)@ == old(self)@ | other@,
    {
        self.bits = self.bits | other.bits;
    }

    /// Clears the bits of `other`.
    pub fn remove(&mut self, other: MaskFlags)
        ensures
            final(self)@ == old(self)@ & !other@,
    {
        self.bits = self.bits & !other.bits;
    }

    /// Flips the bits of `other`.
    pub fn toggle(&mut self, other: MaskFlags)
        ensures
            final(self)@ == old(self)@ ^ other@,
    {
        self.bits = self.bits ^ other.bits;
    }

    /// Sets the bits of `other` where `value` holds, and clears them where it does not.
    pub fn set(&mut self, other: MaskFlags, value: bool)
        ensures
            final(self)@ == (if value {
                old(self)@ | other@
            } else {
                old(self)@ & !other@
            }),
    {
        if value {
            self.insert(other);
        } else {
            self.remove(other);
        }
    }
}

impl core::ops::BitOr for MaskFlags {
    type Output = MaskFlags;

    /// The union of the two.
    fn bitor(self, rhs: MaskFlags) -> (r: MaskFlags)
        ensures
            r@ == self@ | rhs@,
    {
        self.union(rhs)
    }
}

impl vstd::std_specs::ops::BitOrSpecImpl for MaskFlags {
    open spec fn obeys_bitor_spec() -> bool {
        true
    }

    open spec fn bitor_req(self, rhs: MaskFlags) -> bool {
        true
    }

    open spec fn bitor_spec(self, rhs: MaskFlags) -> MaskFlags {
        MaskFlags { bits: self.bits | rhs.bits }
    }
}

impl core::ops::BitAnd for MaskFlags {
    type Output = MaskFlags;

    /// The intersection of the two.
    fn bitand(self, rhs: MaskFlags) -> (r: MaskFlags)
        ensures
            r@ == self@ & rhs@,
    {
        self.intersection(rhs)
    }
}

impl vstd::std_specs::ops::BitAndSpecImpl for MaskFlags {
    open spec fn obeys_bitand_spec() -> bool {
        true
    }

    open spec fn bitand_req(self, rhs: MaskFlags) -> bool {
        true
    }

    open spec fn bitand_spec(self, rhs: MaskFlags) -> MaskFlags {
        MaskFlags { bits: self.bits & rhs.bits }
    }
}

impl core::ops::BitXor for MaskFlags {
    type Output = MaskFlags;

    /// The symmetric difference of the two.
    fn bitxor(self, rhs: MaskFlags) -> (r: MaskFlags)
        ensures
            r@ == self@ ^ rhs@,
    {
        self.symmetric_difference(rhs)
    }
}

impl vstd::std_specs::ops::BitXorSpecImpl for MaskFlags {
    open spec fn obeys_bitxor_spec() -> bool {
        true
    }

    open spec fn bitxor_req(self, rhs: MaskFlags) -> bool {
        true
    }

    open spec fn bitxor_spec(self, rhs: MaskFlags) -> MaskFlags {
        MaskFlags { bits: self.bits ^ rhs.bits }
    }
}

impl core::ops::Sub for MaskFlags {
    type Output = MaskFlags;

    /// The difference of the two.
    fn sub(self, rhs: MaskFlags) -> (r: MaskFlags)
        ensures
            r@ == self@ & !rhs@,
    {
        self.difference(rhs)
    }
}

impl vstd::std_specs::ops::SubSpecImpl for MaskFlags {
    open spec fn obeys_sub_spec() -> bool {
        true
    }

    open spec fn sub_req(self, rhs: MaskFlags) -> bool {
        true
    }

    open spec fn sub_spec(self, rhs: MaskFlags) -> MaskFlags {
        MaskFlags { bits: self.bits & !rhs.bits }
    }
}

impl core::ops::Not for MaskFlags {
    type Output = MaskFlags;

    /// The complement.
    fn not(self) -> (r: MaskFlags)
        ensures
            r@ == !self@,
    {
        self.complement()
    }
}

impl vstd::std_specs::ops::NotSpecImpl for MaskFlags {
    open spec fn obeys_not_spec() -> bool {
        true
    }

    open spec fn not_req(self) -> bool {
        true
    }

    open spec fn not_spec(self) -> MaskFlags {
        MaskFlags { bits: !self.bits }
    }
}

impl SurfaceFlags {
    /// The flags with these bits; as every bit is named, this is always `Some`.
    pub fn from_bits(bits: u16) -> (r: Option<SurfaceFlags>)
        ensures
            match r {
                Some(f) => f@ == bits,
                None => false,
            },
    {
        let truncated = SurfaceFlags::from_bits_truncate(bits);
        if truncated.bits() == bits {
            Some(truncated)
        } else {
            None
        }
    }

    /// Whether no bit is set.
    pub fn is_empty(&self) -> (r: bool)
        ensures
            r == (self@ == 0),
    {
        self.bits == 0
    }

    /// Whether every flag that this type names is set.
    pub fn is_all(&self) -> (r: bool)
        ensures
            r == (self@ == 0xFFFFu16),
    {
        self.bits == 0xFFFFu16
    }

    /// Whether `self` and `other` have a set bit in common.
    pub fn intersects(&self, other: SurfaceFlags) -> (r: bool)
        ensures
            r == (self@ & other@ != 0),
    {
        (self.bits & other.bits) != 0
    }

    /// The bits set in both.
    pub fn intersection(self, other: SurfaceFlags) -> (r: SurfaceFlags)
        ensures
            r@ == self@ & other@,
    {
        SurfaceFlags { bits: self.bits & other.bits }
    }

    /// The bits of `self` that are not set in `other`.
    pub fn difference(self, other: SurfaceFlags) -> (r: SurfaceFlags)
        ensures
            r@ == self@ & !other@,
    {
        SurfaceFlags { bits: self.bits & !other.bits }
    }

    /// The bits set in exactly one of the two.
    pub fn symmetric_difference(self, other: SurfaceFlags) -> (r: SurfaceFlags)
        ensures
            r@ == self@ ^ other@,
    {
        SurfaceFlags { bits: self.bits ^ other.bits }
    }

    /// The named flags that are not set in `self`.
    pub fn complement(self) -> (r: SurfaceFlags)
        ensures
            r@ == !self@,
    {
        SurfaceFlags::from_bits_truncate(!self.bits)
    }

    /// Sets the bits of `other`.
    pub fn insert(&mut self, other: SurfaceFlags)
        ensures
            final(self)@ == old(self)@ | other@,
    {
        self.bits = self.bits | other.bits;
    }

    /// Clears the bits of `other`.
    pub fn remove(&mut self, other: SurfaceFlags)
        ensures
            final(self)@ == old(self)@ & !other@,
    {
        self.bits = self.bits & !other.bits;
    }

    /// Flips the bits of `other`.
    pub fn toggle(&mut self, other: SurfaceFlags)
        ensures
            final(self)@ == old(self)@ ^ other@,
    {
        self.bits = self.bits ^ other.bits;
    }

    /// Sets the bits of `other` where `value` holds, and clears them where it does not.
    pub fn set(&mut self, other: SurfaceFlags, value: bool)
        ensures
            final(self)@ == (if value {
                old(self)@ | other@
            } else {
                old(self)@ & !other@
            }),
    {
        if value {
            self.insert(other);
        } else {
            self.remove(other);
        }
    }
}

impl core::ops::BitOr for SurfaceFlags {
    type Output = SurfaceFlags;

    /// The union of the two.
    fn bitor(self, rhs: SurfaceFlags) -> (r: SurfaceFlags)
        ensures
            r@ == self@ | rhs@,
    {
        self.union(rhs)
    }
}

impl vstd::std_specs::ops::BitOrSpecImpl for SurfaceFlags {
    open spec fn obeys_bitor_spec() -> bool {
        true
    }

    open spec fn bitor_req(self, rhs: SurfaceFlags) -> bool {
        true
    }

    open spec fn bitor_spec(self, rhs: SurfaceFlags) -> SurfaceFlags {
        SurfaceFlags { bits: self.bits | rhs.bits }
    }
}

impl core::ops::BitAnd for SurfaceFlags {
    type Output = SurfaceFlags;

    /// The intersection of the two.
    fn bitand(self, rhs: SurfaceFlags) -> (r: SurfaceFlags)
        ensures
            r@ == self@ & rhs@,
    {
        self.intersection(rhs)
    }
}

impl vstd::std_specs::ops::BitAndSpecImpl for SurfaceFlags {
    open spec fn obeys_bitand_spec() -> bool {
        true
    }

    open spec fn bitand_req(self, rhs: SurfaceFlags) -> bool {
        true
    }

    open spec fn bitand_spec(self, rhs: SurfaceFlags) -> SurfaceFlags {
        SurfaceFlags { bits: self.bits & rhs.bits }
    }
}

impl core::ops::BitXor for SurfaceFlags {
    type Output = SurfaceFlags;

    /// The symmetric difference of the two.
    fn bitxor(self, rhs: SurfaceFlags) -> (r: SurfaceFlags)
        ensures
            r@ == self@ ^ rhs@,
    {
        self.symmetric_difference(rhs)
    }
}

impl vstd::std_specs::ops::BitXorSpecImpl for SurfaceFlags {
    open spec fn obeys_bitxor_spec() -> bool {
        true
    }

    open spec fn bitxor_req(self, rhs: SurfaceFlags) -> bool {
        true
    }

    open spec fn bitxor_spec(self, rhs: SurfaceFlags) -> SurfaceFlags {
        SurfaceFlags { bits: self.bits ^ rhs.bits }
    }
}

impl core::ops::Sub for SurfaceFlags {
    type Output = SurfaceFlags;

    /// The difference of the two.
    fn sub(self, rhs: SurfaceFlags) -> (r: SurfaceFlags)
        ensures
            r@ == self@ & !rhs@,
    {
        self.difference(rhs)
    }
}

impl vstd::std_specs::ops::SubSpecImpl for SurfaceFlags {
    open spec fn obeys_sub_spec() -> bool {
        true
    }

    open spec fn sub_req(self, rhs: SurfaceFlags) -> bool {
        true
    }

    open spec fn sub_spec(self, rhs: SurfaceFlags) -> SurfaceFlags {
        SurfaceFlags { bits: self.bits & !rhs.bits }
    }
}

impl core::ops::Not for SurfaceFlags {
    type Output = SurfaceFlags;

    /// The complement.
    fn not(self) -> (r: SurfaceFlags)
        ensures
            r@ == !self@,
    {
        self.complement()
    }
}

impl vstd::std_specs::ops::NotSpecImpl for SurfaceFlags {
    open spec fn obeys_not_spec() -> bool {
        true
    }

    open spec fn not_req(self) -> bool {
        true
    }

    open spec fn not_spec(self) -> SurfaceFlags {
        SurfaceFlags { bits: !self.bits }
    }
}

/// Facts of bitwise union, intersection and difference on 32-bit values.
pub(crate) proof fn lemma_bits_i32(x: i32, y: i32)
    by (bit_vector)
    ensures
        (x | y) & x == x,
        (x | y) & y == y,
        x & (x & y) == x & y,
        y & (x & y) == x & y,
        (x & !y) & y == 0,
{
}

/// Facts of bitwise union, intersection and difference on 16-bit values.
proof fn lemma_bits_u16(x: u16, y: u16)
    by (bit_vector)
    ensures
        (x | y) & x == x,
        (x | y) & y == y,
        x & (x & y) == x & y,
        y & (x & y) == x & y,
        (x & !y) & y == 0,
{
}

/// The operators on contents flags are the set operations on their bits: `|` is the
/// union, `&` the intersection, `^` the symmetric difference, `-` the
/// difference and `!` the complement within the named flags. A union holds
/// both operands, both operands hold their intersection, and a difference
/// shares no bit with what was taken away.
pub proof fn lemma_contents_flags_operators(a: ContentsFlags, b: ContentsFlags)
    ensures
        a.bitor_spec(b)@ == a@ | b@,
        a.bitand_spec(b)@ == a@ & b@,
        a.bitxor_spec(b)@ == a@ ^ b@,
        a.sub_spec(b)@ == a@ & !b@,
        a.not_spec()@ == !a@ & contents_known_bits(),
        a.bitor_spec(b)@ & a@ == a@,
        a.bitor_spec(b)@ & b@ == b@,
        a@ & a.bitand_spec(b)@ == a.bitand_spec(b)@,
        b@ & a.bitand_spec(b)@ == a.bitand_spec(b)@,
        a.sub_spec(b)@ & b@ == 0,
{
    lemma_bits_i32(a@, b@);
}

/// The operators on trace masks are the set operations on their bits: `|` is the
/// union, `&` the intersection, `^` the symmetric difference, `-` the
/// difference and `!` the complement within the named flags. A union holds
/// both operands, both operands hold their intersection, and a difference
/// shares no bit with what was taken away.
pub proof fn lemma_mask_flags_operators(a: MaskFlags, b: MaskFlags)
    ensures
        a.bitor_spec(b)@ == a@ | b@,
        a.bitand_spec(b)@ == a@ & b@,
        a.bitxor_spec(b)@ == a@ ^ b@,
        a.sub_spec(b)@ == a@ & !b@,
        a.not_spec()@ == !a@,
        a.bitor_spec(b)@ & a@ == a@,
        a.bitor_spec(b)@ & b@ == b@,
        a@ & a.bitand_spec(b)@ == a.bitand_spec(b)@,
        b@ & a.bitand_spec(b)@ == a.bitand_spec(b)@,
        a.sub_spec(b)@ & b@ == 0,
{
    lemma_bits_i32(a@, b@);
}

/// The operators on surface flags are the set operations on their bits: `|` is the
/// union, `&` the intersection, `^` the symmetric difference, `-` the
/// difference and `!` the complement within the named flags. A union holds
/// both operands, both operands hold their intersection, and a difference
/// shares no bit with what was taken away.
pub proof fn lemma_surface_flags_operators(a: SurfaceFlags, b: SurfaceFlags)
    ensures
        a.bitor_spec(b)@ == a@ | b@,
        a.bitand_spec(b)@ == a@ & b@,
        a.bitxor_spec(b)@ == a@ ^ b@,
        a.sub_spec(b)@ == a@ & !b@,
        a.not_spec()@ == !a@,
        a.bitor_spec(b)@ & a@ == a@,
        a.bitor_spec(b)@ & b@ == b@,
        a@ & a.bitand_spec(b)@ == a.bitand_spec(b)@,
        b@ & a.bitand_spec(b)@ == a.bitand_spec(b)@,
        a.sub_spec(b)@ & b@ == 0,
{
    lemma_bits_u16(a@, b@);
}

} // verus!
