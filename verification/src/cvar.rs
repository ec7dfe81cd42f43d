//! Console variables: their flag bitmask and the flag-related state of a ConVar.
use vstd::prelude::*;
use vstd::std_specs::ops::{BitAndSpec, BitOrSpec, BitXorSpec, NotSpec, SubSpec};

verus! {

/// The bits of every flag that `CvarFlags` names.
pub open spec fn cvar_known_bits() -> i32 {
    0x73FF_FFFF
}

/// Represents the bitmask of flags for a ConVar.
#[derive(Debug, Clone, Copy, PartialEq, Eq, PartialOrd, Ord, Structural, Hash)]
pub struct CvarFlags {
    pub bits: i32,
}

impl View for CvarFlags {
    type V = i32;

    open spec fn view(&self) -> i32 {
        self.bits
    }
}

impl CvarFlags {
    /// The default, no flags at all.
    pub const NONE: i32 = 0x0;
    /// If this is set, don't add to linked list, etc. It's a ConVar that is not registered.
    pub const UNREGISTERED: i32 = 0x1;
    /// Hidden in released products. Flag is removed automatically if ALLOW_DEVELOPMENT_CVARS is defined.
    pub const DEVELOPMENTONLY: i32 = 0x2;
    /// Defined by the game DLL.
    pub const GAMEDLL: i32 = 0x4;
    /// Defined by the client DLL.
    pub const CLIENTDLL: i32 = 0x8;
    /// Hidden. Doesn't appear in find or autocomplete. Like DEVELOPMENTONLY, but can't be compiled out.
    pub const HIDDEN: i32 = 0x10;
    /// It's a server cvar, but we don't send the data since it's a password, etc.
    pub const PROTECTED: i32 = 0x20;
    /// This cvar cannot be changed by clients connected to a multiplayer server.
    pub const SPONLY: i32 = 0x40;
    /// Set to cause it to be saved to config.cfg.
    pub const ARCHIVE: i32 = 0x80;
    /// Notifies players when changed.
    pub const NOTIFY: i32 = 0x100;
    /// Changes the client's info string.
    pub const USERINFO: i32 = 0x200;
    /// This cvar's string cannot contain unprintable characters (e.g., used for player name).
    pub const PRINTABLEONLY: i32 = 0x400;
    /// If this is a FCVAR_SERVER, don't log changes to the log file / console if we are creating a log.
    pub const UNLOGGED: i32 = 0x800;
    /// Never try to print that cvar. If this is set, don't use the string value of the cvar.
    pub const NEVER_AS_STRING: i32 = 0x1000;
    /// It's a ConVar that's shared between the client and the server.
    pub const REPLICATED: i32 = 0x2000;
    /// Only useable in singleplayer / debug / multiplayer & sv_cheats.
    pub const CHEAT: i32 = 0x4000;
    /// This var isn't archived, but is exposed to players, and its use is allowed in competitive play.
    pub const INTERNAL_USE: i32 = 0x8000;
    /// Record this cvar when starting a demo file.
    pub const DEMO: i32 = 0x1_0000;
    /// Don't record these commands in demofiles.
    pub const DONTRECORD: i32 = 0x2_0000;
    /// This convar can be changed in competitive (strict) settings mode even though it is not archived.
    pub const ALLOWED_IN_COMPETITIVE: i32 = 0x4_0000;
    /// Cvar is release.
    pub const RELEASE: i32 = 0x8_0000;
    /// If this cvar changes, it forces a material reload.
    pub const RELOAD_MATERIALS: i32 = 0x10_0000;
    /// If this cvar changes, it forces a texture reload.
    pub const RELOAD_TEXTURES: i32 = 0x20_0000;
    /// Cvar cannot be changed by a client that is connected to a server.
    pub const NOT_CONNECTED: i32 = 0x40_0000;
    /// Indicates this cvar is read from the material system thread.
    pub const MATERIAL_SYSTEM_THREAD: i32 = 0x80_0000;
    /// Cvar written to config.cfg on the Xbox.
    pub const ARCHIVE_GAMECONSOLE: i32 = 0x100_0000;
    /// Used as a debugging tool necessary to check material system thread convars.
    pub const ACCESSIBLE_FROM_THREADS: i32 = 0x200_0000;
    /// The server is allowed to execute this command on clients.
    pub const SERVER_CAN_EXECUTE: i32 = 0x1000_0000;
    /// If this is set, then the server is not allowed to query this cvar's value.
    pub const SERVER_CANNOT_QUERY: i32 = 0x2000_0000;
    /// IVEngineClient::ClientCmd is allowed to execute this command.
    pub const CLIENTCMD_CAN_EXECUTE: i32 = 0x4000_0000;

    /// The empty set of flags.
    pub fn empty() -> (r: CvarFlags)
        ensures
            r@ == 0,
    {
        CvarFlags { bits: 0 }
    }

    /// Every flag that this type names.
    pub fn all() -> (r: CvarFlags)
        ensures
            r@ == cvar_known_bits(),
    {
        CvarFlags { bits: 0x73FF_FFFF }
    }

    /// The flags with exactly these bits, named or not.
    pub fn from_bits_retain(bits: i32) -> (r: CvarFlags)
        ensures
            r@ == bits,
    {
        CvarFlags { bits }
    }

    /// The flags with these bits, dropping every bit that no flag names.
    pub fn from_bits_truncate(bits: i32) -> (r: CvarFlags)
        ensures
            r@ == bits & cvar_known_bits(),
    {
        CvarFlags { bits: bits & 0x73FF_FFFF }
    }

    /// The raw bits.
    pub fn bits(&self) -> (r: i32)
        ensures
            r == self@,
    {
        self.bits
    }

    /// Whether every flag of `other` is set in `self`.
    pub fn contains(&self, other: CvarFlags) -> (r: bool)
        ensures
            r == ((self@ & other@) == other@),
    {
        (self.bits & other.bits) == other.bits
    }

    /// The flags set in either.
    pub fn union(self, other: CvarFlags) -> (r: CvarFlags)
        ensures
            r@ == self@ | other@,
    {
        CvarFlags { bits: self.bits | other.bits }
    }
}

/// A ConVar whose raw flag bits are `raw` reports `flag` as set.
pub open spec fn flag_is_set(raw: i32, flag: i32) -> bool {
    (raw & cvar_known_bits() & flag) == flag
}

/// The flag-carrying state of a console variable: its raw flag bits, its
/// integer value and whether the engine has registered it.
pub struct ConVar {
    flags: i32,
    int_value: i32,
    registered: bool,
}

impl ConVar {
    /// The state read from a console variable.
    pub fn new(flags: i32, int_value: i32, registered: bool) -> (r: ConVar)
        ensures
            r.raw_flags_spec() == flags,
            r.int_value_spec() == int_value,
            r.registered_spec() == registered,
    {
        ConVar { flags, int_value, registered }
    }

    pub closed spec fn raw_flags_spec(&self) -> i32 {
        self.flags
    }

    pub closed spec fn int_value_spec(&self) -> i32 {
        self.int_value
    }

    pub closed spec fn registered_spec(&self) -> bool {
        self.registered
    }

    /// The raw flag bits, named or not, to be written back to the engine.
    pub fn raw_flags(&self) -> (r: i32)
        ensures
            r == self.raw_flags_spec(),
    {
        self.flags
    }

    /// Returns the ConVar's value as an integer.
    pub fn get_int(&self) -> (r: i32)
        ensures
            r == self.int_value_spec(),
    {
        self.int_value
    }

    /// Returns the ConVar's value as a boolean.
    pub fn get_bool(&self) -> (r: bool)
        ensures
            r == (self.int_value_spec() != 0),
    {
        self.get_int() != 0
    }

    /// Returns the ConVar's flags as a `CvarFlags` bitmask.
    pub fn get_flags(&self) -> (r: CvarFlags)
        ensures
            r@ == self.raw_flags_spec() & cvar_known_bits(),
    {
        CvarFlags::from_bits_truncate(self.flags)
    }

    /// Adds one or more flags to the ConVar's existing flags.
    pub fn add_flags(&mut self, flags_to_add: CvarFlags)
        ensures
            final(self).raw_flags_spec() == old(self).raw_flags_spec() | flags_to_add@,
            final(self).int_value_spec() == old(self).int_value_spec(),
            final(self).registered_spec() == old(self).registered_spec(),
    {
        self.flags = self.flags | flags_to_add.bits();
    }

    /// Removes one or more flags from the ConVar's existing flags.
    pub fn remove_flags(&mut self, flags_to_remove: CvarFlags)
        ensures
            final(self).raw_flags_spec() == old(self).raw_flags_spec() & !flags_to_remove@,
            final(self).int_value_spec() == old(self).int_value_spec(),
            final(self).registered_spec() == old(self).registered_spec(),
    {
        self.flags = self.flags & !flags_to_remove.bits();
    }

    /// Checks if a specific flag is set on the ConVar.
    pub fn is_flag_set(&self, flag: CvarFlags) -> (r: bool)
        ensures
            r == flag_is_set(self.raw_flags_spec(), flag@),
    {
        self.get_flags().contains(flag)
    }

    /// Checks if the ConVar has been registered with the engine's CVar system.
    pub fn is_registered(&self) -> (r: bool)
        ensures
            r == self.registered_spec(),
    {
        self.registered
    }
}

/// Once a named flag is added to a ConVar, the ConVar reports it as set.
pub proof fn lemma_added_flag_is_set(raw: i32, flag: CvarFlags)
    requires
        flag@ & cvar_known_bits() == flag@,
    ensures
        flag_is_set(raw | flag@, flag@),
{
    let f = flag@;
    assert((raw | f) & 0x73FF_FFFFi32 & f == f) by (bit_vector)
        requires
            f & 0x73FF_FFFFi32 == f,
    ;
}

/// Once a nonempty set of flags is removed from a ConVar, the ConVar no longer
/// reports it as set.
pub proof fn lemma_removed_flag_is_unset(raw: i32, flag: CvarFlags)
    requires
        flag@ != 0,
    ensures
        !flag_is_set(raw & !flag@, flag@),
{
    let f = flag@;
    assert((raw & !f) & 0x73FF_FFFFi32 & f != f) by (bit_vector)
        requires
            f != 0,
    ;
}

/// Adding flags that were not set and then removing them gives back the
/// flag bits that the ConVar had before.
pub proof fn lemma_remove_undoes_add(raw: i32, flag: CvarFlags)
    requires
        raw & flag@ == 0,
    ensures
        (raw | flag@) & !flag@ == raw,
{
    let f = flag@;
    assert((raw | f) & !f == raw) by (bit_vector)
        requires
            raw & f == 0,
    ;
}

/// Adding the same flags twice, or removing them twice, is the same as doing it once.
pub proof fn lemma_add_remove_idempotent(raw: i32, flag: CvarFlags)
    ensures
        (raw | flag@) | flag@ == raw | flag@,
        (raw & !flag@) & !flag@ == raw & !flag@,
{
    let f = flag@;
    assert((raw | f) | f == raw | f) by (bit_vector);
    assert((raw & !f) & !f == raw & !f) by (bit_vector);
}

/// The flags that a ConVar reports never hold a bit that no flag names.
pub proof fn lemma_reported_flags_are_named(raw: i32)
    ensures
        (raw & cvar_known_bits()) & cvar_known_bits() == raw & cvar_known_bits(),
{
    assert((raw & 0x73FF_FFFFi32) & 0x73FF_FFFFi32 == raw & 0x73FF_FFFFi32) by (bit_vector);
}

impl CvarFlags {
    /// The flags with these bits, or `None` where a bit is set that no flag names.
    pub fn from_bits(bits: i32) -> (r: Option<CvarFlags>)
        ensures
            match r {
                Some(f) => bits & cvar_known_bits() == bits && f@ == bits,
                None => bits & cvar_known_bits() != bits,
            },
    {
        let truncated = CvarFlags::from_bits_truncate(bits);
        if truncated.bits() == bits {
            Some(truncated)
        } else {
            None
        }
    }

    /// Whether no bit is set.
    pub fn is_empty(&self) -> (r: bool)
        ensures
            r == (self@ == 0),
    {
        self.bits == 0
    }

    /// Whether every flag that this type names is set.
    pub fn is_all(&self) -> (r: bool)
        ensures
            r == ((cvar_known_bits()) | self@ == self@),
    {
        (0x73FF_FFFFi32 | self.bits) == self.bits
    }

    /// Whether `self` and `other` have a set bit in common.
    pub fn intersects(&self, other: CvarFlags) -> (r: bool)
        ensures
            r == (self@ & other@ != 0),
    {
        (self.bits & other.bits) != 0
    }

    /// The bits set in both.
    pub fn intersection(self, other: CvarFlags) -> (r: CvarFlags)
        ensures
            r@ == self@ & other@,
    {
        CvarFlags { bits: self.bits & other.bits }
    }

    /// The bits of `self` that are not set in `other`.
    pub fn difference(self, other: CvarFlags) -> (r: CvarFlags)
        ensures
            r@ == self@ & !other@,
    {
        CvarFlags { bits: self.bits & !other.bits }
    }

    /// The bits set in exactly one of the two.
    pub fn symmetric_difference(self, other: CvarFlags) -> (r: CvarFlags)
        ensures
            r@ == self@ ^ other@,
    {
        CvarFlags { bits: self.bits ^ other.bits }
    }

    /// The named flags that are not set in `self`.
    pub fn complement(self) -> (r: CvarFlags)
        ensures
            r@ == !self@ & cvar_known_bits(),
    {
        CvarFlags::from_bits_truncate(!self.bits)
    }

    /// Sets the bits of `other`.
    pub fn insert(&mut self, other: CvarFlags)
        ensures
            final(self)@ == old(self)@ | other@,
    {
        self.bits = self.bits | other.bits;
    }

    /// Clears the bits of `other`.
    pub fn remove(&mut self, other: CvarFlags)
        ensures
            final(self)@ == old(self)@ & !other@,
    {
        self.bits = self.bits & !other.bits;
    }

    /// Flips the bits of `other`.
    pub fn toggle(&mut self, other: CvarFlags)
        ensures
            final(self)@ == old(self)@ ^ other@,
    {
        self.bits = self.bits ^ other.bits;
    }

    /// Sets the bits of `other` where `value` holds, and clears them where it does not.
    pub fn set(&mut self, other: CvarFlags, value: bool)
        ensures
            final(self)@ == (if value {
                old(self)@ | other@
            } else {
                old(self)@ & !other@
            }),
    {
        if value {
            self.insert(other);
        } else {
            self.remove(other);
        }
    }
}

impl core::ops::BitOr for CvarFlags {
    type Output = CvarFlags;

    /// The union of the two.
    fn bitor(self, rhs: CvarFlags) -> (r: CvarFlags)
        ensures
            r@ == self@ | rhs@,
    {
        self.union(rhs)
    }
}

impl vstd::std_specs::ops::BitOrSpecImpl for CvarFlags {
    open spec fn obeys_bitor_spec() -> bool {
        true
    }

    open spec fn bitor_req(self, rhs: CvarFlags) -> bool {
        true
    }

    open spec fn bitor_spec(self, rhs: CvarFlags) -> CvarFlags {
        CvarFlags { bits: self.bits | rhs.bits }
    }
}

impl core::ops::BitAnd for CvarFlags {
    type Output = CvarFlags;

    /// The intersection of the two.
    fn bitand(self, rhs: CvarFlags) -> (r: CvarFlags)
        ensures
            r@ == self@ & rhs@,
    {
        self.intersection(rhs)
    }
}

impl vstd::std_specs::ops::BitAndSpecImpl for CvarFlags {
    open spec fn obeys_bitand_spec() -> bool {
        true
    }

    open spec fn bitand_req(self, rhs: CvarFlags) -> bool {
        true
    }

    open spec fn bitand_spec(self, rhs: CvarFlags) -> CvarFlags {
        CvarFlags { bits: self.bits & rhs.bits }
    }
}

impl core::ops::BitXor for CvarFlags {
    type Output = CvarFlags;

    /// The symmetric difference of the two.
    fn bitxor(self, rhs: CvarFlags) -> (r: CvarFlags)
        ensures
            r@ == self@ ^ rhs@,
    {
        self.symmetric_difference(rhs)
    }
}

impl vstd::std_specs::ops::BitXorSpecImpl for CvarFlags {
    open spec fn obeys_bitxor_spec() -> bool {
        true
    }

    open spec fn bitxor_req(self, rhs: CvarFlags) -> bool {
        true
    }

    open spec fn bitxor_spec(self, rhs: CvarFlags) -> CvarFlags {
        CvarFlags { bits: self.bits ^ rhs.bits }
    }
}

impl core::ops::Sub for CvarFlags {
    type Output = CvarFlags;

    /// The difference of the two.
    fn sub(self, rhs: CvarFlags) -> (r: CvarFlags)
        ensures
            r@ == self@ & !rhs@,
    {
        self.difference(rhs)
    }
}

impl vstd::std_specs::ops::SubSpecImpl for CvarFlags {
    open spec fn obeys_sub_spec() -> bool {
        true
    }

    open spec fn sub_req(self, rhs: CvarFlags) -> bool {
        true
    }

    open spec fn sub_spec(self, rhs: CvarFlags) -> CvarFlags {
        CvarFlags { bits: self.bits & !rhs.bits }
    }
}

impl core::ops::Not for CvarFlags {
    type Output = CvarFlags;

    /// The complement.
    fn not(self) -> (r: CvarFlags)
        ensures
            r@ == !self@ & cvar_known_bits(),
    {
        self.complement()
    }
}

impl vstd::std_specs::ops::NotSpecImpl for CvarFlags {
    open spec fn obeys_not_spec() -> bool {
        true
    }

    open spec fn not_req(self) -> bool {
        true
    }

    open spec fn not_spec(self) -> CvarFlags {
        CvarFlags { bits: !self.bits & cvar_known_bits() }
    }
}

/// The operators on console-variable flags are the set operations on their bits: `|` is the
/// union, `&` the intersection, `^` the symmetric difference, `-` the
/// difference and `!` the complement within the named flags. A union holds
/// both operands, both operands hold their intersection, and a difference
/// shares no bit with what was taken away.
pub proof fn lemma_cvar_flags_operators(a: CvarFlags, b: CvarFlags)
    ensures
        a.bitor_spec(b)@ == a@ | b@,
        a.bitand_spec(b)@ == a@ & b@,
        a.bitxor_spec(b)@ == a@ ^ b@,
        a.sub_spec(b)@ == a@ & !b@,
        a.not_spec()@ == !a@ & cvar_known_bits(),
        a.bitor_spec(b)@ & a@ == a@,
        a.bitor_spec(b)@ & b@ == b@,
        a@ & a.bitand_spec(b)@ == a.bitand_spec(b)@,
        b@ & a.bitand_spec(b)@ == a.bitand_spec(b)@,
        a.sub_spec(b)@ & b@ == 0,
{
    crate::masks::lemma_bits_i32(a@, b@);
}

} // verus!
