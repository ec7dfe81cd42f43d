//! Player identifiers.
use vstd::prelude::*;

verus! {

/// A 64-bit Steam identifier (SteamID64).
#[derive(Debug, Clone, Copy, PartialEq, Eq, Structural, Hash)]
pub struct CSteamID(pub u64);

impl CSteamID {
    /// Extracts the Account ID: the lower 32 bits of the SteamID64.
    pub fn account_id(&self) -> (r: u32)
        ensures
            r as int == self.0 as int % 0x1_0000_0000,
    {
        let raw: u64 = self.0;
        let low: u64 = raw & 0xFFFF_FFFFu64;
        assert(raw & 0xFFFF_FFFFu64 == raw % 0x1_0000_0000) by (bit_vector);
        low as u32
    }

    /// Returns `true` if the SteamID is valid (not zero).
    pub fn is_valid(&self) -> (r: bool)
        ensures
            r == (self.0 != 0),
    {
        self.0 != 0
    }
}

} // verus!

verus! {

/// A network send table.
pub struct SendTable {
    _private: (),
}

/// Statistics of a client's network channel.
pub struct INetChannelInfo {
    _private: (),
}

/// A bit vector with one bit per player.
pub struct CPlayerBitVec {
    _private: (),
}

/// The engine's state of a player.
pub struct CPlayerState {
    _private: (),
}

} // verus!
