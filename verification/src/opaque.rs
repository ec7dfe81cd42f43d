//! Engine-owned types that the SDK only ever handles by reference.
use vstd::prelude::*;

verus! {

/// A loaded model.
pub struct ModelT {
    _private: (),
}

/// A client text message.
pub struct ClientTextMessage {
    _private: (),
}

/// A sentence of the sentence system.
pub struct CSentence {
    _private: (),
}

/// An audio source.
pub struct CAudioSource {
    _private: (),
}

/// A spatial query interface.
pub struct ISpatialQuery {
    _private: (),
}

/// The material system.
pub struct IMaterialSystem {
    _private: (),
}

/// The achievement manager.
pub struct IAchievementMgr {
    _private: (),
}

/// A filter of message recipients.
pub struct IRecipientFilter {
    _private: (),
}

/// Potentially-visible-set information of an entity.
pub struct PVSInfoT {
    _private: (),
}

/// Single-player shared memory.
pub struct ISPSharedMemory {
    _private: (),
}

/// A plane of the visibility system.
pub struct VPlane {
    _private: (),
}

/// An input context of the input stack system.
pub struct InputContextT {
    _private: (),
}

} // verus!
