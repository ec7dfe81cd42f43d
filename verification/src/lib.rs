//! Verified core of a Source Engine (Portal 2) plugin SDK: the parts of the SDK
//! that decide and compute, proved against their contracts.
//!
//! - `memory`: scanning a module's memory image for a byte signature.
//! - `text`: characters of engine strings and integer parsing.
//! - `cvar`: console-variable flags and the flag state of a console variable.
//! - `masks`: contents, trace-mask and surface flags.
//! - `trace`: hit groups, surface queries and what a trace result hit.
//! - `entity`: entity handles and the decisions taken on entity key values.
//! - `entities`: the walk over the server's entity list.
//! - `game_events`: the registry of game-event listeners.
//! - `player`, `keyvalues`, `opaque`: identifiers, type tags and engine-owned types.
pub mod cvar;
pub mod entities;
pub mod entity;
pub mod game_events;
pub mod keyvalues;
pub mod masks;
pub mod memory;
pub mod opaque;
pub mod player;
pub mod text;
pub mod trace;

pub use cvar::{ConVar, CvarFlags};
pub use entities::{EntityIterState, EntityQuery};
pub use entity::{CBaseEntity, CBaseHandle, Edict, IClientEntity, IServerEntity, IServerNetworkable};
pub use game_events::{EventRegistry, ListenerId};
pub use keyvalues::{KeyValuesType, StringT};
pub use masks::{ContentsFlags, MaskFlags, SurfaceFlags};
pub use memory::{find_fn, find_pattern};
pub use player::CSteamID;
pub use trace::{csurface_t, HitGroup, TraceTypeT};
