//! Session core of one connected participant of a world-editing game server:
//! identity derivation, the persisted record, liveness, orientation and the
//! region-selection and undo state.

pub mod identity;
pub mod number;
pub mod blocks;
pub mod text;
pub mod packets;
pub mod record;
pub mod worldedit;
pub mod player;
