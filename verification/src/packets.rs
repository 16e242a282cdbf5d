//! What a session asks its transport to send. The session queues packets in
//! the order in which they are to leave; encoding them for the wire and
//! sending them is the transport's part.

use vstd::prelude::*;
use crate::number::{Binary32, Binary64};

verus! {

/// Why the state of the game changes for a client.
#[derive(Clone, Copy, PartialEq, Eq, Structural, Debug)]
pub enum GameStateReason {
    ChangeGamemode,
}

/// Position of a chat message on the client's screen: the chat box.
pub const CHAT_POSITION_CHAT: i32 = 0;

/// Position of a chat message on the client's screen: a system message.
pub const CHAT_POSITION_SYSTEM: i32 = 1;

/// Flags of a position update: pitch and yaw are relative to the client's own.
pub const RELATIVE_ROTATION: u8 = 0x18;

/// One outbound packet.
#[derive(Debug, PartialEq, Eq)]
#[allow(inconsistent_fields)]
pub enum Packet {
    /// A heartbeat; `id` is the wall-clock time in seconds.
    KeepAlive { id: i64 },
    /// Moves the client to a position.
    PlayerPositionAndLook {
        x: Binary64,
        y: Binary64,
        z: Binary64,
        yaw: Binary32,
        pitch: Binary32,
        flags: u8,
        teleport_id: i32,
    },
    /// A chat component in JSON, with its sender and its place on screen.
    ChatMessage { message: String, sender: u128, position: i32 },
    /// Ends the connection from the client's side, with a reason in JSON.
    Disconnect { reason: String },
    /// A payload on a named auxiliary channel.
    PluginMessage { channel: String, data: Vec<u8> },
    /// What the client may do. The transport scales `fly_speed`, the
    /// session's multiplier, to the speed that the protocol carries.
    PlayerAbilities { flags: u8, fly_speed: Binary32 },
    /// A change of game state; for a change of game mode `value` is the
    /// mode's identifier.
    ChangeGameState { reason: GameStateReason, value: u32 },
}

/// A packet with its text and bytes as mathematical sequences.
#[allow(inconsistent_fields)]
pub ghost enum PacketView {
    KeepAlive { id: i64 },
    PlayerPositionAndLook {
        x: Binary64,
        y: Binary64,
        z: Binary64,
        yaw: Binary32,
        pitch: Binary32,
        flags: u8,
        teleport_id: i32,
    },
    ChatMessage { message: Seq<char>, sender: u128, position: i32 },
    Disconnect { reason: Seq<char> },
    PluginMessage { channel: Seq<char>, data: Seq<u8> },
    PlayerAbilities { flags: u8, fly_speed: Binary32 },
    ChangeGameState { reason: GameStateReason, value: u32 },
}

impl View for Packet {
    type V = PacketView;

    open spec fn view(&self) -> PacketView {
        match *self {
            Packet::KeepAlive { id } => PacketView::KeepAlive { id },
            Packet::PlayerPositionAndLook { x, y, z, yaw, pitch, flags, teleport_id } =>
                PacketView::PlayerPositionAndLook { x, y, z, yaw, pitch, flags, teleport_id },
            Packet::ChatMessage { message, sender, position } => PacketView::ChatMessage {
                message: message@,
                sender,
                position,
            },
            Packet::Disconnect { reason } => PacketView::Disconnect { reason: reason@ },
            Packet::PluginMessage { channel, data } => PacketView::PluginMessage {
                channel: channel@,
                data: data@,
            },
            Packet::PlayerAbilities { flags, fly_speed } => PacketView::PlayerAbilities {
                flags,
                fly_speed,
            },
            Packet::ChangeGameState { reason, value } => PacketView::ChangeGameState {
                reason,
                value,
            },
        }
    }
}

/// A queue of packets as the sequence of their views, oldest first.
pub open spec fn packet_views(queue: Seq<Packet>) -> Seq<PacketView> {
    queue.map_values(|packet: Packet| packet@)
}

} // verus!
