//! The live state of one connected participant.
//!
//! A session is owned by the handler of its connection. It does no input or
//! output of its own: the handler reads the clocks and the stored record and
//! hands them in, and sends on what the session has put in its outbox.

use vstd::prelude::*;
use vstd::string::*;
use vstd::utf8::*;
use crate::blocks::{block_cell, cell_of, BlockDirection, BlockFacing, BlockPos};
use crate::blocks::{rotation_facing, yaw_direction};
use crate::identity::{derive_offline_uuid, hyphenated_text, offline_uuid};
use crate::identity::{variant_of, version_of};
use vstd::arithmetic::power2::*;
use crate::number::{Binary32, Binary64, Dyadic, Number};
use crate::packets::{packet_views, GameStateReason, Packet, PacketView};
use crate::packets::{CHAT_POSITION_CHAT, CHAT_POSITION_SYSTEM, RELATIVE_ROTATION};
use crate::record::{empty_inventory, empty_slots, entries_of, entry_views, inventory_of};
use crate::record::{lemma_inventory_round_trip, occupied_entries, placed, slots_in_range};
use crate::record::{signed32, stack_views, to_signed32, to_unsigned32, unsigned32};
use crate::record::{Gamemode, ItemStack, PlayerData, INVENTORY_SIZE};
use crate::text::{colored_component, colored_text_json, plain_component, plain_text_json};
use crate::worldedit::{corner_on_side, cui_channel, cui_message, cui_notice, near_side};
use crate::worldedit::{position_message, position_notice, undo_popped, undo_pushed, undo_taken};
use crate::worldedit::{WorldEditClipboard, WorldEditPosition, WorldEditUndo};

verus! {

/// The parts of a skin that a client shows, one bit each.
#[derive(Clone, Copy, PartialEq, Eq, Structural, Debug)]
pub struct SkinParts {
    pub bits: u32,
}

/// The cape.
pub const SKIN_CAPE: u32 = 0x01;

/// The jacket.
pub const SKIN_JACKET: u32 = 0x02;

/// The left sleeve.
pub const SKIN_LEFT_SLEEVE: u32 = 0x04;

/// The right sleeve.
pub const SKIN_RIGHT_SLEEVE: u32 = 0x08;

/// The left leg of the pants.
pub const SKIN_LEFT_PANTS_LEG: u32 = 0x10;

/// The right leg of the pants.
pub const SKIN_RIGHT_PANTS_LEG: u32 = 0x20;

/// The hat.
pub const SKIN_HAT: u32 = 0x40;

/// Bits of the coordinate 128, where a new participant stands on each axis.
pub const SPAWN_COORDINATE: u64 = 0x4060_0000_0000_0000;

/// The grid cell of the coordinate 128.
pub const SPAWN_CELL: i32 = 8;

/// Bits of the speed multiplier 1.
pub const UNIT_SPEED: u32 = 0x3f80_0000;

/// Bits of the number 0, in either width.
pub const ZERO_BITS: u32 = 0;

/// Nanoseconds in a second.
pub const NANOS_PER_SECOND: u64 = 1_000_000_000;

/// A heartbeat is sent once more than this many seconds have passed since
/// the last one.
pub const KEEP_ALIVE_INTERVAL: u64 = 10;

/// A session has timed out once more than this many seconds have passed
/// since the client's last heartbeat.
pub const KEEP_ALIVE_TIMEOUT: u64 = 30;

/// What the store holds for an identity.
#[derive(Debug)]
pub enum StoredRecord {
    /// Nothing was stored.
    Missing,
    /// Something was stored that cannot be read as a record.
    Unreadable,
    /// A record.
    Found(PlayerData),
}

/// One connected participant.
pub struct Player {
    pub uuid: u128,
    pub username: String,
    pub skin_parts: SkinParts,
    pub inventory: Vec<Option<ItemStack>>,
    /// The selected slot of the player's hotbar (1-9)
    pub selected_slot: u32,
    pub x: Binary64,
    pub y: Binary64,
    pub z: Binary64,
    /// The last X chunk the player was in. This is used for updated view position.
    pub last_chunk_x: i32,
    /// The last Z chunk the player was in. This is used for updated view position.
    pub last_chunk_z: i32,
    /// The player's head yaw rotation.
    pub yaw: Binary32,
    /// The player's head pitch rotation.
    pub pitch: Binary32,
    pub flying: bool,
    pub sprinting: bool,
    pub crouching: bool,
    pub on_ground: bool,
    pub fly_speed: Binary32,
    pub walk_speed: Binary32,
    pub gamemode: Gamemode,
    pub entity_id: u32,
    /// Packets that wait to be sent, oldest first.
    pub outbox: Vec<Packet>,
    /// The last time the keep alive packet was received, in nanoseconds of
    /// the monotonic clock.
    pub last_keep_alive_received: u64,
    /// The last time the keep alive packet was sent, on the same clock.
    pub last_keep_alive_sent: u64,
    /// The worldedit first position.
    pub first_position: Option<BlockPos>,
    /// The worldedit second position.
    pub second_position: Option<BlockPos>,
    /// The worldedit current clipboard.
    pub worldedit_clipboard: Option<WorldEditClipboard>,
    /// The saved sections used for worldedit //undo
    /// Each entry stores the plot coords and the clipboard
    pub worldedit_undo: Vec<WorldEditUndo>,
    /// Commands are stored so they can be handled after packets
    pub command_queue: Vec<String>,
}

/// Whether more than `seconds` seconds have passed from `then` to `now` on
/// the monotonic clock. The clock counts nanoseconds, and a part of a second
/// beyond `seconds` is more than `seconds`. Nothing has passed where `then`
/// is not in the past.
pub open spec fn more_than_seconds(now: u64, then: u64, seconds: u64) -> bool {
    now > then && now - then > seconds * NANOS_PER_SECOND
}

/// Computes `more_than_seconds`.
pub fn has_passed(now: u64, then: u64, seconds: u64) -> (passed: bool)
    ensures
        passed == more_than_seconds(now, then, seconds),
{
    if now <= then {
        return false;
    }
    let elapsed: u64 = now - then;
    let whole: u64 = elapsed / NANOS_PER_SECOND;
    let rest: u64 = elapsed % NANOS_PER_SECOND;
    whole > seconds || (whole == seconds && rest > 0)
}

impl PlayerData {
    /// Whether a session can be built from the record: it has a position and
    /// a rotation, and every entry of its inventory names a slot.
    pub open spec fn restorable(&self) -> bool {
        &&& self.position@.len() >= 3
        &&& self.rotation@.len() >= 2
        &&& slots_in_range(entry_views(self.inventory@))
    }
}

impl Player {
    /// What holds of every session: its inventory has all its slots.
    pub open spec fn wf(&self) -> bool {
        self.inventory@.len() == INVENTORY_SIZE
    }

    /// The queued packets as mathematical values, oldest first.
    pub open spec fn outbox_view(&self) -> Seq<PacketView> {
        packet_views(self.outbox@)
    }

    /// The grid cell of the position, along x.
    pub open spec fn cell_x(&self) -> int {
        cell_of(self.x.value().block())
    }

    /// The grid cell of the position, along z.
    pub open spec fn cell_z(&self) -> int {
        cell_of(self.z.value().block())
    }

    /// Whether the position lies in another grid cell than the one recorded.
    pub open spec fn cell_changed(&self) -> bool {
        self.cell_x() != self.last_chunk_x || self.cell_z() != self.last_chunk_z
    }

    /// Whether the client has been silent for too long at `now`.
    pub open spec fn timed_out(&self, now: u64) -> bool {
        now > self.last_keep_alive_received && now - self.last_keep_alive_received
            > KEEP_ALIVE_TIMEOUT * NANOS_PER_SECOND
    }

    /// Whether a heartbeat is to be sent at `now`.
    pub open spec fn heartbeat_due(&self, now: u64) -> bool {
        now > self.last_keep_alive_sent && now - self.last_keep_alive_sent > KEEP_ALIVE_INTERVAL
            * NANOS_PER_SECOND
    }

    /// Whether this is the session of a participant of whom nothing is
    /// stored: at the spawn point, in creative mode, with neutral speeds and
    /// an empty inventory.
    pub open spec fn is_new(&self, uuid: u128, username: Seq<char>, entity_id: u32, now: u64) -> bool {
        &&& self.uuid == uuid
        &&& self.username@ == username
        &&& self.skin_parts == (SkinParts { bits: 0 })
        &&& self.inventory@.len() == INVENTORY_SIZE
        &&& stack_views(self.inventory@) == empty_slots()
        &&& self.selected_slot == 0
        &&& self.x == (Binary64 { bits: SPAWN_COORDINATE })
        &&& self.y == (Binary64 { bits: SPAWN_COORDINATE })
        &&& self.z == (Binary64 { bits: SPAWN_COORDINATE })
        &&& self.last_chunk_x == SPAWN_CELL
        &&& self.last_chunk_z == SPAWN_CELL
        &&& self.yaw == (Binary32 { bits: ZERO_BITS })
        &&& self.pitch == (Binary32 { bits: ZERO_BITS })
        &&& !self.flying
        &&& !self.sprinting
        &&& !self.crouching
        &&& self.on_ground
        &&& self.fly_speed == (Binary32 { bits: UNIT_SPEED })
        &&& self.walk_speed == (Binary32 { bits: UNIT_SPEED })
        &&& self.gamemode == Gamemode::Creative
        &&& self.entity_id == entity_id
        &&& self.outbox@.len() == 0
        &&& self.last_keep_alive_received == now
        &&& self.last_keep_alive_sent == now
        &&& self.first_position is None
        &&& self.second_position is None
        &&& self.worldedit_clipboard is None
        &&& self.worldedit_undo@.len() == 0
        &&& self.command_queue@.len() == 0
    }

    /// Whether this is the session that the record `data` stands for. The
    /// recorded grid cell is (0, 0), whatever the position.
    pub open spec fn is_restored_from(
        &self,
        uuid: u128,
        username: Seq<char>,
        entity_id: u32,
        now: u64,
        data: PlayerData,
    ) -> bool {
        &&& self.uuid == uuid
        &&& self.username@ == username
        &&& self.skin_parts == (SkinParts { bits: 0 })
        &&& self.inventory@.len() == INVENTORY_SIZE
        &&& stack_views(self.inventory@) == placed(entry_views(data.inventory@))
        &&& self.selected_slot == unsigned32(data.selected_item_slot)
        &&& self.x == data.position@[0]
        &&& self.y == data.position@[1]
        &&& self.z == data.position@[2]
        &&& self.pitch == data.rotation@[0]
        &&& self.yaw == data.rotation@[1]
        &&& self.last_chunk_x == 0
        &&& self.last_chunk_z == 0
        &&& self.flying == data.flying
        &&& !self.sprinting
        &&& !self.crouching
        &&& self.on_ground == data.on_ground
        &&& self.fly_speed == data.fly_speed
        &&& self.walk_speed == data.walk_speed
        &&& self.gamemode == data.gamemode
        &&& self.entity_id == entity_id
        &&& self.outbox@.len() == 0
        &&& self.last_keep_alive_received == now
        &&& self.last_keep_alive_sent == now
        &&& self.first_position is None
        &&& self.second_position is None
        &&& self.worldedit_clipboard is None
        &&& self.worldedit_undo@.len() == 0
        &&& self.command_queue@.len() == 0
    }

    /// Whether `data` is this session written down: its flags, position,
    /// rotation, speeds, mode and selected slot, no motion, and one entry for
    /// each slot that holds a stack.
    pub open spec fn is_saved_as(&self, data: PlayerData) -> bool {
        &&& data.on_ground == self.on_ground
        &&& data.flying == self.flying
        &&& data.motion@ == seq![
            Binary64 { bits: 0 },
            Binary64 { bits: 0 },
            Binary64 { bits: 0 },
        ]
        &&& data.position@ == seq![self.x, self.y, self.z]
        &&& data.rotation@ == seq![self.pitch, self.yaw]
        &&& entry_views(data.inventory@) == occupied_entries(
            stack_views(self.inventory@),
            INVENTORY_SIZE as nat,
        )
        &&& data.selected_item_slot == signed32(self.selected_slot)
        &&& data.fly_speed == self.fly_speed
        &&& data.walk_speed == self.walk_speed
        &&& data.gamemode == self.gamemode
    }

    /// Derives the identity of a display name that no authentication named.
    pub fn generate_offline_uuid(username: &str) -> (uuid: u128)
        ensures
            uuid == offline_uuid(username@),
            version_of(uuid) == 3,
            variant_of(uuid) == 2,
    {
        derive_offline_uuid(username)
    }

    /// Renders an identity in the usual hyphenated form.
    pub fn uuid_with_hyphens(uuid: u128) -> (text: String)
        ensures
            text@ == hyphenated_text(uuid),
    {
        crate::identity::uuid_with_hyphens(uuid)
    }

    /// Returns the default player struct
    pub fn create_player(uuid: u128, username: String, entity_id: u32, now: u64) -> (player: Player)
        ensures
            player.is_new(uuid, username@, entity_id, now),
            player.wf(),
            !player.cell_changed(),
    {
        proof {
            lemma_spawn_cell();
        }
        Player {
            uuid,
            username,
            skin_parts: SkinParts { bits: 0 },
            selected_slot: 0,
            x: Binary64 { bits: SPAWN_COORDINATE },
            y: Binary64 { bits: SPAWN_COORDINATE },
            z: Binary64 { bits: SPAWN_COORDINATE },
            last_chunk_x: SPAWN_CELL,
            last_chunk_z: SPAWN_CELL,
            yaw: Binary32 { bits: ZERO_BITS },
            pitch: Binary32 { bits: ZERO_BITS },
            entity_id,
            outbox: Vec::new(),
            inventory: empty_inventory(),
            flying: false,
            sprinting: false,
            crouching: false,
            gamemode: Gamemode::Creative,
            fly_speed: Binary32 { bits: UNIT_SPEED },
            walk_speed: Binary32 { bits: UNIT_SPEED },
            on_ground: true,
            last_keep_alive_received: now,
            last_keep_alive_sent: now,
            first_position: None,
            second_position: None,
            worldedit_clipboard: None,
            worldedit_undo: Vec::new(),
            command_queue: Vec::new(),
        }
    }

    /// Builds the session of a participant from what the store holds for the
    /// identity. Where nothing is stored the session is new. Where what is
    /// stored cannot be read, or a session cannot be built from it, the
    /// session is new as well and `reset` tells the caller to warn that the
    /// stored state was given up.
    pub fn load_player(
        uuid: u128,
        username: String,
        entity_id: u32,
        record: StoredRecord,
        now: u64,
    ) -> (loaded: (Player, bool))
        ensures
            loaded.0.wf(),
            match record {
                StoredRecord::Missing => loaded.0.is_new(uuid, username@, entity_id, now)
                    && !loaded.1,
                StoredRecord::Unreadable => loaded.0.is_new(uuid, username@, entity_id, now)
                    && loaded.1,
                StoredRecord::Found(data) => if data.restorable() {
                    loaded.0.is_restored_from(uuid, username@, entity_id, now, data) && !loaded.1
                } else {
                    loaded.0.is_new(uuid, username@, entity_id, now) && loaded.1
                },
            },
    {
        match record {
            StoredRecord::Missing => (Player::create_player(uuid, username, entity_id, now), false),
            StoredRecord::Unreadable => (
                Player::create_player(uuid, username, entity_id, now),
                true,
            ),
            StoredRecord::Found(data) => {
                if data.position.len() < 3 || data.rotation.len() < 2 {
                    return (Player::create_player(uuid, username, entity_id, now), true);
                }
                // Load inventory
                match inventory_of(&data.inventory) {
                    None => (Player::create_player(uuid, username, entity_id, now), true),
                    Some(inventory) => (
                        Player {
                            uuid,
                            username,
                            skin_parts: SkinParts { bits: 0 },
                            inventory,
                            selected_slot: to_unsigned32(data.selected_item_slot),
                            x: data.position[0],
                            y: data.position[1],
                            z: data.position[2],
                            pitch: data.rotation[0],
                            yaw: data.rotation[1],
                            last_chunk_x: 0,
                            last_chunk_z: 0,
                            entity_id,
                            outbox: Vec::new(),
                            flying: data.flying,
                            sprinting: false,
                            crouching: false,
                            gamemode: data.gamemode,
                            on_ground: data.on_ground,
                            walk_speed: data.walk_speed,
                            fly_speed: data.fly_speed,
                            last_keep_alive_received: now,
                            last_keep_alive_sent: now,
                            first_position: None,
                            second_position: None,
                            worldedit_clipboard: None,
                            worldedit_undo: Vec::new(),
                            command_queue: Vec::new(),
                        },
                        false,
                    ),
                }
            },
        }
    }

    /// Writes the session down as the record to be stored.
    pub fn save(&self) -> (data: PlayerData)
        requires
            self.wf(),
        ensures
            self.is_saved_as(data),
            data.restorable(),
    {
        let inventory = entries_of(&self.inventory);
        proof {
            lemma_inventory_round_trip(stack_views(self.inventory@));
        }
        let zero = Binary64 { bits: 0 };
        let mut motion: Vec<Binary64> = Vec::new();
        motion.push(zero);
        motion.push(zero);
        motion.push(zero);
        let mut position: Vec<Binary64> = Vec::new();
        position.push(self.x);
        position.push(self.y);
        position.push(self.z);
        let mut rotation: Vec<Binary32> = Vec::new();
        rotation.push(self.pitch);
        rotation.push(self.yaw);
        let data = PlayerData {
            fly_speed: self.fly_speed,
            flying: self.flying,
            gamemode: self.gamemode,
            inventory,
            motion,
            on_ground: self.on_ground,
            position,
            rotation,
            selected_item_slot: to_signed32(self.selected_slot),
            walk_speed: self.walk_speed,
        };
        assert(data.motion@ =~= seq![zero, zero, zero]);
        assert(data.position@ =~= seq![self.x, self.y, self.z]);
        assert(data.rotation@ =~= seq![self.pitch, self.yaw]);
        data
    }
}

/// The flags of what a participant may do: invulnerable, allowed to fly and
/// in creative mode always, and flying where `flying`.
pub open spec fn ability_flags(flying: bool) -> u8 {
    if flying {
        0x0f
    } else {
        0x0d
    }
}

/// The packets that `update` queues for a session at `now`: a notice that
/// the session timed out where it did, then a heartbeat where one is due.
pub open spec fn liveness_packets(player: Player, now: u64, unix_seconds: i64) -> Seq<PacketView> {
    let notice = if player.timed_out(now) {
        seq![PacketView::Disconnect { reason: plain_component("Timed out."@) }]
    } else {
        Seq::empty()
    };
    let heartbeat = if player.heartbeat_due(now) {
        seq![PacketView::KeepAlive { id: unix_seconds }]
    } else {
        Seq::empty()
    };
    notice + heartbeat
}

impl Player {
    /// Tells whether the session is well formed.
    pub fn is_well_formed(&self) -> (ok: bool)
        ensures
            ok == self.wf(),
    {
        self.inventory.len() == INVENTORY_SIZE
    }

    /// Puts a packet at the end of the outbox.
    fn send_packet(&mut self, packet: Packet)
        ensures
            final(self).outbox_view() == old(self).outbox_view().push(packet@),
            *final(self) == (Player { outbox: final(self).outbox, ..*old(self) }),
    {
        self.outbox.push(packet);
        assert(self.outbox_view() =~= old(self).outbox_view().push(packet@));
    }

    /// Hands over the packets that wait to be sent, oldest first, and leaves
    /// the outbox empty.
    pub fn take_outbox(&mut self) -> (packets: Vec<Packet>)
        ensures
            packets@ == old(self).outbox@,
            final(self).outbox@.len() == 0,
            *final(self) == (Player { outbox: final(self).outbox, ..*old(self) }),
    {
        let mut packets: Vec<Packet> = Vec::new();
        std::mem::swap(&mut self.outbox, &mut packets);
        packets
    }

    /// Manages keep alives. Return true if the view position should be updated.
    ///
    /// `now` is the monotonic clock in nanoseconds, `unix_seconds` the wall
    /// clock. A session whose client has been silent for more than 30
    /// seconds is told that it timed out; a heartbeat goes out once more
    /// than 10 seconds have passed since the last one. Both are measured to
    /// the nanosecond: half a second past the limit is past the limit. The recorded grid
    /// cell is left as it is: the caller brings it up to date.
    pub fn update(&mut self, now: u64, unix_seconds: i64) -> (moved: bool)
        ensures
            moved == old(self).cell_changed(),
            final(self).outbox_view() == old(self).outbox_view() + liveness_packets(
                *old(self),
                now,
                unix_seconds,
            ),
            final(self).last_keep_alive_sent == if old(self).heartbeat_due(now) {
                now
            } else {
                old(self).last_keep_alive_sent
            },
            *final(self) == (Player {
                outbox: final(self).outbox,
                last_keep_alive_sent: final(self).last_keep_alive_sent,
                ..*old(self)
            }),
    {
        if has_passed(now, self.last_keep_alive_received, KEEP_ALIVE_TIMEOUT) {
            self.kick(plain_text_json("Timed out."));
        }
        if has_passed(now, self.last_keep_alive_sent, KEEP_ALIVE_INTERVAL) {
            self.send_keep_alive(now, unix_seconds);
        }
        assert(self.outbox_view() =~= old(self).outbox_view() + liveness_packets(
            *old(self),
            now,
            unix_seconds,
        ));
        let cell_x = block_cell(self.x.decode().to_block());
        let cell_z = block_cell(self.z.decode().to_block());
        cell_x != self.last_chunk_x || cell_z != self.last_chunk_z
    }

    /// Sends the keep alive packet to the client and updates `last_keep_alive_sent`
    pub fn send_keep_alive(&mut self, now: u64, unix_seconds: i64)
        ensures
            final(self).outbox_view() == old(self).outbox_view().push(
                PacketView::KeepAlive { id: unix_seconds },
            ),
            final(self).last_keep_alive_sent == now,
            *final(self) == (Player {
                outbox: final(self).outbox,
                last_keep_alive_sent: now,
                ..*old(self)
            }),
    {
        self.send_packet(Packet::KeepAlive { id: unix_seconds });
        self.last_keep_alive_sent = now;
    }

    /// The horizontal direction that the head faces.
    pub fn get_direction(&self) -> (direction: BlockDirection)
        ensures
            direction == yaw_direction(self.yaw.value()),
    {
        BlockDirection::from_yaw(self.yaw)
    }

    /// The face that the head looks at.
    pub fn get_facing(&self) -> (facing: BlockFacing)
        ensures
            facing == rotation_facing(self.pitch.value(), self.yaw.value()),
    {
        BlockFacing::from_rotation(self.pitch, self.yaw)
    }

    /// Moves the session to a position and tells the client, which keeps the
    /// rotation that it has.
    pub fn teleport(&mut self, x: Binary64, y: Binary64, z: Binary64)
        ensures
            final(self).outbox_view() == old(self).outbox_view().push(
                PacketView::PlayerPositionAndLook {
                    x,
                    y,
                    z,
                    yaw: Binary32 { bits: ZERO_BITS },
                    pitch: Binary32 { bits: ZERO_BITS },
                    flags: RELATIVE_ROTATION,
                    teleport_id: 0,
                },
            ),
            *final(self) == (Player { outbox: final(self).outbox, x, y, z, ..*old(self) }),
    {
        let player_position_and_look = Packet::PlayerPositionAndLook {
            x,
            y,
            z,
            yaw: Binary32 { bits: ZERO_BITS },
            pitch: Binary32 { bits: ZERO_BITS },
            flags: RELATIVE_ROTATION,  // pitch and yaw are relative
            teleport_id: 0,
        };
        self.x = x;
        self.y = y;
        self.z = z;
        self.send_packet(player_position_and_look);
    }

    /// Sends the ChatMessage packet containing the raw json data.
    /// Position 0: chat (chat box)
    pub fn send_raw_chat(&mut self, sender: u128, message: String)
        ensures
            final(self).outbox_view() == old(self).outbox_view().push(
                PacketView::ChatMessage { message: message@, sender, position: CHAT_POSITION_CHAT },
            ),
            *final(self) == (Player { outbox: final(self).outbox, ..*old(self) }),
    {
        self.send_packet(Packet::ChatMessage { message, sender, position: CHAT_POSITION_CHAT });
    }

    /// Sends the ChatMessage packet containing the raw json data.
    /// Position 1: system message (chat box)
    pub fn send_raw_system_message(&mut self, message: String)
        ensures
            final(self).outbox_view() == old(self).outbox_view().push(
                PacketView::ChatMessage {
                    message: message@,
                    sender: 0,
                    position: CHAT_POSITION_SYSTEM,
                },
            ),
            *final(self) == (Player { outbox: final(self).outbox, ..*old(self) }),
    {
        self.send_packet(Packet::ChatMessage { message, sender: 0, position: CHAT_POSITION_SYSTEM });
    }

    /// Sends the player a yellow system message (`message` is not in json format)
    pub fn send_system_message(&mut self, message: &str)
        ensures
            final(self).outbox_view() == old(self).outbox_view().push(
                PacketView::ChatMessage {
                    message: colored_component(message@, "yellow"@),
                    sender: 0,
                    position: CHAT_POSITION_SYSTEM,
                },
            ),
            *final(self) == (Player { outbox: final(self).outbox, ..*old(self) }),
    {
        self.send_raw_system_message(colored_text_json(message, "yellow"));
    }

    /// Sends the player a red system message (`message` is not in json format)
    pub fn send_error_message(&mut self, message: &str)
        ensures
            final(self).outbox_view() == old(self).outbox_view().push(
                PacketView::ChatMessage {
                    message: colored_component(message@, "red"@),
                    sender: 0,
                    position: CHAT_POSITION_SYSTEM,
                },
            ),
            *final(self) == (Player { outbox: final(self).outbox, ..*old(self) }),
    {
        self.send_raw_system_message(colored_text_json(message, "red"));
    }

    /// Sends the player a light purple system message (`message` is not in json format)
    pub fn send_worldedit_message(&mut self, message: &str)
        ensures
            final(self).outbox_view() == old(self).outbox_view().push(
                PacketView::ChatMessage {
                    message: colored_component(message@, "light_purple"@),
                    sender: 0,
                    position: CHAT_POSITION_SYSTEM,
                },
            ),
            *final(self) == (Player { outbox: final(self).outbox, ..*old(self) }),
    {
        self.send_raw_system_message(colored_text_json(message, "light_purple"));
    }

    /// Sends the player the disconnect packet, it is still up to the player to end the network stream.
    pub fn kick(&mut self, reason: String)
        ensures
            final(self).outbox_view() == old(self).outbox_view().push(
                PacketView::Disconnect { reason: reason@ },
            ),
            *final(self) == (Player { outbox: final(self).outbox, ..*old(self) }),
    {
        self.send_packet(Packet::Disconnect { reason });
    }

    /// Tells the client what the participant may do and how fast it flies.
    pub fn update_player_abilities(&mut self)
        ensures
            final(self).outbox_view() == old(self).outbox_view().push(
                PacketView::PlayerAbilities {
                    flags: ability_flags(old(self).flying),
                    fly_speed: old(self).fly_speed,
                },
            ),
            *final(self) == (Player { outbox: final(self).outbox, ..*old(self) }),
    {
        let flags: u8 = if self.flying {
            0x0f
        } else {
            0x0d
        };
        let fly_speed = self.fly_speed;
        self.send_packet(Packet::PlayerAbilities { flags, fly_speed });
    }

    /// Changes the mode of play and tells the client.
    pub fn set_gamemode(&mut self, gamemode: Gamemode)
        ensures
            final(self).outbox_view() == old(self).outbox_view().push(
                PacketView::ChangeGameState {
                    reason: GameStateReason::ChangeGamemode,
                    value: gamemode.id(),
                },
            ),
            *final(self) == (Player { outbox: final(self).outbox, gamemode, ..*old(self) }),
    {
        self.gamemode = gamemode;
        let value = self.gamemode.get_id();
        self.send_packet(
            Packet::ChangeGameState { reason: GameStateReason::ChangeGamemode, value },
        );
    }
}

impl Player {
    /// The corner that a tag names.
    pub open spec fn corner(&self, n: WorldEditPosition) -> Option<BlockPos> {
        match n {
            WorldEditPosition::First => self.first_position,
            WorldEditPosition::Second => self.second_position,
        }
    }

    /// The corner that a tag names, if it is set.
    pub fn worldedit_position(&self, n: WorldEditPosition) -> (pos: Option<BlockPos>)
        ensures
            pos == self.corner(n),
    {
        match n {
            WorldEditPosition::First => self.first_position,
            WorldEditPosition::Second => self.second_position,
        }
    }

    /// Sets a corner of the selection, tells the participant, and tells the
    /// client's overlay on the auxiliary channel.
    pub fn worldedit_set_position(&mut self, pos: BlockPos, n: WorldEditPosition)
        ensures
            final(self).outbox_view() == old(self).outbox_view().push(
                PacketView::ChatMessage {
                    message: colored_component(position_notice(n, pos), "light_purple"@),
                    sender: 0,
                    position: CHAT_POSITION_SYSTEM,
                },
            ).push(
                PacketView::PluginMessage {
                    channel: cui_channel(),
                    data: encode_utf8(cui_notice(n, pos)),
                },
            ),
            final(self).corner(n) == Some(pos),
            *final(self) == (Player {
                outbox: final(self).outbox,
                first_position: if n == WorldEditPosition::First {
                    Some(pos)
                } else {
                    old(self).first_position
                },
                second_position: if n == WorldEditPosition::Second {
                    Some(pos)
                } else {
                    old(self).second_position
                },
                ..*old(self)
            }),
    {
        let notice = position_message(n, pos);
        self.send_worldedit_message(notice.as_str());
        match n {
            WorldEditPosition::First => self.first_position = Some(pos),
            WorldEditPosition::Second => self.second_position = Some(pos),
        };
        let cui = cui_message(n, pos);
        self.worldedit_send_cui(cui.as_str());
    }

    /// Sets the first corner of the selection.
    pub fn worldedit_set_first_position(&mut self, pos: BlockPos)
        ensures
            final(self).outbox_view() == old(self).outbox_view().push(
                PacketView::ChatMessage {
                    message: colored_component(
                        position_notice(WorldEditPosition::First, pos),
                        "light_purple"@,
                    ),
                    sender: 0,
                    position: CHAT_POSITION_SYSTEM,
                },
            ).push(
                PacketView::PluginMessage {
                    channel: cui_channel(),
                    data: encode_utf8(cui_notice(WorldEditPosition::First, pos)),
                },
            ),
            *final(self) == (Player {
                outbox: final(self).outbox,
                first_position: Some(pos),
                ..*old(self)
            }),
    {
        self.worldedit_set_position(pos, WorldEditPosition::First)
    }

    /// Sets the second corner of the selection.
    pub fn worldedit_set_second_position(&mut self, pos: BlockPos)
        ensures
            final(self).outbox_view() == old(self).outbox_view().push(
                PacketView::ChatMessage {
                    message: colored_component(
                        position_notice(WorldEditPosition::Second, pos),
                        "light_purple"@,
                    ),
                    sender: 0,
                    position: CHAT_POSITION_SYSTEM,
                },
            ).push(
                PacketView::PluginMessage {
                    channel: cui_channel(),
                    data: encode_utf8(cui_notice(WorldEditPosition::Second, pos)),
                },
            ),
            *final(self) == (Player {
                outbox: final(self).outbox,
                second_position: Some(pos),
                ..*old(self)
            }),
    {
        self.worldedit_set_position(pos, WorldEditPosition::Second)
    }

    /// Tells which corner of the selection is near along `facing`.
    pub fn worldedit_pos_on_side(&self, facing: BlockFacing) -> (side: Option<WorldEditPosition>)
        ensures
            side == near_side(self.first_position, self.second_position, facing),
    {
        if self.first_position.is_none() || self.second_position.is_none() {
            return None
        }
        let pos1 = self.first_position.unwrap();
        let pos2 = self.second_position.unwrap();
        Some(corner_on_side(pos1.compare_direction(pos2, facing)))
    }

    /// Sends a text to the client's overlay on the auxiliary channel.
    pub fn worldedit_send_cui(&mut self, message: &str)
        ensures
            final(self).outbox_view() == old(self).outbox_view().push(
                PacketView::PluginMessage { channel: cui_channel(), data: encode_utf8(message@) },
            ),
            *final(self) == (Player { outbox: final(self).outbox, ..*old(self) }),
    {
        let cui_plugin_message = Packet::PluginMessage {
            channel: String::from_str("worldedit:cui"),
            data: message.as_bytes_vec(),
        };
        self.send_packet(cui_plugin_message);
    }

    /// Puts what a region held before an edit on the undo history.
    pub fn worldedit_push_undo(&mut self, undo: WorldEditUndo)
        ensures
            final(self).worldedit_undo@ == undo_pushed(old(self).worldedit_undo@, undo),
            *final(self) == (Player {
                worldedit_undo: final(self).worldedit_undo,
                ..*old(self)
            }),
    {
        self.worldedit_undo.push(undo);
    }

    /// Takes the entry that was put on the undo history last. Where the
    /// history is empty there is nothing to undo, and nothing changes.
    pub fn worldedit_pop_undo(&mut self) -> (undo: Option<WorldEditUndo>)
        ensures
            undo == undo_taken(old(self).worldedit_undo@),
            final(self).worldedit_undo@ == undo_popped(old(self).worldedit_undo@),
            *final(self) == (Player {
                worldedit_undo: final(self).worldedit_undo,
                ..*old(self)
            }),
    {
        self.worldedit_undo.pop()
    }
}

/// The text that the format `{:?}` writes for a string: the string in double
/// quotes, with what cannot stand there as it is written as an escape.
pub uninterp spec fn debug_quoted(text: Seq<char>) -> Seq<char>;

/// Formats a string with `{:?}`. Trusted: the text depends on the string
/// alone.
#[verifier::external_body]
fn debug_quote(text: &str) -> (quoted: String)
    ensures
        quoted@ == debug_quoted(text@),
{
    format!("{:?}", text)
}

impl Player {
    /// How a session shows in a log: its name and its identity.
    pub open spec fn debug_text(&self) -> Seq<char> {
        "Player { username: "@ + debug_quoted(self.username@) + ", uuid: "@ + debug_quoted(
            hyphenated_text(self.uuid),
        ) + " }"@
    }

    /// Writes `debug_text`.
    pub fn debug_string(&self) -> (text: String)
        ensures
            text@ == self.debug_text(),
    {
        let mut text = String::from_str("Player { username: ");
        let username = debug_quote(self.username.as_str());
        text.append(username.as_str());
        text.append(", uuid: ");
        let uuid = Player::uuid_with_hyphens(self.uuid);
        let uuid = debug_quote(uuid.as_str());
        text.append(uuid.as_str());
        text.append(" }");
        text
    }
}

/// The spawn point lies in the grid cell that a new session records, so a
/// new session has not changed its cell.
pub proof fn lemma_spawn_cell()
    ensures
        (Binary64 { bits: SPAWN_COORDINATE }).value().block() == 128,
        cell_of((Binary64 { bits: SPAWN_COORDINATE }).value().block()) == SPAWN_CELL,
{
    lemma2_to64_rest();
    let spawn = Binary64 { bits: SPAWN_COORDINATE };
    let d = Dyadic { negative: false, significand: 0x10_0000_0000_0000, exponent: (-45) as i32 };
    assert(spawn.bits / 0x10_0000_0000_0000 == 0x406);
    assert(spawn.bits % 0x10_0000_0000_0000 == 0);
    assert(spawn.value() == Number::Finite(d));
    assert(pow2(45) == 0x2000_0000_0000);
    assert((0 - d.exponent) as nat == 45);
    assert(d.significand as nat / pow2(45) == 128);
    assert(d.significand as nat % pow2(45) == 0);
    assert(d.whole() == 128);
    assert(!d.has_fraction());
}

/// A session that is saved and loaded again is the session that it was, in
/// all that a record holds: position, rotation, flags, speeds, game mode,
/// selected slot, and for every slot of the inventory the identifier, count,
/// damage and payload of its stack.
pub proof fn lemma_save_then_load(
    player: Player,
    data: PlayerData,
    loaded: Player,
    entity_id: u32,
    now: u64,
)
    requires
        player.wf(),
        player.is_saved_as(data),
        loaded.is_restored_from(player.uuid, player.username@, entity_id, now, data),
    ensures
        data.restorable(),
        loaded.uuid == player.uuid,
        loaded.username@ == player.username@,
        loaded.x == player.x,
        loaded.y == player.y,
        loaded.z == player.z,
        loaded.yaw == player.yaw,
        loaded.pitch == player.pitch,
        loaded.flying == player.flying,
        loaded.on_ground == player.on_ground,
        loaded.fly_speed == player.fly_speed,
        loaded.walk_speed == player.walk_speed,
        loaded.gamemode == player.gamemode,
        loaded.selected_slot == player.selected_slot,
        stack_views(loaded.inventory@) == stack_views(player.inventory@),
{
    lemma_inventory_round_trip(stack_views(player.inventory@));
}

} // verus!
