//! The record that outlives a session, and the inventory in its two forms:
//! the live one, a fixed row of slots that hold a stack or nothing, and the
//! stored one, a list with one entry for each slot that holds a stack.

use vstd::prelude::*;
use vstd::string::*;
use crate::identity::{hex_text, uuid_hex};
use crate::number::{Binary32, Binary64};

verus! {

/// Number of slots in an inventory: hotbar, main part, armor and off hand.
pub const INVENTORY_SIZE: usize = 46;

/// The modes of play that a session can be in.
#[derive(Copy, Clone, Debug, PartialEq, Eq, Structural)]
pub enum Gamemode {
    Creative,
    Spectator,
}

impl Gamemode {
    /// The number that the protocol has for a mode.
    pub open spec fn id(self) -> u32 {
        match self {
            Gamemode::Creative => 1,
            Gamemode::Spectator => 3,
        }
    }

    /// The number that the protocol has for the mode.
    pub fn get_id(self) -> (id: u32)
        ensures
            id == self.id(),
    {
        match self {
            Gamemode::Creative => 1,
            Gamemode::Spectator => 3,
        }
    }
}

/// A stack of items in a slot. The auxiliary payload is kept in its encoded
/// form and never looked into.
#[derive(Debug, PartialEq, Eq)]
pub struct ItemStack {
    pub item_id: u32,
    pub count: u8,
    pub damage: u16,
    pub nbt: Option<Vec<u8>>,
}

/// A stack with its payload as a mathematical sequence.
pub ghost struct ItemStackView {
    pub item_id: u32,
    pub count: u8,
    pub damage: u16,
    pub nbt: Option<Seq<u8>>,
}

/// A payload as a mathematical sequence.
pub open spec fn payload_view(payload: Option<Vec<u8>>) -> Option<Seq<u8>> {
    match payload {
        Some(bytes) => Some(bytes@),
        None => None,
    }
}

impl View for ItemStack {
    type V = ItemStackView;

    open spec fn view(&self) -> ItemStackView {
        ItemStackView {
            item_id: self.item_id,
            count: self.count,
            damage: self.damage,
            nbt: payload_view(self.nbt),
        }
    }
}

/// This is a single item in the stored inventory.
#[derive(Debug, PartialEq, Eq)]
pub struct InventoryEntry {
    pub id: u32,
    pub slot: i8,
    pub count: i8,
    pub damage: i16,
    pub nbt: Option<Vec<u8>>,
}

/// An entry with its payload as a mathematical sequence.
pub ghost struct InventoryEntryView {
    pub id: u32,
    pub slot: i8,
    pub count: i8,
    pub damage: i16,
    pub nbt: Option<Seq<u8>>,
}

impl View for InventoryEntry {
    type V = InventoryEntryView;

    open spec fn view(&self) -> InventoryEntryView {
        InventoryEntryView {
            id: self.id,
            slot: self.slot,
            count: self.count,
            damage: self.damage,
            nbt: payload_view(self.nbt),
        }
    }
}

/// How a session is written down when it is saved.
#[derive(Debug, PartialEq, Eq)]
pub struct PlayerData {
    pub on_ground: bool,
    pub flying: bool,
    pub motion: Vec<Binary64>,
    pub position: Vec<Binary64>,
    pub rotation: Vec<Binary32>,
    pub inventory: Vec<InventoryEntry>,
    pub selected_item_slot: i32,
    pub fly_speed: Binary32,
    pub walk_speed: Binary32,
    pub gamemode: Gamemode,
}

/// The signed byte with the bits of an unsigned one.
pub open spec fn signed8(value: u8) -> i8 {
    if value < 0x80 {
        value as i8
    } else {
        (value - 0x100) as i8
    }
}

/// The unsigned byte with the bits of a signed one.
pub open spec fn unsigned8(value: i8) -> u8 {
    if value >= 0 {
        value as u8
    } else {
        (value + 0x100) as u8
    }
}

/// The signed 16-bit number with the bits of an unsigned one.
pub open spec fn signed16(value: u16) -> i16 {
    if value < 0x8000 {
        value as i16
    } else {
        (value - 0x1_0000) as i16
    }
}

/// The unsigned 16-bit number with the bits of a signed one.
pub open spec fn unsigned16(value: i16) -> u16 {
    if value >= 0 {
        value as u16
    } else {
        (value + 0x1_0000) as u16
    }
}

/// The signed 32-bit number with the bits of an unsigned one.
pub open spec fn signed32(value: u32) -> i32 {
    if value < 0x8000_0000 {
        value as i32
    } else {
        (value - 0x1_0000_0000) as i32
    }
}

/// The unsigned 32-bit number with the bits of a signed one.
pub open spec fn unsigned32(value: i32) -> u32 {
    if value >= 0 {
        value as u32
    } else {
        (value + 0x1_0000_0000) as u32
    }
}

/// Computes `signed8`.
pub fn to_signed8(value: u8) -> (r: i8)
    ensures
        r == signed8(value),
{
    if value < 0x80 {
        value as i8
    } else {
        (value as i16 - 0x100) as i8
    }
}

/// Computes `unsigned8`.
pub fn to_unsigned8(value: i8) -> (r: u8)
    ensures
        r == unsigned8(value),
{
    if value >= 0 {
        value as u8
    } else {
        (value as i16 + 0x100) as u8
    }
}

/// Computes `signed16`.
pub fn to_signed16(value: u16) -> (r: i16)
    ensures
        r == signed16(value),
{
    if value < 0x8000 {
        value as i16
    } else {
        (value as i32 - 0x1_0000) as i16
    }
}

/// Computes `unsigned16`.
pub fn to_unsigned16(value: i16) -> (r: u16)
    ensures
        r == unsigned16(value),
{
    if value >= 0 {
        value as u16
    } else {
        (value as i32 + 0x1_0000) as u16
    }
}

/// Computes `signed32`.
pub fn to_signed32(value: u32) -> (r: i32)
    ensures
        r == signed32(value),
{
    if value < 0x8000_0000 {
        value as i32
    } else {
        (value as i64 - 0x1_0000_0000) as i32
    }
}

/// Computes `unsigned32`.
pub fn to_unsigned32(value: i32) -> (r: u32)
    ensures
        r == unsigned32(value),
{
    if value >= 0 {
        value as u32
    } else {
        (value as i64 + 0x1_0000_0000) as u32
    }
}

/// The stack that a stored entry stands for.
pub open spec fn stack_of(entry: InventoryEntryView) -> ItemStackView {
    ItemStackView {
        item_id: entry.id,
        count: unsigned8(entry.count),
        damage: unsigned16(entry.damage),
        nbt: entry.nbt,
    }
}

/// The stored entry of the stack in slot `slot`.
pub open spec fn entry_of(slot: int, stack: ItemStackView) -> InventoryEntryView {
    InventoryEntryView {
        id: stack.item_id,
        slot: slot as i8,
        count: signed8(stack.count),
        damage: signed16(stack.damage),
        nbt: stack.nbt,
    }
}

/// A row of slots as mathematical values.
pub open spec fn stack_views(slots: Seq<Option<ItemStack>>) -> Seq<Option<ItemStackView>> {
    slots.map_values(
        |slot: Option<ItemStack>|
            match slot {
                Some(stack) => Some(stack@),
                None => None,
            },
    )
}

/// A list of entries as mathematical values.
pub open spec fn entry_views(entries: Seq<InventoryEntry>) -> Seq<InventoryEntryView> {
    entries.map_values(|entry: InventoryEntry| entry@)
}

/// An inventory with nothing in it.
pub open spec fn empty_slots() -> Seq<Option<ItemStackView>> {
    Seq::new(INVENTORY_SIZE as nat, |i: int| None)
}

/// The entries of the first `n` slots: one for each slot that holds a
/// stack, in the order of the slots.
pub open spec fn occupied_entries(slots: Seq<Option<ItemStackView>>, n: nat) -> Seq<
    InventoryEntryView,
>
    decreases n,
{
    if n == 0 {
        Seq::empty()
    } else {
        let before = occupied_entries(slots, (n - 1) as nat);
        match slots[n - 1] {
            Some(stack) => before.push(entry_of(n - 1, stack)),
            None => before,
        }
    }
}

/// Whether every entry names a slot of the inventory.
pub open spec fn slots_in_range(entries: Seq<InventoryEntryView>) -> bool {
    forall|i: int| 0 <= i < entries.len() ==> 0 <= #[trigger] entries[i].slot < INVENTORY_SIZE
}

/// The inventory after the first `n` entries were put into their slots, one
/// after the other, starting from an empty inventory. An entry that names a
/// slot again replaces what an earlier one put there.
pub open spec fn place_entries(entries: Seq<InventoryEntryView>, n: nat) -> Seq<
    Option<ItemStackView>,
>
    decreases n,
{
    if n == 0 {
        empty_slots()
    } else {
        place_entries(entries, (n - 1) as nat).update(
            entries[n - 1].slot as int,
            Some(stack_of(entries[n - 1])),
        )
    }
}

/// The inventory that a stored list stands for.
pub open spec fn placed(entries: Seq<InventoryEntryView>) -> Seq<Option<ItemStackView>> {
    place_entries(entries, entries.len())
}

/// A copy of a byte string.
pub fn copy_bytes(bytes: &Vec<u8>) -> (copy: Vec<u8>)
    ensures
        copy@ == bytes@,
{
    let mut copy: Vec<u8> = Vec::new();
    let mut i: usize = 0;
    while i < bytes.len()
        invariant
            i <= bytes.len(),
            copy@ == bytes@.subrange(0, i as int),
        decreases bytes.len() - i,
    {
        copy.push(bytes[i]);
        i = i + 1;
        assert(copy@ =~= bytes@.subrange(0, i as int));
    }
    assert(copy@ =~= bytes@);
    copy
}

/// A copy of a payload.
pub fn copy_payload(payload: &Option<Vec<u8>>) -> (copy: Option<Vec<u8>>)
    ensures
        payload_view(copy) == payload_view(*payload),
{
    match payload {
        Some(bytes) => Some(copy_bytes(bytes)),
        None => None,
    }
}

/// An inventory with nothing in it.
pub fn empty_inventory() -> (slots: Vec<Option<ItemStack>>)
    ensures
        slots@.len() == INVENTORY_SIZE,
        forall|i: int| 0 <= i < INVENTORY_SIZE ==> slots@[i] is None,
        stack_views(slots@) == empty_slots(),
{
    let mut slots: Vec<Option<ItemStack>> = Vec::new();
    let mut i: usize = 0;
    while i < INVENTORY_SIZE
        invariant
            i <= INVENTORY_SIZE,
            slots@.len() == i,
            forall|k: int| 0 <= k < i ==> slots@[k] is None,
        decreases INVENTORY_SIZE - i,
    {
        slots.push(None);
        i = i + 1;
    }
    assert(stack_views(slots@) =~= empty_slots());
    slots
}

/// Writes an inventory down: one entry for each slot that holds a stack, in
/// the order of the slots.
pub fn entries_of(slots: &Vec<Option<ItemStack>>) -> (entries: Vec<InventoryEntry>)
    requires
        slots@.len() == INVENTORY_SIZE,
    ensures
        entry_views(entries@) == occupied_entries(stack_views(slots@), INVENTORY_SIZE as nat),
{
    let mut entries: Vec<InventoryEntry> = Vec::new();
    let mut slot: usize = 0;
    assert(entry_views(entries@) =~= occupied_entries(stack_views(slots@), 0));
    while slot < INVENTORY_SIZE
        invariant
            slot <= INVENTORY_SIZE,
            slots@.len() == INVENTORY_SIZE,
            entry_views(entries@) == occupied_entries(stack_views(slots@), slot as nat),
        decreases INVENTORY_SIZE - slot,
    {
        let ghost before = entry_views(entries@);
        match &slots[slot] {
            Some(stack) => {
                let entry = InventoryEntry {
                    id: stack.item_id,
                    slot: slot as i8,
                    count: to_signed8(stack.count),
                    damage: to_signed16(stack.damage),
                    nbt: copy_payload(&stack.nbt),
                };
                assert(entry@ == entry_of(slot as int, stack@));
                entries.push(entry);
                assert(entry_views(entries@) =~= before.push(entry_of(slot as int, stack@)));
            },
            None => {},
        }
        assert(stack_views(slots@)[slot as int] == match slots@[slot as int] {
            Some(stack) => Some(stack@),
            None => None,
        });
        slot = slot + 1;
    }
    entries
}

/// Builds the inventory that a stored list stands for. There is none where
/// an entry names a slot that no inventory has.
pub fn inventory_of(entries: &Vec<InventoryEntry>) -> (slots: Option<Vec<Option<ItemStack>>>)
    ensures
        slots is Some <==> slots_in_range(entry_views(entries@)),
        slots matches Some(row) ==> row@.len() == INVENTORY_SIZE && stack_views(row@) == placed(
            entry_views(entries@),
        ),
{
    let mut row = empty_inventory();
    let mut i: usize = 0;
    while i < entries.len()
        invariant
            i <= entries.len(),
            row@.len() == INVENTORY_SIZE,
            stack_views(row@) == place_entries(entry_views(entries@), i as nat),
            forall|k: int| 0 <= k < i ==> 0 <= #[trigger] entry_views(entries@)[k].slot < INVENTORY_SIZE,
        decreases entries.len() - i,
    {
        let entry = &entries[i];
        assert(entry_views(entries@)[i as int] == entry@);
        if entry.slot < 0 || entry.slot >= INVENTORY_SIZE as i8 {
            assert(!(0 <= entry_views(entries@)[i as int].slot < INVENTORY_SIZE));
            return None;
        }
        let stack = ItemStack {
            item_id: entry.id,
            count: to_unsigned8(entry.count),
            damage: to_unsigned16(entry.damage),
            nbt: copy_payload(&entry.nbt),
        };
        assert(stack@ == stack_of(entry@));
        let ghost before = stack_views(row@);
        row.set(entry.slot as usize, Some(stack));
        assert(stack_views(row@) =~= before.update(entry.slot as int, Some(stack_of(entry@))));
        i = i + 1;
    }
    Some(row)
}

/// Entries beyond the first `n` have no part in where the first `n` go.
proof fn lemma_place_prefix(entries: Seq<InventoryEntryView>, last: InventoryEntryView, n: nat)
    requires
        n <= entries.len(),
    ensures
        place_entries(entries.push(last), n) == place_entries(entries, n),
    decreases n,
{
    if n > 0 {
        lemma_place_prefix(entries, last, (n - 1) as nat);
        assert(entries.push(last)[n - 1] == entries[n - 1]);
    }
}

/// The first `n` slots of an inventory, with every later slot empty.
pub open spec fn first_slots(slots: Seq<Option<ItemStackView>>, n: nat) -> Seq<
    Option<ItemStackView>,
> {
    Seq::new(
        INVENTORY_SIZE as nat,
        |i: int|
            if i < n {
                slots[i]
            } else {
                None
            },
    )
}

/// Writing the first `n` slots down and putting the entries back gives those
/// slots again.
pub proof fn lemma_entries_restore_slots(slots: Seq<Option<ItemStackView>>, n: nat)
    requires
        slots.len() == INVENTORY_SIZE,
        n <= INVENTORY_SIZE,
    ensures
        occupied_entries(slots, n).len() <= n,
        forall|i: int|
            0 <= i < occupied_entries(slots, n).len() ==> 0 <= #[trigger] occupied_entries(
                slots,
                n,
            )[i].slot < n,
        placed(occupied_entries(slots, n)) == first_slots(slots, n),
    decreases n,
{
    if n == 0 {
        assert(placed(occupied_entries(slots, n)) =~= first_slots(slots, n));
    } else {
        let before = occupied_entries(slots, (n - 1) as nat);
        lemma_entries_restore_slots(slots, (n - 1) as nat);
        match slots[n - 1] {
            Some(stack) => {
                let entry = entry_of(n - 1, stack);
                lemma_place_prefix(before, entry, before.len());
                assert(stack_of(entry) == stack);
                assert(placed(before.push(entry)) =~= first_slots(slots, n));
            },
            None => {
                assert(first_slots(slots, (n - 1) as nat) =~= first_slots(slots, n));
            },
        }
    }
}

/// An inventory that is written down and built again is the inventory that
/// it was: every slot keeps its identifier, count, damage and payload, and
/// every empty slot stays empty.
pub proof fn lemma_inventory_round_trip(slots: Seq<Option<ItemStackView>>)
    requires
        slots.len() == INVENTORY_SIZE,
    ensures
        slots_in_range(occupied_entries(slots, INVENTORY_SIZE as nat)),
        placed(occupied_entries(slots, INVENTORY_SIZE as nat)) == slots,
{
    lemma_entries_restore_slots(slots, INVENTORY_SIZE as nat);
    assert(first_slots(slots, INVENTORY_SIZE as nat) =~= slots);
}

/// Where the record of an identity is kept: a file in the players' directory,
/// named by the thirty-two hexadecimal digits of the identity.
pub open spec fn record_path_text(uuid: u128) -> Seq<char> {
    "./world/players/"@ + hex_text(uuid)
}

/// Writes `record_path_text`.
pub fn record_path(uuid: u128) -> (path: String)
    ensures
        path@ == record_path_text(uuid),
{
    let mut path = String::from_str("./world/players/");
    let name = uuid_hex(uuid);
    path.append(name.as_str());
    path
}

/// What is logged when a stored record is given up.
pub open spec fn reset_warning_text(username: Seq<char>) -> Seq<char> {
    "There was an error loading the player data for "@ + username
        + ", player data will be reset."@
}

/// Writes `reset_warning_text`.
pub fn reset_warning(username: &str) -> (warning: String)
    ensures
        warning@ == reset_warning_text(username@),
{
    let mut warning = String::from_str("There was an error loading the player data for ");
    warning.append(username);
    warning.append(", player data will be reset.");
    warning
}

} // verus!
