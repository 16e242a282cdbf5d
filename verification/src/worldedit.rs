//! Region selection: the two corners, the clipboard, the undo history, and
//! the texts that tell a client about a corner.

use vstd::prelude::*;
use vstd::string::*;
use std::cmp::Ordering;
use crate::blocks::{along, three_way, BlockFacing, BlockPos};
use crate::text::{decimal_text, push_decimal};

verus! {

/// Names one of the two corners of a selection.
#[derive(Clone, Copy, PartialEq, Eq, Structural, Debug)]
pub enum WorldEditPosition {
    First,
    Second,
}

/// A captured copy of a region: its extent and the blocks in it.
#[derive(Debug, PartialEq, Eq)]
pub struct WorldEditClipboard {
    pub offset_x: i32,
    pub offset_y: i32,
    pub offset_z: i32,
    pub size_x: u32,
    pub size_y: u32,
    pub size_z: u32,
    pub data: Vec<u32>,
}

/// What a region held before an edit, with where it lies.
#[derive(Debug, PartialEq, Eq)]
pub struct WorldEditUndo {
    pub clipboard: WorldEditClipboard,
    pub pos: BlockPos,
    pub plot_x: i32,
    pub plot_z: i32,
}

/// Name of the auxiliary channel that mirrors a selection to the client.
pub open spec fn cui_channel() -> Seq<char> {
    "worldedit:cui"@
}

impl WorldEditPosition {
    /// The number that a client has for a corner.
    pub open spec fn index(self) -> int {
        match self {
            WorldEditPosition::First => 0,
            WorldEditPosition::Second => 1,
        }
    }

    /// The word for a corner.
    pub open spec fn name(self) -> Seq<char> {
        match self {
            WorldEditPosition::First => "First"@,
            WorldEditPosition::Second => "Second"@,
        }
    }

    /// The number that a client has for the corner.
    pub fn to_i(self) -> (i: i32)
        ensures
            i == self.index(),
    {
        match self {
            WorldEditPosition::First => 0,
            WorldEditPosition::Second => 1,
        }
    }

    /// The word for a corner.
    pub fn to_str(self) -> (word: &'static str)
        ensures
            word@ == self.name(),
    {
        match self {
            WorldEditPosition::First => "First",
            WorldEditPosition::Second => "Second",
        }
    }
}

/// The corner that is near when the first corner's place along a facing
/// stands in `order` to the second's: the first unless it lies farther.
pub open spec fn near_corner(order: Ordering) -> WorldEditPosition {
    match order {
        Ordering::Greater => WorldEditPosition::Second,
        _ => WorldEditPosition::First,
    }
}

/// Picks the near corner from the order of the two.
pub fn corner_on_side(order: Ordering) -> (corner: WorldEditPosition)
    ensures
        corner == near_corner(order),
{
    match order {
        Ordering::Equal => WorldEditPosition::First,
        Ordering::Less => WorldEditPosition::First,
        Ordering::Greater => WorldEditPosition::Second,
    }
}

/// What a participant reads when a corner is set.
pub open spec fn position_notice(corner: WorldEditPosition, pos: BlockPos) -> Seq<char> {
    corner.name() + " position set to ("@ + decimal_text(pos.x as int) + ", "@ + decimal_text(
        pos.y as int,
    ) + ", "@ + decimal_text(pos.z as int) + ")"@
}

/// What the client's overlay is told when a corner is set:
/// `p|<corner>|<x>|<y>|<z>|0`.
pub open spec fn cui_notice(corner: WorldEditPosition, pos: BlockPos) -> Seq<char> {
    "p|"@ + decimal_text(corner.index()) + "|"@ + decimal_text(pos.x as int) + "|"@
        + decimal_text(pos.y as int) + "|"@ + decimal_text(pos.z as int) + "|0"@
}

/// Writes `position_notice`.
pub fn position_message(corner: WorldEditPosition, pos: BlockPos) -> (text: String)
    ensures
        text@ == position_notice(corner, pos),
{
    let mut text = String::from_str(corner.to_str());
    text.append(" position set to (");
    push_decimal(&mut text, pos.x);
    text.append(", ");
    push_decimal(&mut text, pos.y);
    text.append(", ");
    push_decimal(&mut text, pos.z);
    text.append(")");
    assert(text@ =~= position_notice(corner, pos));
    text
}

/// Writes `cui_notice`.
pub fn cui_message(corner: WorldEditPosition, pos: BlockPos) -> (text: String)
    ensures
        text@ == cui_notice(corner, pos),
{
    let mut text = String::from_str("p|");
    push_decimal(&mut text, corner.to_i());
    text.append("|");
    push_decimal(&mut text, pos.x);
    text.append("|");
    push_decimal(&mut text, pos.y);
    text.append("|");
    push_decimal(&mut text, pos.z);
    text.append("|0");
    assert(text@ =~= cui_notice(corner, pos));
    text
}

/// An undo history after one more entry was put on it.
pub open spec fn undo_pushed(history: Seq<WorldEditUndo>, entry: WorldEditUndo) -> Seq<
    WorldEditUndo,
> {
    history.push(entry)
}

/// The entry that an undo takes from a history: the one put on it last, or
/// none where the history is empty.
pub open spec fn undo_taken(history: Seq<WorldEditUndo>) -> Option<WorldEditUndo> {
    if history.len() == 0 {
        None
    } else {
        Some(history.last())
    }
}

/// An undo history after an undo: without its last entry, or unchanged
/// where it was empty.
pub open spec fn undo_popped(history: Seq<WorldEditUndo>) -> Seq<WorldEditUndo> {
    if history.len() == 0 {
        history
    } else {
        history.drop_last()
    }
}

/// The undo history is a stack. An undo gives back what was put on last and
/// leaves the history as it was before that; entries come back in the
/// reverse of the order in which they went in; and an undo on an empty
/// history gives nothing and changes nothing.
pub proof fn lemma_undo_is_a_stack(
    history: Seq<WorldEditUndo>,
    first: WorldEditUndo,
    second: WorldEditUndo,
    third: WorldEditUndo,
)
    ensures
        undo_taken(undo_pushed(history, first)) == Some(first),
        undo_popped(undo_pushed(history, first)) == history,
        ({
            let full = undo_pushed(undo_pushed(undo_pushed(history, first), second), third);
            &&& undo_taken(full) == Some(third)
            &&& undo_taken(undo_popped(full)) == Some(second)
            &&& undo_popped(undo_popped(full)) == undo_pushed(history, first)
        }),
        undo_taken(Seq::<WorldEditUndo>::empty()) is None,
        undo_popped(Seq::<WorldEditUndo>::empty()) == Seq::<WorldEditUndo>::empty(),
{
    assert(history.push(first).drop_last() =~= history);
    let one = history.push(first);
    let two = one.push(second);
    assert(two.push(third).drop_last() =~= two);
    assert(two.drop_last() =~= one);
}

/// The corner of a selection that is near along `facing`: the first unless
/// it lies farther along than the second, and none while a corner is unset.
pub open spec fn near_side(
    first: Option<BlockPos>,
    second: Option<BlockPos>,
    facing: BlockFacing,
) -> Option<WorldEditPosition> {
    match (first, second) {
        (Some(a), Some(b)) => Some(near_corner(three_way(along(a, facing), along(b, facing)))),
        _ => None,
    }
}

/// Which corner is near depends only on how the two lie along the facing.
/// The first is near where it lies no farther than the second, so corners
/// that lie equally far give the first; the second is near where the first
/// lies farther. Where the two lie differently far, exchanging them
/// exchanges the answer. While a corner is unset, none is near.
pub proof fn lemma_near_side(a: BlockPos, b: BlockPos, facing: BlockFacing)
    ensures
        along(a, facing) <= along(b, facing) ==> near_side(Some(a), Some(b), facing) == Some(
            WorldEditPosition::First,
        ),
        along(a, facing) > along(b, facing) ==> near_side(Some(a), Some(b), facing) == Some(
            WorldEditPosition::Second,
        ),
        along(a, facing) != along(b, facing) ==> near_side(Some(b), Some(a), facing) != near_side(
            Some(a),
            Some(b),
            facing,
        ),
        near_side(None, Some(b), facing) is None,
        near_side(Some(a), None, facing) is None,
        near_side(None, None, facing) is None,
{
}

} // verus!
