//! Block coordinates, the directions of the grid, and the orientation that a
//! head rotation stands for.

use vstd::prelude::*;
use std::cmp::Ordering;
use crate::number::{Binary32, Dyadic, Number};

verus! {

/// The place of one block.
#[derive(Clone, Copy, PartialEq, Eq, Structural, Debug)]
pub struct BlockPos {
    pub x: i32,
    pub y: i32,
    pub z: i32,
}

/// One of the four horizontal directions.
#[derive(Clone, Copy, PartialEq, Eq, Structural, Debug)]
pub enum BlockDirection {
    North,
    South,
    East,
    West,
}

/// One of the six faces of a block.
#[derive(Clone, Copy, PartialEq, Eq, Structural, Debug)]
pub enum BlockFacing {
    North,
    East,
    South,
    West,
    Up,
    Down,
}

/// Side length of a grid cell, in blocks.
pub const CELL_SIDE: i32 = 16;

/// The grid cell that holds a block coordinate: the coordinate divided by
/// 16 and rounded toward negative infinity.
pub open spec fn cell_of(block: int) -> int {
    block / 16
}

/// Computes `cell_of`.
pub fn block_cell(block: i32) -> (cell: i32)
    ensures
        cell as int == cell_of(block as int),
{
    if block >= 0 {
        block / CELL_SIDE
    } else {
        let up: i64 = (0 - block as i64) + 15;
        (0 - up / 16) as i32
    }
}

/// How far a position lies along a facing: the coordinate of its axis, with
/// the sign turned for the three facings that run against their axis.
pub open spec fn along(pos: BlockPos, facing: BlockFacing) -> int {
    match facing {
        BlockFacing::East => pos.x as int,
        BlockFacing::West => -(pos.x as int),
        BlockFacing::South => pos.z as int,
        BlockFacing::North => -(pos.z as int),
        BlockFacing::Up => pos.y as int,
        BlockFacing::Down => -(pos.y as int),
    }
}

/// The order of two integers.
pub open spec fn three_way(left: int, right: int) -> Ordering {
    if left < right {
        Ordering::Less
    } else if left == right {
        Ordering::Equal
    } else {
        Ordering::Greater
    }
}

/// The order of two coordinates.
fn order_of(left: i32, right: i32) -> (order: Ordering)
    ensures
        left < right ==> order == Ordering::Less,
        left == right ==> order == Ordering::Equal,
        left > right ==> order == Ordering::Greater,
{
    if left < right {
        Ordering::Less
    } else if left == right {
        Ordering::Equal
    } else {
        Ordering::Greater
    }
}

impl BlockPos {
    /// The position with the given coordinates.
    pub fn new(x: i32, y: i32, z: i32) -> (pos: BlockPos)
        ensures
            pos == (BlockPos { x, y, z }),
    {
        BlockPos { x, y, z }
    }

    /// Orders two positions by how far each lies along `facing`.
    pub fn compare_direction(self, other: BlockPos, facing: BlockFacing) -> (order: Ordering)
        ensures
            order == three_way(along(self, facing), along(other, facing)),
    {
        match facing {
            BlockFacing::East => order_of(self.x, other.x),
            BlockFacing::West => order_of(other.x, self.x),
            BlockFacing::South => order_of(self.z, other.z),
            BlockFacing::North => order_of(other.z, self.z),
            BlockFacing::Up => order_of(self.y, other.y),
            BlockFacing::Down => order_of(other.y, self.y),
        }
    }
}

/// The direction of a quarter turn: 0 is south, and each further quarter
/// goes on through west, north and east.
pub open spec fn quarter_direction(quarter: int) -> BlockDirection {
    if quarter == 1 {
        BlockDirection::West
    } else if quarter == 2 {
        BlockDirection::North
    } else if quarter == 3 {
        BlockDirection::East
    } else {
        BlockDirection::South
    }
}

/// The direction that a yaw faces: the yaw in quarter turns, rounded to the
/// nearest and taken modulo 4. A yaw that is not a number faces south, and so
/// does negative infinity; positive infinity faces east.
pub open spec fn yaw_direction(yaw: Number) -> BlockDirection {
    match yaw {
        Number::Nan => BlockDirection::South,
        Number::Infinite { negative } => if negative {
            BlockDirection::South
        } else {
            BlockDirection::East
        },
        Number::Finite(d) => quarter_direction(((d.floor() + 45) / 90) % 4),
    }
}

/// Whether an angle, brought into the range from 0 up to 360 degrees, lies
/// between `from` and `to` degrees, both bounds included.
pub open spec fn in_sector(angle: Dyadic, from: int, to: int) -> bool {
    let whole = angle.floor() % 360;
    from <= whole && (whole < to || (whole == to && !angle.has_fraction()))
}

/// The face that a yaw looks at: west around 90 degrees, north around 180,
/// east around 270, south elsewhere. An angle on the border of two sectors
/// belongs to the one named first.
pub open spec fn yaw_facing(yaw: Number) -> BlockFacing {
    match yaw {
        Number::Finite(d) => if in_sector(d, 45, 135) {
            BlockFacing::West
        } else if in_sector(d, 135, 225) {
            BlockFacing::North
        } else if in_sector(d, 225, 315) {
            BlockFacing::East
        } else {
            BlockFacing::South
        },
        _ => BlockFacing::South,
    }
}

/// The face that a head rotation looks at: up from a pitch of -70 degrees
/// or less, down from 70 or more, and between them where the yaw looks.
pub open spec fn rotation_facing(pitch: Number, yaw: Number) -> BlockFacing {
    if pitch.at_most(-70) {
        BlockFacing::Up
    } else if pitch.at_least(70) {
        BlockFacing::Down
    } else {
        yaw_facing(yaw)
    }
}

impl BlockDirection {
    /// The direction that a yaw faces.
    pub fn from_yaw(yaw: Binary32) -> (direction: BlockDirection)
        ensures
            direction == yaw_direction(yaw.value()),
    {
        match yaw.decode() {
            Number::Nan => BlockDirection::South,
            Number::Infinite { negative } => if negative {
                BlockDirection::South
            } else {
                BlockDirection::East
            },
            Number::Finite(d) => {
                let whole: u32 = d.floor_rem(360);
                let quarter: u32 = ((whole + 45) / 90) % 4;
                proof {
                    let f = d.floor();
                    let q = f / 360;
                    assert(f == 360 * q + whole);
                    assert((f + 45) / 90 == 4 * q + (whole + 45) / 90);
                }
                if quarter == 1 {
                    BlockDirection::West
                } else if quarter == 2 {
                    BlockDirection::North
                } else if quarter == 3 {
                    BlockDirection::East
                } else {
                    BlockDirection::South
                }
            },
        }
    }
}

/// Whether a wrapped angle of `whole` degrees, with or without a fraction
/// on top, lies between `from` and `to` degrees.
fn sector_holds(whole: u32, fraction: bool, from: u32, to: u32) -> (r: bool)
    ensures
        r == (from <= whole && (whole < to || (whole == to && !fraction))),
{
    from <= whole && (whole < to || (whole == to && !fraction))
}

impl BlockFacing {
    /// The face that a head rotation looks at.
    pub fn from_rotation(pitch: Binary32, yaw: Binary32) -> (facing: BlockFacing)
        ensures
            facing == rotation_facing(pitch.value(), yaw.value()),
    {
        let pitch = pitch.decode();
        if pitch.is_at_most(-70) {
            BlockFacing::Up
        } else if pitch.is_at_least(70) {
            BlockFacing::Down
        } else {
            match yaw.decode() {
                Number::Finite(d) => {
                    let whole: u32 = d.floor_rem(360);
                    let (_magnitude, fraction) = d.parts();
                    if sector_holds(whole, fraction, 45, 135) {
                        BlockFacing::West
                    } else if sector_holds(whole, fraction, 135, 225) {
                        BlockFacing::North
                    } else if sector_holds(whole, fraction, 225, 315) {
                        BlockFacing::East
                    } else {
                        BlockFacing::South
                    }
                },
                _ => BlockFacing::South,
            }
        }
    }
}

/// The grid cell of a position changes exactly where the position crosses a
/// multiple of 16: a number whose floor is in the range of a 32-bit integer
/// lies in the cell `cell` if and only if it is at least `16 * cell` and
/// below `16 * (cell + 1)`. This holds on both sides of zero: the cell of a
/// negative position is rounded down, not toward zero.
pub proof fn lemma_cell_boundary(d: Dyadic, cell: int)
    requires
        i32::MIN <= d.floor() <= i32::MAX,
    ensures
        Number::Finite(d).block() == d.floor(),
        cell_of(Number::Finite(d).block()) == cell <==> d.at_least(16 * cell) && !d.at_least(
            16 * (cell + 1),
        ),
{
}

/// The direction of a yaw is that of the nearest quarter turn: a yaw that
/// lies within 45 degrees of `turn` quarter turns, the lower bound included,
/// faces as `turn` quarter turns do, whatever the number of full turns in it.
pub proof fn lemma_nearest_quarter(d: Dyadic, turn: int)
    requires
        d.at_least(90 * turn - 45),
        !d.at_least(90 * turn + 45),
    ensures
        yaw_direction(Number::Finite(d)) == quarter_direction(turn % 4),
{
    let f = d.floor();
    assert(f + 45 == 90 * turn + (f + 45 - 90 * turn));
    assert((f + 45) / 90 == turn);
}

/// For an angle from 0 up to 360 degrees a sector is what its bounds say:
/// the angle lies in it if and only if it is at least `from` and at most
/// `to`. Full turns do not matter: an angle lies in a sector if and only if
/// the angle with `turns` full turns taken off does.
pub proof fn lemma_sector(d: Dyadic, other: Dyadic, from: int, to: int, turns: int)
    requires
        other.floor() == d.floor() - 360 * turns,
        other.has_fraction() == d.has_fraction(),
    ensures
        0 <= d.floor() < 360 ==> (in_sector(d, from, to) <==> d.at_least(from) && d.at_most(to)),
        in_sector(other, from, to) == in_sector(d, from, to),
{
    let f = d.floor();
    assert((f - 360 * turns) % 360 == f % 360) by {
        vstd::arithmetic::div_mod::lemma_mod_multiples_vanish(-turns, f, 360);
    }
}

} // verus!
