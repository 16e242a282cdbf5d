use player_session::blocks::{block_cell, BlockDirection, BlockFacing, BlockPos};
use player_session::number::{Binary32, Binary64, Dyadic, Number};
use player_session::text::{colored_text_json, decimal, plain_text_json};
use std::cmp::Ordering;

fn double(value: f64) -> Binary64 {
    Binary64 { bits: value.to_bits() }
}

fn single(value: f32) -> Binary32 {
    Binary32 { bits: value.to_bits() }
}

fn finite32(value: f32) -> Dyadic {
    match single(value).decode() {
        Number::Finite(d) => d,
        other => panic!("not finite: {:?}", other),
    }
}

#[test]
fn decoding_a_double() {
    assert_eq!(
        double(128.0).decode(),
        Number::Finite(Dyadic { negative: false, significand: 1u64 << 52, exponent: -45 })
    );
    assert_eq!(
        double(-0.5).decode(),
        Number::Finite(Dyadic { negative: true, significand: 1u64 << 52, exponent: -53 })
    );
    assert_eq!(
        double(0.0).decode(),
        Number::Finite(Dyadic { negative: false, significand: 0, exponent: -1074 })
    );
    assert_eq!(
        double(5e-324).decode(),
        Number::Finite(Dyadic { negative: false, significand: 1, exponent: -1074 })
    );
    assert_eq!(double(f64::NAN).decode(), Number::Nan);
    assert_eq!(double(f64::INFINITY).decode(), Number::Infinite { negative: false });
    assert_eq!(double(f64::NEG_INFINITY).decode(), Number::Infinite { negative: true });
}

#[test]
fn decoding_a_single() {
    assert_eq!(
        single(1.0).decode(),
        Number::Finite(Dyadic { negative: false, significand: 1u64 << 23, exponent: -23 })
    );
    assert_eq!(
        single(-90.0).decode(),
        Number::Finite(Dyadic { negative: true, significand: 0xb4_0000, exponent: -17 })
    );
    assert_eq!(
        single(f32::MAX).decode(),
        Number::Finite(Dyadic { negative: false, significand: 0xff_ffff, exponent: 104 })
    );
    assert_eq!(single(f32::NAN).decode(), Number::Nan);
    assert_eq!(single(f32::NEG_INFINITY).decode(), Number::Infinite { negative: true });
}

#[test]
fn block_of_a_double_is_its_floor() {
    let mut step: i32 = -800;
    while step <= 800 {
        let value: f64 = step as f64 / 8.0;
        assert_eq!(double(value).decode().to_block(), value.floor() as i32, "{}", value);
        step += 1;
    }
    for value in [127.9f64, 128.1, -16.1, 1e9, -1e9, 2147483646.5, -2147483647.5, 5e-324, -5e-324] {
        assert_eq!(double(value).decode().to_block(), value.floor() as i32, "{}", value);
    }
    assert_eq!(double(-5e-324).decode().to_block(), -1);
    assert_eq!(double(-0.0).decode().to_block(), 0);
}

#[test]
fn block_of_a_double_out_of_range_is_the_nearest_bound() {
    assert_eq!(double(2147483647.0).decode().to_block(), i32::MAX);
    assert_eq!(double(2147483648.0).decode().to_block(), i32::MAX);
    assert_eq!(double(1e300).decode().to_block(), i32::MAX);
    assert_eq!(double(f64::MAX).decode().to_block(), i32::MAX);
    assert_eq!(double(f64::INFINITY).decode().to_block(), i32::MAX);
    assert_eq!(double(-2147483648.0).decode().to_block(), i32::MIN);
    assert_eq!(double(-2147483648.5).decode().to_block(), i32::MIN);
    assert_eq!(double(-1e300).decode().to_block(), i32::MIN);
    assert_eq!(double(f64::NEG_INFINITY).decode().to_block(), i32::MIN);
    assert_eq!(double(f64::NAN).decode().to_block(), 0);
}

#[test]
fn parts_give_the_whole_and_the_fraction() {
    let d: Dyadic = Dyadic { negative: false, significand: 5, exponent: -1 };
    assert_eq!(d.parts(), (2, true));
    let d: Dyadic = Dyadic { negative: true, significand: 5, exponent: 2 };
    assert_eq!(d.parts(), (20, false));
    assert_eq!(d.floor_i32(), -20);
    let d: Dyadic = Dyadic { negative: false, significand: 3, exponent: 63 };
    assert_eq!(d.parts(), (u64::MAX, false));
    let d: Dyadic = Dyadic { negative: false, significand: 1, exponent: 63 };
    assert_eq!(d.parts(), (1u64 << 63, false));
    let d: Dyadic = Dyadic { negative: false, significand: 1, exponent: i32::MAX };
    assert_eq!(d.parts(), (u64::MAX, false));
    let d: Dyadic = Dyadic { negative: false, significand: u64::MAX, exponent: i32::MIN };
    assert_eq!(d.parts(), (0, true));
    let d: Dyadic = Dyadic { negative: true, significand: 1, exponent: -64 };
    assert_eq!(d.parts(), (0, true));
    assert_eq!(d.floor_i32(), -1);
    let d: Dyadic = Dyadic { negative: false, significand: 0, exponent: 1000 };
    assert_eq!(d.parts(), (0, false));
}

#[test]
fn floor_rem_wraps_into_the_modulus() {
    let mut step: i32 = -6000;
    while step <= 6000 {
        let value: f32 = step as f32 / 4.0;
        let expected: i64 = (value.floor() as i64).rem_euclid(360);
        assert_eq!(finite32(value).floor_rem(360) as i64, expected, "{}", value);
        step += 1;
    }
    assert_eq!(finite32(-0.25).floor_rem(360), 359);
    assert_eq!(finite32(-360.0).floor_rem(360), 0);
    assert_eq!(finite32(-360.25).floor_rem(360), 359);
    assert_eq!(finite32(7.5).floor_rem(1), 0);
    assert_eq!(finite32(-7.5).floor_rem(1), 0);
    assert_eq!(finite32(-7.5).floor_rem(5), 2);
}

#[test]
fn floor_rem_of_a_large_number_is_exact() {
    for value in [1e20f32, 3.0e38, f32::MAX, 16777216.0, 4294967296.0] {
        let exact: u128 = value as u128;
        assert_eq!(finite32(value).floor_rem(360) as u128, exact % 360, "{}", value);
        let wrapped: u128 = (360 - exact % 360) % 360;
        assert_eq!(finite32(-value).floor_rem(360) as u128, wrapped, "{}", value);
        assert_eq!(finite32(value).floor_rem(7) as u128, exact % 7, "{}", value);
    }
}

#[test]
fn comparing_with_an_integer() {
    assert!(single(-70.0).decode().is_at_most(-70));
    assert!(single(-70.5).decode().is_at_most(-70));
    assert!(!single(-69.99).decode().is_at_most(-70));
    assert!(single(f32::NEG_INFINITY).decode().is_at_most(-70));
    assert!(!single(f32::INFINITY).decode().is_at_most(-70));
    assert!(!single(f32::NAN).decode().is_at_most(-70));
    assert!(single(-1e30).decode().is_at_most(i16::MIN));
    assert!(!single(1e30).decode().is_at_most(i16::MAX));
    assert!(single(70.0).decode().is_at_least(70));
    assert!(single(70.01).decode().is_at_least(70));
    assert!(!single(69.99).decode().is_at_least(70));
    assert!(single(f32::INFINITY).decode().is_at_least(70));
    assert!(!single(f32::NEG_INFINITY).decode().is_at_least(70));
    assert!(!single(f32::NAN).decode().is_at_least(70));
    assert!(single(1e30).decode().is_at_least(i16::MAX));
    assert!(!single(-1e30).decode().is_at_least(i16::MIN));
}

#[test]
fn cell_is_the_block_divided_by_16_rounding_down() {
    let mut block: i32 = -100;
    while block <= 100 {
        assert_eq!(block_cell(block), block >> 4, "{}", block);
        block += 1;
    }
    assert_eq!(block_cell(127), 7);
    assert_eq!(block_cell(128), 8);
    assert_eq!(block_cell(-1), -1);
    assert_eq!(block_cell(-16), -1);
    assert_eq!(block_cell(-17), -2);
    assert_eq!(block_cell(i32::MAX), i32::MAX >> 4);
    assert_eq!(block_cell(i32::MIN), i32::MIN >> 4);
}

fn direction_by_floats(yaw: f32) -> BlockDirection {
    match ((yaw / 90.0 + 0.5).floor() as i32 & 3).abs() as u32 {
        0 => BlockDirection::South,
        1 => BlockDirection::West,
        2 => BlockDirection::North,
        3 => BlockDirection::East,
        _ => BlockDirection::South,
    }
}

fn facing_by_floats(pitch: f32, yaw: f32) -> BlockFacing {
    let yaw: f32 = yaw.rem_euclid(360.0);
    if pitch <= -70.0 {
        BlockFacing::Up
    } else if pitch >= 70.0 {
        BlockFacing::Down
    } else if (45.0..=135.0).contains(&yaw) {
        BlockFacing::West
    } else if (135.0..=225.0).contains(&yaw) {
        BlockFacing::North
    } else if (225.0..=315.0).contains(&yaw) {
        BlockFacing::East
    } else {
        BlockFacing::South
    }
}

#[test]
fn direction_of_the_four_quarter_turns() {
    assert_eq!(BlockDirection::from_yaw(single(0.0)), BlockDirection::South);
    assert_eq!(BlockDirection::from_yaw(single(90.0)), BlockDirection::West);
    assert_eq!(BlockDirection::from_yaw(single(180.0)), BlockDirection::North);
    assert_eq!(BlockDirection::from_yaw(single(270.0)), BlockDirection::East);
    assert_eq!(BlockDirection::from_yaw(single(360.0)), BlockDirection::South);
    assert_eq!(BlockDirection::from_yaw(single(-90.0)), BlockDirection::East);
    assert_eq!(BlockDirection::from_yaw(single(44.75)), BlockDirection::South);
    assert_eq!(BlockDirection::from_yaw(single(45.0)), BlockDirection::West);
    assert_eq!(BlockDirection::from_yaw(single(-45.0)), BlockDirection::South);
    assert_eq!(BlockDirection::from_yaw(single(-45.25)), BlockDirection::East);
    assert_eq!(BlockDirection::from_yaw(single(f32::NAN)), BlockDirection::South);
    assert_eq!(BlockDirection::from_yaw(single(f32::INFINITY)), BlockDirection::East);
    assert_eq!(BlockDirection::from_yaw(single(f32::NEG_INFINITY)), BlockDirection::South);
}

#[test]
fn direction_agrees_with_rounding_in_floats() {
    let mut step: i32 = -4000;
    while step <= 4000 {
        let yaw: f32 = step as f32 / 4.0;
        assert_eq!(BlockDirection::from_yaw(single(yaw)), direction_by_floats(yaw), "{}", yaw);
        step += 1;
    }
}

#[test]
fn facing_of_pitch_and_yaw() {
    for yaw in [0.0f32, 90.0, 200.0, -30.0, 1e20, f32::NAN] {
        assert_eq!(BlockFacing::from_rotation(single(80.0), single(yaw)), BlockFacing::Down);
        assert_eq!(BlockFacing::from_rotation(single(70.0), single(yaw)), BlockFacing::Down);
        assert_eq!(BlockFacing::from_rotation(single(-70.0), single(yaw)), BlockFacing::Up);
        assert_eq!(BlockFacing::from_rotation(single(-90.0), single(yaw)), BlockFacing::Up);
    }
    assert_eq!(BlockFacing::from_rotation(single(0.0), single(200.0)), BlockFacing::North);
    assert_eq!(BlockFacing::from_rotation(single(0.0), single(0.0)), BlockFacing::South);
    assert_eq!(BlockFacing::from_rotation(single(0.0), single(90.0)), BlockFacing::West);
    assert_eq!(BlockFacing::from_rotation(single(0.0), single(270.0)), BlockFacing::East);
    assert_eq!(BlockFacing::from_rotation(single(69.5), single(-90.0)), BlockFacing::East);
    assert_eq!(BlockFacing::from_rotation(single(f32::NAN), single(90.0)), BlockFacing::West);
    assert_eq!(BlockFacing::from_rotation(single(0.0), single(f32::NAN)), BlockFacing::South);
    assert_eq!(BlockFacing::from_rotation(single(0.0), single(f32::INFINITY)), BlockFacing::South);
}

#[test]
fn facing_on_a_border_belongs_to_the_sector_named_first() {
    assert_eq!(BlockFacing::from_rotation(single(0.0), single(45.0)), BlockFacing::West);
    assert_eq!(BlockFacing::from_rotation(single(0.0), single(135.0)), BlockFacing::West);
    assert_eq!(BlockFacing::from_rotation(single(0.0), single(135.25)), BlockFacing::North);
    assert_eq!(BlockFacing::from_rotation(single(0.0), single(225.0)), BlockFacing::North);
    assert_eq!(BlockFacing::from_rotation(single(0.0), single(225.25)), BlockFacing::East);
    assert_eq!(BlockFacing::from_rotation(single(0.0), single(315.0)), BlockFacing::East);
    assert_eq!(BlockFacing::from_rotation(single(0.0), single(315.25)), BlockFacing::South);
    assert_eq!(BlockFacing::from_rotation(single(0.0), single(44.75)), BlockFacing::South);
    assert_eq!(BlockFacing::from_rotation(single(0.0), single(-225.0)), BlockFacing::West);
    assert_eq!(BlockFacing::from_rotation(single(0.0), single(405.0)), BlockFacing::West);
}

#[test]
fn facing_agrees_with_the_sectors_in_floats() {
    for pitch in [-90.0f32, -70.25, -70.0, -69.75, 0.0, 69.75, 70.0, 70.25, 90.0] {
        let mut step: i32 = -4000;
        while step <= 4000 {
            let yaw: f32 = step as f32 / 4.0;
            assert_eq!(
                BlockFacing::from_rotation(single(pitch), single(yaw)),
                facing_by_floats(pitch, yaw),
                "{} {}",
                pitch,
                yaw
            );
            step += 1;
        }
    }
}

#[test]
fn positions_are_ordered_along_a_facing() {
    let a: BlockPos = BlockPos::new(0, 5, -3);
    let b: BlockPos = BlockPos::new(10, 5, -4);
    assert_eq!(a.compare_direction(b, BlockFacing::East), Ordering::Less);
    assert_eq!(a.compare_direction(b, BlockFacing::West), Ordering::Greater);
    assert_eq!(a.compare_direction(b, BlockFacing::Up), Ordering::Equal);
    assert_eq!(a.compare_direction(b, BlockFacing::Down), Ordering::Equal);
    assert_eq!(a.compare_direction(b, BlockFacing::South), Ordering::Greater);
    assert_eq!(a.compare_direction(b, BlockFacing::North), Ordering::Less);
    let low: BlockPos = BlockPos::new(i32::MIN, i32::MIN, i32::MIN);
    let high: BlockPos = BlockPos::new(i32::MAX, i32::MAX, i32::MAX);
    assert_eq!(low.compare_direction(high, BlockFacing::East), Ordering::Less);
    assert_eq!(low.compare_direction(high, BlockFacing::West), Ordering::Greater);
}

#[test]
fn decimal_text_of_integers() {
    assert_eq!(decimal(0), "0");
    assert_eq!(decimal(7), "7");
    assert_eq!(decimal(10), "10");
    assert_eq!(decimal(-1), "-1");
    assert_eq!(decimal(1234567890), "1234567890");
    assert_eq!(decimal(i32::MAX), "2147483647");
    assert_eq!(decimal(i32::MIN), "-2147483648");
    let mut value: i32 = -1500;
    while value <= 1500 {
        assert_eq!(decimal(value), value.to_string());
        value += 1;
    }
}

#[test]
fn chat_components_are_json_objects() {
    assert_eq!(plain_text_json("Timed out."), "{\"text\":\"Timed out.\"}");
    assert_eq!(colored_text_json("hi", "yellow"), "{\"color\":\"yellow\",\"text\":\"hi\"}");
    assert_eq!(
        colored_text_json("hi \"q\"\n", "red"),
        "{\"color\":\"red\",\"text\":\"hi \\\"q\\\"\\n\"}"
    );
    assert_eq!(colored_text_json("", ""), "{\"color\":\"\",\"text\":\"\"}");
}
