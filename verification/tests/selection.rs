use player_session::blocks::{BlockFacing, BlockPos};
use player_session::packets::Packet;
use player_session::player::Player;
use player_session::worldedit::{corner_on_side, cui_message, position_message};
use player_session::worldedit::{WorldEditClipboard, WorldEditPosition, WorldEditUndo};
use std::cmp::Ordering;

fn new_player() -> Player {
    Player::create_player(7, String::from("someone"), 42, 0)
}

fn undo(tag: i32) -> WorldEditUndo {
    WorldEditUndo {
        clipboard: WorldEditClipboard {
            offset_x: 0,
            offset_y: 0,
            offset_z: 0,
            size_x: 1,
            size_y: 1,
            size_z: 1,
            data: vec![tag as u32],
        },
        pos: BlockPos::new(tag, tag, tag),
        plot_x: tag,
        plot_z: -tag,
    }
}

#[test]
fn corner_numbers_and_words() {
    assert_eq!(WorldEditPosition::First.to_i(), 0);
    assert_eq!(WorldEditPosition::Second.to_i(), 1);
    assert_eq!(WorldEditPosition::First.to_str(), "First");
    assert_eq!(WorldEditPosition::Second.to_str(), "Second");
}

#[test]
fn texts_for_a_corner() {
    let pos: BlockPos = BlockPos::new(1, -2, 300);
    assert_eq!(position_message(WorldEditPosition::First, pos), "First position set to (1, -2, 300)");
    assert_eq!(cui_message(WorldEditPosition::First, pos), "p|0|1|-2|300|0");
    let pos: BlockPos = BlockPos::new(i32::MIN, 0, i32::MAX);
    assert_eq!(
        position_message(WorldEditPosition::Second, pos),
        "Second position set to (-2147483648, 0, 2147483647)"
    );
    assert_eq!(cui_message(WorldEditPosition::Second, pos), "p|1|-2147483648|0|2147483647|0");
}

#[test]
fn setting_a_corner_stores_it_and_tells_the_client() {
    let mut player: Player = new_player();
    assert_eq!(player.worldedit_position(WorldEditPosition::First), None);
    assert_eq!(player.worldedit_position(WorldEditPosition::Second), None);
    let pos: BlockPos = BlockPos::new(4, 5, -6);
    player.worldedit_set_position(pos, WorldEditPosition::Second);
    assert_eq!(player.worldedit_position(WorldEditPosition::First), None);
    assert_eq!(player.worldedit_position(WorldEditPosition::Second), Some(pos));
    assert_eq!(player.second_position, Some(pos));
    assert_eq!(
        player.outbox,
        vec![
            Packet::ChatMessage {
                message: String::from(
                    "{\"color\":\"light_purple\",\"text\":\"Second position set to (4, 5, -6)\"}"
                ),
                sender: 0,
                position: 1,
            },
            Packet::PluginMessage {
                channel: String::from("worldedit:cui"),
                data: b"p|1|4|5|-6|0".to_vec(),
            },
        ]
    );
}

#[test]
fn setting_the_first_and_the_second_corner() {
    let mut player: Player = new_player();
    player.worldedit_set_first_position(BlockPos::new(1, 2, 3));
    player.worldedit_set_second_position(BlockPos::new(4, 5, 6));
    assert_eq!(player.first_position, Some(BlockPos::new(1, 2, 3)));
    assert_eq!(player.second_position, Some(BlockPos::new(4, 5, 6)));
    player.worldedit_set_first_position(BlockPos::new(7, 8, 9));
    assert_eq!(player.first_position, Some(BlockPos::new(7, 8, 9)));
    assert_eq!(player.second_position, Some(BlockPos::new(4, 5, 6)));
    assert_eq!(player.outbox.len(), 6);
    assert_eq!(
        player.outbox[1],
        Packet::PluginMessage { channel: String::from("worldedit:cui"), data: b"p|0|1|2|3|0".to_vec() }
    );
    assert_eq!(
        player.outbox[3],
        Packet::PluginMessage { channel: String::from("worldedit:cui"), data: b"p|1|4|5|6|0".to_vec() }
    );
}

#[test]
fn cui_text_goes_out_as_its_bytes() {
    let mut player: Player = new_player();
    player.worldedit_send_cui("s|cuboid");
    player.worldedit_send_cui("é");
    player.worldedit_send_cui("");
    assert_eq!(
        player.outbox,
        vec![
            Packet::PluginMessage { channel: String::from("worldedit:cui"), data: b"s|cuboid".to_vec() },
            Packet::PluginMessage { channel: String::from("worldedit:cui"), data: vec![0xc3, 0xa9] },
            Packet::PluginMessage { channel: String::from("worldedit:cui"), data: vec![] },
        ]
    );
}

#[test]
fn the_near_corner_from_an_order() {
    assert_eq!(corner_on_side(Ordering::Less), WorldEditPosition::First);
    assert_eq!(corner_on_side(Ordering::Equal), WorldEditPosition::First);
    assert_eq!(corner_on_side(Ordering::Greater), WorldEditPosition::Second);
}

#[test]
fn no_corner_is_near_while_one_is_unset() {
    let mut player: Player = new_player();
    assert_eq!(player.worldedit_pos_on_side(BlockFacing::East), None);
    player.first_position = Some(BlockPos::new(0, 0, 0));
    assert_eq!(player.worldedit_pos_on_side(BlockFacing::East), None);
    player.first_position = None;
    player.second_position = Some(BlockPos::new(0, 0, 0));
    assert_eq!(player.worldedit_pos_on_side(BlockFacing::East), None);
    assert!(player.outbox.is_empty());
}

#[test]
fn the_near_corner_along_a_facing() {
    let mut player: Player = new_player();
    player.first_position = Some(BlockPos::new(0, 0, 0));
    player.second_position = Some(BlockPos::new(10, 0, 0));
    assert_eq!(player.worldedit_pos_on_side(BlockFacing::East), Some(WorldEditPosition::First));
    assert_eq!(player.worldedit_pos_on_side(BlockFacing::West), Some(WorldEditPosition::Second));
    player.first_position = Some(BlockPos::new(10, 0, 0));
    player.second_position = Some(BlockPos::new(0, 0, 0));
    assert_eq!(player.worldedit_pos_on_side(BlockFacing::East), Some(WorldEditPosition::Second));
    assert_eq!(player.worldedit_pos_on_side(BlockFacing::West), Some(WorldEditPosition::First));
}

#[test]
fn corners_that_lie_equally_far_give_the_first() {
    let mut player: Player = new_player();
    player.first_position = Some(BlockPos::new(0, 0, 0));
    player.second_position = Some(BlockPos::new(10, 0, 0));
    for facing in [BlockFacing::North, BlockFacing::South, BlockFacing::Up, BlockFacing::Down] {
        assert_eq!(player.worldedit_pos_on_side(facing), Some(WorldEditPosition::First));
    }
    player.second_position = Some(BlockPos::new(0, 0, 0));
    assert_eq!(player.worldedit_pos_on_side(BlockFacing::East), Some(WorldEditPosition::First));
}

#[test]
fn the_near_corner_along_the_other_axes() {
    let mut player: Player = new_player();
    player.first_position = Some(BlockPos::new(0, 7, -7));
    player.second_position = Some(BlockPos::new(0, -7, 7));
    assert_eq!(player.worldedit_pos_on_side(BlockFacing::Up), Some(WorldEditPosition::Second));
    assert_eq!(player.worldedit_pos_on_side(BlockFacing::Down), Some(WorldEditPosition::First));
    assert_eq!(player.worldedit_pos_on_side(BlockFacing::South), Some(WorldEditPosition::First));
    assert_eq!(player.worldedit_pos_on_side(BlockFacing::North), Some(WorldEditPosition::Second));
}

#[test]
fn undo_gives_entries_back_in_reverse_order() {
    let mut player: Player = new_player();
    player.worldedit_push_undo(undo(1));
    player.worldedit_push_undo(undo(2));
    player.worldedit_push_undo(undo(3));
    assert_eq!(player.worldedit_undo.len(), 3);
    assert_eq!(player.worldedit_pop_undo(), Some(undo(3)));
    assert_eq!(player.worldedit_pop_undo(), Some(undo(2)));
    assert_eq!(player.worldedit_undo, vec![undo(1)]);
    assert_eq!(player.worldedit_pop_undo(), Some(undo(1)));
    assert!(player.worldedit_undo.is_empty());
}

#[test]
fn undo_on_an_empty_history_changes_nothing() {
    let mut player: Player = new_player();
    player.first_position = Some(BlockPos::new(1, 2, 3));
    assert_eq!(player.worldedit_pop_undo(), None);
    assert_eq!(player.worldedit_pop_undo(), None);
    assert!(player.worldedit_undo.is_empty());
    assert!(player.outbox.is_empty());
    assert_eq!(player.first_position, Some(BlockPos::new(1, 2, 3)));
    player.worldedit_push_undo(undo(9));
    assert_eq!(player.worldedit_pop_undo(), Some(undo(9)));
    assert_eq!(player.worldedit_pop_undo(), None);
}
