use ping_pong::command::Command;
use ping_pong::player::Player;
use ping_pong::point::Point;

fn press(player: &mut Player, command: Command, arena_height: u16) {
    player.set_direction(command);
    player.set_is_moving(true);
    player.move_player(arena_height);
}

#[test]
fn new_paddle_rests_and_points_down() {
    let player = Player::new(2, 6, 5);
    assert_eq!(*player.get_position(), Point::new(2, 6));
    assert_eq!(player.get_height(), 5);
    assert_eq!(player.get_direction(), Command::Down);
    assert!(!player.is_moving());
}

#[test]
fn paddle_goes_up_three_rows_and_stops_at_the_top() {
    let mut player = Player::new(2, 6, 5);
    for _ in 0..3 {
        press(&mut player, Command::Up, 15);
    }
    assert_eq!(player.get_position().y, 3);
    for _ in 0..3 {
        press(&mut player, Command::Up, 15);
    }
    assert_eq!(player.get_position().y, 1);
    assert_eq!(player.get_position().x, 2);
    assert_eq!(player.get_height(), 5);
}

#[test]
fn paddle_goes_down_until_it_reaches_past_the_last_row() {
    let mut player = Player::new(2, 6, 5);
    let mut rows = Vec::new();
    for _ in 0..8 {
        press(&mut player, Command::Down, 15);
        rows.push(player.get_position().y);
    }
    assert_eq!(rows, vec![7, 8, 9, 10, 11, 11, 11, 11]);
}

#[test]
fn paddle_stays_between_the_borders() {
    let arena_height = 9u16;
    let height = 3u16;
    for start in 1..=(arena_height - height + 1) {
        for pattern in 0u32..(1 << 10) {
            let mut player = Player::new(2, start, height);
            for bit in 0..10 {
                let command = if pattern >> bit & 1 == 1 { Command::Up } else { Command::Down };
                press(&mut player, command, arena_height);
                let y = player.get_position().y;
                assert!(1 <= y && y <= arena_height - height + 1);
            }
        }
    }
}

#[test]
fn set_direction_does_not_move_the_paddle() {
    let mut player = Player::new(2, 6, 5);
    player.set_direction(Command::Up);
    assert_eq!(player.get_direction(), Command::Up);
    assert_eq!(*player.get_position(), Point::new(2, 6));
    assert!(!player.is_moving());
}

#[test]
fn set_is_moving_only_marks() {
    let mut player = Player::new(2, 6, 5);
    player.set_is_moving(true);
    assert!(player.is_moving());
    assert_eq!(*player.get_position(), Point::new(2, 6));
    assert_eq!(player.get_direction(), Command::Down);
    player.set_is_moving(false);
    assert_eq!(player, Player::new(2, 6, 5));
}

#[test]
fn move_keeps_intent_and_mark() {
    let mut player = Player::new(2, 6, 5);
    press(&mut player, Command::Up, 15);
    assert_eq!(player.get_direction(), Command::Up);
    assert!(player.is_moving());
    assert_eq!(player.get_position().y, 5);
}

#[test]
fn quit_as_intent_moves_nothing() {
    let mut player = Player::new(2, 6, 5);
    player.set_direction(Command::Quit);
    let before = player;
    player.move_player(15);
    assert_eq!(player, before);
}

#[test]
fn paddle_without_length_goes_one_row_past_the_arena() {
    let mut player = Player::new(2, 1, 0);
    for _ in 0..5 {
        press(&mut player, Command::Down, 2);
    }
    assert_eq!(player.get_position().y, 3);
}

#[test]
fn paddle_at_the_largest_coordinates_does_not_overflow() {
    let mut player = Player::new(2, u16::MAX - 1, 2);
    press(&mut player, Command::Down, u16::MAX);
    assert_eq!(player.get_position().y, u16::MAX - 1);
    let mut tall = Player::new(2, u16::MAX, u16::MAX);
    press(&mut tall, Command::Down, u16::MAX);
    assert_eq!(tall.get_position().y, u16::MAX);
    press(&mut tall, Command::Up, u16::MAX);
    assert_eq!(tall.get_position().y, u16::MAX - 1);
}
