use ping_pong::ball::Ball;
use ping_pong::command::Command;
use ping_pong::direction::Direction;
use ping_pong::game::Action;
use ping_pong::game::Game;
use ping_pong::game::Report;
use ping_pong::key::Key;
use ping_pong::key::KeyPress;
use ping_pong::key::Modifiers;
use ping_pong::player::Player;
use ping_pong::point::Point;

fn game() -> Game {
    Game::with_velocity(15, 15, Direction::new(1, 1)).unwrap()
}

fn key(code: Key) -> Option<KeyPress> {
    Some(KeyPress::new(code, Modifiers::none()))
}

fn report(elapsed: u64, key_event: Option<KeyPress>) -> Report {
    Report { elapsed, key_event }
}

#[test]
fn new_game_is_laid_out() {
    for _ in 0..50 {
        let game = Game::new(15, 15);
        assert_eq!(game.get_width(), 15);
        assert_eq!(game.get_height(), 15);
        assert!(!game.is_done());
        assert_eq!(*game.get_player(), Player::new(2, 6, 5));
        let ball = game.get_ball();
        assert_eq!(*ball.get_position(), Point::new(7, 7));
        assert_eq!(ball.get_character(), 'o');
        let velocity = ball.get_velocity();
        assert!(velocity.x == -1 || velocity.x == 1);
        assert!(velocity.y == -1 || velocity.y == 1);
        assert_eq!(game.calculate_interval(), 675);
    }
}

#[test]
fn game_with_velocity_is_laid_out() {
    let game = Game::with_velocity(20, 9, Direction::new(-1, 1)).unwrap();
    assert_eq!(game.get_width(), 20);
    assert_eq!(game.get_height(), 9);
    assert!(!game.is_done());
    assert_eq!(*game.get_player(), Player::new(2, 4, 3));
    assert_eq!(*game.get_ball(), Ball::with_velocity(10, 4, Direction::new(-1, 1)));
}

#[test]
fn game_needs_a_diagonal() {
    assert!(Game::with_velocity(15, 15, Direction::new(1, 1)).is_some());
    assert!(Game::with_velocity(15, 15, Direction::new(1, -1)).is_some());
    assert!(Game::with_velocity(15, 15, Direction::new(-1, 1)).is_some());
    assert!(Game::with_velocity(15, 15, Direction::new(-1, -1)).is_some());
    assert!(Game::with_velocity(15, 15, Direction::new(0, 1)).is_none());
    assert!(Game::with_velocity(15, 15, Direction::new(1, 0)).is_none());
    assert!(Game::with_velocity(15, 15, Direction::new(2, 1)).is_none());
    assert!(Game::with_velocity(15, 15, Direction::new(1, -2)).is_none());
    assert!(Game::with_velocity(15, 15, Direction::new(i16::MIN, i16::MAX)).is_none());
}

#[test]
fn tiny_arenas_are_accepted() {
    let game = Game::with_velocity(0, 0, Direction::new(1, 1)).unwrap();
    assert_eq!(*game.get_player(), Player::new(2, 1, 0));
    assert_eq!(*game.get_ball().get_position(), Point::new(0, 0));
    let game = Game::with_velocity(u16::MAX, u16::MAX, Direction::new(1, 1)).unwrap();
    assert_eq!(*game.get_player(), Player::new(2, 21846, 21845));
    assert_eq!(*game.get_ball().get_position(), Point::new(32767, 32767));
}

#[test]
fn tick_takes_675_milliseconds() {
    assert_eq!(game().calculate_interval(), 675);
}

#[test]
fn step_asks_to_wait_for_the_rest_of_the_tick() {
    let mut game = game();
    let start = game;
    assert_eq!(game.step(0, None), Action::Wait(675));
    assert_eq!(game.step(100, None), Action::Wait(575));
    assert_eq!(game.step(674, None), Action::Wait(1));
    assert_eq!(game, start);
}

#[test]
fn step_ends_the_tick_when_the_time_is_up() {
    let mut game = game();
    assert_eq!(game.step(675, None), Action::Redraw);
    assert_eq!(*game.get_ball(), Ball::with_velocity(8, 8, Direction::new(1, 1)));
    assert_eq!(*game.get_player(), Player::new(2, 6, 5));
    assert_eq!(game.step(u64::MAX, None), Action::Redraw);
    assert_eq!(*game.get_ball().get_position(), Point::new(9, 9));
}

#[test]
fn update_moves_the_ball_and_leaves_an_idle_paddle() {
    let mut game = game();
    let paddle = *game.get_player();
    for _ in 0..40 {
        game.update();
        assert_eq!(*game.get_player(), paddle);
        let position = *game.get_ball().get_position();
        assert!(1 <= position.x && position.x <= 15);
        assert!(1 <= position.y && position.y <= 15);
    }
}

#[test]
fn update_carries_a_waiting_move_out_once() {
    let mut game = game();
    game.handle_command(Command::Up);
    assert!(game.get_player().is_moving());
    assert_eq!(game.get_player().get_direction(), Command::Up);
    assert_eq!(game.get_player().get_position().y, 6);
    game.update();
    assert!(!game.get_player().is_moving());
    assert_eq!(game.get_player().get_position().y, 5);
    game.update();
    assert_eq!(game.get_player().get_position().y, 5);
    assert_eq!(game.get_player().get_direction(), Command::Up);
}

#[test]
fn handle_command_moves_nothing() {
    let mut game = game();
    let ball = *game.get_ball();
    game.handle_command(Command::Down);
    assert_eq!(*game.get_ball(), ball);
    assert_eq!(*game.get_player().get_position(), Point::new(2, 6));
    assert!(!game.is_done());
    game.handle_command(Command::Quit);
    assert!(game.is_done());
    assert_eq!(*game.get_ball(), ball);
    assert_eq!(*game.get_player().get_position(), Point::new(2, 6));
    assert_eq!(game.get_player().get_direction(), Command::Down);
}

#[test]
fn arrow_during_the_wait_moves_the_paddle_at_the_end_of_the_tick() {
    let mut game = game();
    assert_eq!(game.step(0, None), Action::Wait(675));
    assert_eq!(game.step(120, key(Key::Up)), Action::Wait(555));
    assert_eq!(game.get_player().get_position().y, 6);
    assert!(game.get_player().is_moving());
    assert_eq!(game.step(675, None), Action::Redraw);
    assert_eq!(game.get_player().get_position().y, 5);
    assert!(!game.get_player().is_moving());
    assert_eq!(*game.get_ball().get_position(), Point::new(8, 8));
}

#[test]
fn arrow_that_uses_the_time_up_is_carried_out_at_once() {
    let mut game = game();
    assert_eq!(game.step(700, key(Key::Down)), Action::Redraw);
    assert_eq!(game.get_player().get_position().y, 7);
    assert!(!game.get_player().is_moving());
}

#[test]
fn last_arrow_of_a_tick_wins() {
    let mut game = game();
    game.step(10, key(Key::Up));
    game.step(20, key(Key::Up));
    game.step(30, key(Key::Down));
    assert_eq!(game.step(675, None), Action::Redraw);
    assert_eq!(game.get_player().get_position().y, 7);
}

#[test]
fn paddle_of_the_game_goes_up_and_stops_at_the_top() {
    let mut game = game();
    let mut rows = Vec::new();
    for _ in 0..7 {
        game.step(1, key(Key::Up));
        assert_eq!(game.step(675, None), Action::Redraw);
        rows.push(game.get_player().get_position().y);
    }
    assert_eq!(rows, vec![5, 4, 3, 2, 1, 1, 1]);
}

#[test]
fn quit_during_the_wait_ends_the_session_before_the_paddle_moves() {
    let mut game = game();
    assert_eq!(game.step(0, None), Action::Wait(675));
    let before = game;
    assert_eq!(game.step(300, key(Key::Char('q'))), Action::Stop);
    assert!(game.is_done());
    assert_eq!(*game.get_player(), *before.get_player());
    assert_eq!(*game.get_ball(), *before.get_ball());
}

#[test]
fn quit_after_an_arrow_leaves_the_move_waiting() {
    let mut game = game();
    assert_eq!(game.step(50, key(Key::Up)), Action::Wait(625));
    assert_eq!(game.step(90, key(Key::Esc)), Action::Stop);
    assert!(game.is_done());
    assert_eq!(game.get_player().get_position().y, 6);
    assert!(game.get_player().is_moving());
    assert_eq!(*game.get_ball().get_position(), Point::new(7, 7));
}

#[test]
fn quit_when_the_time_is_up_skips_the_update() {
    let mut game = game();
    let before = game;
    assert_eq!(game.step(5000, Some(KeyPress::new(Key::Char('c'), Modifiers::control()))), Action::Stop);
    assert_eq!(*game.get_ball(), *before.get_ball());
    assert_eq!(*game.get_player(), *before.get_player());
}

#[test]
fn session_that_is_over_stays_over() {
    let mut game = game();
    game.step(1, key(Key::Char('Q')));
    let over = game;
    assert_eq!(game.step(0, None), Action::Stop);
    assert_eq!(game.step(900, key(Key::Up)), Action::Stop);
    assert_eq!(game, over);
}

#[test]
fn run_plays_a_recorded_session() {
    let reports = vec![
        report(0, None),
        report(200, key(Key::Down)),
        report(675, None),
        report(0, None),
        report(675, key(Key::Down)),
        report(0, None),
        report(400, key(Key::Char('x'))),
        report(680, None),
    ];
    let mut played = game();
    played.run(&reports);
    let mut stepped = game();
    for r in &reports {
        stepped.step(r.elapsed, r.key_event);
    }
    assert_eq!(played, stepped);
    assert!(!played.is_done());
    assert_eq!(*played.get_player().get_position(), Point::new(2, 8));
    assert_eq!(*played.get_ball().get_position(), Point::new(10, 10));
}

#[test]
fn run_stops_at_quit() {
    let reports = vec![
        report(675, None),
        report(10, key(Key::Up)),
        report(20, key(Key::Char('q'))),
        report(675, None),
        report(675, key(Key::Down)),
    ];
    let mut game = game();
    game.run(&reports);
    assert!(game.is_done());
    assert_eq!(*game.get_ball().get_position(), Point::new(8, 8));
    assert_eq!(game.get_player().get_position().y, 6);
}

#[test]
fn run_without_reports_changes_nothing() {
    let mut game = game();
    game.run(&Vec::new());
    assert_eq!(game, Game::with_velocity(15, 15, Direction::new(1, 1)).unwrap());
}

#[test]
fn ball_and_paddle_stay_inside_through_a_long_session() {
    let mut game = Game::new(15, 15);
    for tick in 0..500u32 {
        let arrow = if tick % 7 < 4 { Key::Down } else { Key::Up };
        assert_eq!(game.step(3, key(arrow)), Action::Wait(672));
        assert_eq!(game.step(675, None), Action::Redraw);
        let ball = *game.get_ball().get_position();
        assert!(1 <= ball.x && ball.x <= 15);
        assert!(1 <= ball.y && ball.y <= 15);
        let top = game.get_player().get_position().y;
        assert!(1 <= top && top <= 11);
    }
}
