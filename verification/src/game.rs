//! The game: an arena with a paddle and a ball in it, and the loop that
//! advances both at a fixed pace.

use vstd::prelude::*;
use crate::ball::Ball;
use crate::ball::BallModel;
use crate::ball::DEFAULT_GLYPH;
use crate::command::Command;
use crate::direction::Direction;
use crate::frame::Cell;
use crate::key::command_for;
use crate::key::Key;
use crate::key::KeyPress;
use crate::player::PaddleModel;
use crate::player::Player;

verus! {

/// The longest tick, in milliseconds: the pace at speed 0.
pub const MAX_INTERVAL: u16 = 700;

/// The shortest tick, in milliseconds: the pace at the highest speed.
pub const MIN_INTERVAL: u16 = 200;

/// The highest speed.
pub const MAX_SPEED: u16 = 20;

/// The speed of every session.
pub const START_SPEED: u16 = 1;

/// The column in which the paddle stands.
pub const PADDLE_COLUMN: u16 = 2;

/// What the front end is to do next.
#[derive(Clone, Copy, Debug, PartialEq, Eq, Structural)]
pub enum Action {
    /// Wait for a key, for at most this many milliseconds, and report back.
    Wait(u64),
    /// The tick is over and the game has moved on: draw it, start measuring
    /// the next tick and report back.
    Redraw,
    /// The session is over.
    Stop,
}

/// What the front end saw since it last reported.
#[derive(Clone, Copy, Debug, PartialEq, Eq)]
pub struct Report {
    /// The time since the current tick began, in milliseconds.
    pub elapsed: u64,
    /// What the keyboard delivered while the front end waited, if anything.
    pub key_event: Option<KeyPress>,
}

/// What a [`Game`] is, as mathematics.
pub struct GameModel {
    /// The number of columns inside the border.
    pub width: int,
    /// The number of rows inside the border.
    pub height: int,
    /// The pace, from 0, the slowest, to the highest speed.
    pub speed: int,
    pub paddle: PaddleModel,
    pub ball: BallModel,
    /// Whether the player has asked to end the session.
    pub done: bool,
}

impl GameModel {
    /// The game as a session begins in an arena of `width` columns and
    /// `height` rows: the paddle at rest near the left border, a third of the
    /// arena long and a third of the way down; the ball in the middle, heading
    /// `dx` columns and `dy` rows per tick.
    pub open spec fn initial(width: int, height: int, dx: int, dy: int) -> GameModel {
        GameModel {
            width,
            height,
            speed: START_SPEED as int,
            paddle: PaddleModel {
                x: PADDLE_COLUMN as int,
                y: 1 + height / 3,
                height: height / 3,
                intent: Command::Down,
                moving: false,
            },
            ball: BallModel { x: width / 2, y: height / 2, dx, dy, glyph: DEFAULT_GLYPH },
            done: false,
        }
    }

    /// What holds of every game, whatever has happened to it: the arena's
    /// size and the speed are within their limits, the paddle is where and as
    /// long as it was made and between the top and bottom borders, and the
    /// ball travels along a diagonal.
    pub open spec fn wf(self) -> bool {
        &&& 0 <= self.width <= u16::MAX
        &&& 0 <= self.height <= u16::MAX
        &&& 0 <= self.speed <= MAX_SPEED
        &&& self.paddle.x == PADDLE_COLUMN
        &&& self.paddle.height == self.height / 3
        &&& self.paddle.in_arena(self.height)
        &&& self.ball.dx == -1 || self.ball.dx == 1
        &&& self.ball.dy == -1 || self.ball.dy == 1
    }

    /// Whether the ball is inside the border.
    pub open spec fn ball_in_arena(self) -> bool {
        self.ball.in_arena(self.width, self.height)
    }

    /// The length of a tick in milliseconds: it shrinks in equal parts from
    /// the longest tick at speed 0 to the shortest at the highest speed.
    pub open spec fn interval(self) -> int {
        MIN_INTERVAL + ((MAX_INTERVAL - MIN_INTERVAL) / (MAX_SPEED as int)) * (MAX_SPEED
            - self.speed)
    }

    /// The game after the player gave `command`: to quit ends the session, a
    /// direction becomes the paddle's intent and is marked as waiting.
    pub open spec fn heard(self, command: Command) -> GameModel {
        match command {
            Command::Quit => GameModel { done: true, ..self },
            _ => GameModel {
                paddle: PaddleModel { intent: command, moving: true, ..self.paddle },
                ..self
            },
        }
    }

    /// The game at the end of a tick: a waiting move of the paddle is carried
    /// out and no longer waits, and the ball advances by one step.
    pub open spec fn update(self) -> GameModel {
        GameModel {
            paddle: if self.paddle.moving {
                PaddleModel { moving: false, ..self.paddle.step(self.height) }
            } else {
                self.paddle
            },
            ball: self.ball.step(self.width, self.height),
            ..self
        }
    }

    /// The game after the front end reported that `elapsed` milliseconds of
    /// the tick have passed and that the keyboard delivered `command`.
    ///
    /// A session that is over stays as it is. Otherwise the command is taken
    /// in first; unless it ended the session, the tick ends as soon as its
    /// time is used up.
    pub open spec fn step(self, elapsed: int, command: Option<Command>) -> GameModel {
        if self.done {
            self
        } else {
            let heard = match command {
                Some(c) => self.heard(c),
                None => self,
            };
            if heard.done || elapsed < heard.interval() {
                heard
            } else {
                heard.update()
            }
        }
    }

    /// The game after each of `reports` was taken in, in turn.
    pub open spec fn run(self, reports: Seq<Report>) -> GameModel
        decreases reports.len(),
    {
        if reports.len() == 0 {
            self
        } else {
            self.run(reports.drop_last()).step(
                reports.last().elapsed as int,
                command_for(reports.last().key_event),
            )
        }
    }

    /// What the picture shows in column `column` of row `row`, both counted
    /// from 0 at the top left corner of the border.
    ///
    /// The ball hides the paddle, both hide the background, and whatever is
    /// not in the interior of the arena is border.
    pub open spec fn cell_at(self, column: int, row: int) -> Cell {
        if column == self.ball.x && row == self.ball.y {
            Cell::Ball(self.ball.glyph)
        } else if column == self.paddle.x && self.paddle.y <= row < self.paddle.y
            + self.paddle.height {
            Cell::Paddle
        } else if 1 <= column <= self.width && 1 <= row <= self.height {
            Cell::Empty
        } else {
            Cell::Border
        }
    }

    /// What the front end is asked to do after the same report.
    pub open spec fn action(self, elapsed: int, command: Option<Command>) -> Action {
        if self.done || command == Some(Command::Quit) {
            Action::Stop
        } else if elapsed < self.interval() {
            Action::Wait((self.interval() - elapsed) as u64)
        } else {
            Action::Redraw
        }
    }
}

/// A session of the game.
#[derive(Clone, Copy, Debug, PartialEq, Eq, Structural)]
pub struct Game {
    width: u16,
    height: u16,
    speed: u16,
    player: Player,
    ball: Ball,
    done: bool,
}

impl View for Game {
    type V = GameModel;

    closed spec fn view(&self) -> GameModel {
        GameModel {
            width: self.width as int,
            height: self.height as int,
            speed: self.speed as int,
            paddle: self.player@,
            ball: self.ball@,
            done: self.done,
        }
    }
}

impl Game {
    /// A new session in an arena of `width` columns and `height` rows, with
    /// the ball heading along a diagonal chosen by chance.
    pub fn new(width: u16, height: u16) -> (game: Game)
        ensures
            game@ == GameModel::initial(width as int, height as int, game@.ball.dx, game@.ball.dy),
            game@.wf(),
    {
        let third: u16 = height / 3;
        Game {
            width,
            height,
            speed: START_SPEED,
            player: Player::new(PADDLE_COLUMN, 1 + third, third),
            ball: Ball::new(width / 2, height / 2),
            done: false,
        }
    }

    /// A new session in an arena of `width` columns and `height` rows, with
    /// the ball heading along the diagonal `velocity`. There is no session
    /// for a velocity that is not a diagonal of length one.
    pub fn with_velocity(width: u16, height: u16, velocity: Direction) -> (game: Option<Game>)
        ensures
            game is Some <==> velocity.is_diagonal(),
            game matches Some(g) ==> g@.wf() && g@ == GameModel::initial(
                width as int,
                height as int,
                velocity.x as int,
                velocity.y as int,
            ),
    {
        if (velocity.x == -1 || velocity.x == 1) && (velocity.y == -1 || velocity.y == 1) {
            let third: u16 = height / 3;
            Some(
                Game {
                    width,
                    height,
                    speed: START_SPEED,
                    player: Player::new(PADDLE_COLUMN, 1 + third, third),
                    ball: Ball::with_velocity(width / 2, height / 2, velocity),
                    done: false,
                },
            )
        } else {
            None
        }
    }

    /// The paddle.
    pub fn get_player(&self) -> (player: &Player)
        ensures
            player@ == self@.paddle,
    {
        &self.player
    }

    /// The ball.
    pub fn get_ball(&self) -> (ball: &Ball)
        ensures
            ball@ == self@.ball,
    {
        &self.ball
    }

    /// The number of columns inside the border.
    pub fn get_width(&self) -> (width: u16)
        ensures
            width == self@.width,
    {
        self.width
    }

    /// The number of rows inside the border.
    pub fn get_height(&self) -> (height: u16)
        ensures
            height == self@.height,
    {
        self.height
    }

    /// Whether the player has ended the session.
    pub fn is_done(&self) -> (done: bool)
        ensures
            done == self@.done,
    {
        self.done
    }

    /// The length of a tick, in milliseconds.
    pub fn calculate_interval(&self) -> (interval: u64)
        requires
            self@.speed <= MAX_SPEED,
        ensures
            interval == self@.interval(),
            MIN_INTERVAL <= interval <= MAX_INTERVAL,
    {
        let speed: u16 = MAX_SPEED - self.speed;
        let per_speed: u16 = (MAX_INTERVAL - MIN_INTERVAL) / MAX_SPEED;
        assert(per_speed == 25);
        (MIN_INTERVAL + per_speed * speed) as u64
    }

    /// The command that a key press stands for, if the keyboard delivered one
    /// and it means anything.
    pub fn get_command(key_event: Option<KeyPress>) -> (command: Option<Command>)
        ensures
            command == command_for(key_event),
    {
        let press = match key_event {
            Some(press) => press,
            None => return None,
        };
        match press.code {
            Key::Char('q') | Key::Char('Q') | Key::Esc => Some(Command::Quit),
            Key::Char('c') | Key::Char('C') => if press.modifiers.is_only_control() {
                Some(Command::Quit)
            } else {
                None
            },
            Key::Up => Some(Command::Up),
            Key::Down => Some(Command::Down),
            _ => None,
        }
    }

    /// Takes in a command of the player. Nothing moves yet.
    pub fn handle_command(&mut self, command: Command)
        ensures
            final(self)@ == old(self)@.heard(command),
            old(self)@.wf() ==> final(self)@.wf(),
    {
        match command {
            Command::Quit => {
                self.done = true;
            },
            Command::Down | Command::Up => {
                self.player.set_direction(command);
                self.player.set_is_moving(true);
            },
        }
    }

    /// Ends a tick: carries out a waiting move of the paddle and advances the
    /// ball.
    pub fn update(&mut self)
        requires
            old(self)@.wf(),
        ensures
            final(self)@ == old(self)@.update(),
            final(self)@.wf(),
            !old(self)@.paddle.moving ==> final(self)@.paddle == old(self)@.paddle,
            old(self)@.ball_in_arena() ==> final(self)@.ball_in_arena(),
    {
        if self.player.is_moving() {
            self.player.move_player(self.height);
            self.player.set_is_moving(false);
        }
        self.ball.move_ball(self.width, self.height);
    }

    /// Takes in one report of the front end and says what it is to do next.
    ///
    /// `elapsed` is the time since the current tick began, in milliseconds,
    /// and `key_event` is what the keyboard delivered while the front end
    /// waited, if anything.
    pub fn step(&mut self, elapsed: u64, key_event: Option<KeyPress>) -> (action: Action)
        requires
            old(self)@.wf(),
        ensures
            final(self)@ == old(self)@.step(elapsed as int, command_for(key_event)),
            action == old(self)@.action(elapsed as int, command_for(key_event)),
            final(self)@.wf(),
            old(self)@.ball_in_arena() ==> final(self)@.ball_in_arena(),
    {
        if self.done {
            return Action::Stop;
        }
        if let Some(command) = Game::get_command(key_event) {
            self.handle_command(command);
            if self.done {
                return Action::Stop;
            }
        }
        let interval: u64 = self.calculate_interval();
        if elapsed < interval {
            Action::Wait(interval - elapsed)
        } else {
            self.update();
            Action::Redraw
        }
    }

    /// Plays a recorded session: takes in `reports` one after the other until
    /// they are used up or the player has ended the session.
    pub fn run(&mut self, reports: &Vec<Report>)
        requires
            old(self)@.wf(),
        ensures
            final(self)@ == old(self)@.run(reports@),
            final(self)@.wf(),
            final(self)@.width == old(self)@.width,
            final(self)@.height == old(self)@.height,
            final(self)@.speed == old(self)@.speed,
            old(self)@.ball_in_arena() ==> final(self)@.ball_in_arena(),
    {
        let mut taken: usize = 0;
        while taken < reports.len() && !self.done
            invariant
                taken <= reports.len(),
                self@.wf(),
                self@ == old(self)@.run(reports@.take(taken as int)),
                old(self)@.ball_in_arena() ==> self@.ball_in_arena(),
            decreases reports.len() - taken,
        {
            let report: Report = reports[taken];
            self.step(report.elapsed, report.key_event);
            assert(reports@.take(taken + 1).drop_last() == reports@.take(taken as int));
            taken += 1;
        }
        proof {
            lemma_run_keeps_invariants(old(self)@, reports@);
            lemma_run_split(old(self)@, reports@, taken as int);
            if self.done {
                lemma_done_is_final(self@, reports@.skip(taken as int));
            } else {
                assert(reports@.skip(taken as int).len() == 0);
            }
        }
    }

    /// What the picture shows in column `column` of row `row`, both counted
    /// from 0 at the top left corner of the border.
    pub fn cell_at(&self, column: u32, row: u32) -> (cell: Cell)
        ensures
            cell == self@.cell_at(column as int, row as int),
    {
        let ball = self.ball.get_position();
        let paddle = self.player.get_position();
        let paddle_end: u32 = paddle.y as u32 + self.player.get_height() as u32;
        if column == ball.x as u32 && row == ball.y as u32 {
            Cell::Ball(self.ball.get_character())
        } else if column == paddle.x as u32 && paddle.y as u32 <= row && row < paddle_end {
            Cell::Paddle
        } else if 1 <= column && column <= self.width as u32 && 1 <= row && row
            <= self.height as u32 {
            Cell::Empty
        } else {
            Cell::Border
        }
    }

    /// The whole picture, row by row from the top: the arena with a border
    /// of one cell on every side.
    pub fn render(&self) -> (frame: Vec<Vec<Cell>>)
        ensures
            frame@.len() == self@.height + 2,
            forall|row: int| 0 <= row < frame@.len() ==> (#[trigger] frame@[row])@.len()
                == self@.width + 2,
            forall|row: int, column: int|
                0 <= row < self@.height + 2 && 0 <= column < self@.width + 2
                    ==> #[trigger] frame@[row]@[column] == self@.cell_at(column, row),
    {
        let columns: u32 = self.width as u32 + 2;
        let rows: u32 = self.height as u32 + 2;
        let mut frame: Vec<Vec<Cell>> = Vec::new();
        let mut row: u32 = 0;
        while row < rows
            invariant
                columns == self@.width + 2,
                rows == self@.height + 2,
                row <= rows,
                frame@.len() == row,
                forall|r: int| 0 <= r < row ==> (#[trigger] frame@[r])@.len() == columns,
                forall|r: int, c: int|
                    0 <= r < row && 0 <= c < columns ==> #[trigger] frame@[r]@[c]
                        == self@.cell_at(c, r),
            decreases rows - row,
        {
            let mut line: Vec<Cell> = Vec::new();
            let mut column: u32 = 0;
            while column < columns
                invariant
                    column <= columns,
                    line@.len() == column,
                    forall|c: int| 0 <= c < column ==> #[trigger] line@[c] == self@.cell_at(c, row as int),
                decreases columns - column,
            {
                line.push(self.cell_at(column, row));
                column += 1;
            }
            frame.push(line);
            row += 1;
        }
        frame
    }
}

/// Taking in a sequence of reports is the same as taking in its first
/// `middle` reports and then the rest.
pub proof fn lemma_run_split(game: GameModel, reports: Seq<Report>, middle: int)
    requires
        0 <= middle <= reports.len(),
    ensures
        game.run(reports) == game.run(reports.take(middle)).run(reports.skip(middle)),
    decreases reports.len(),
{
    if middle == reports.len() {
        assert(reports.take(middle) == reports);
        assert(reports.skip(middle).len() == 0);
    } else {
        let shorter = reports.drop_last();
        lemma_run_split(game, shorter, middle);
        assert(shorter.take(middle) == reports.take(middle));
        assert(shorter.skip(middle) == reports.skip(middle).drop_last());
        assert(reports.skip(middle).last() == reports.last());
    }
}

/// A session that is over stays as it is, whatever is reported to it.
pub proof fn lemma_done_is_final(game: GameModel, reports: Seq<Report>)
    requires
        game.done,
    ensures
        game.run(reports) == game,
    decreases reports.len(),
{
    if reports.len() > 0 {
        lemma_done_is_final(game, reports.drop_last());
    }
}

/// A report changes neither the arena nor the speed, and keeps a game well
/// formed and its ball inside the border.
pub proof fn lemma_step_keeps_invariants(game: GameModel, elapsed: int, command: Option<Command>)
    ensures
        game.step(elapsed, command).width == game.width,
        game.step(elapsed, command).height == game.height,
        game.step(elapsed, command).speed == game.speed,
        game.wf() ==> game.step(elapsed, command).wf(),
        game.ball_in_arena() ==> game.step(elapsed, command).ball_in_arena(),
{
}

/// No sequence of reports changes the arena or the speed, and each keeps a
/// game well formed and its ball inside the border: in every state that a
/// session reaches, the paddle is between the top and the bottom border and
/// the ball is in the interior of the arena, if they were so at the start.
pub proof fn lemma_run_keeps_invariants(game: GameModel, reports: Seq<Report>)
    ensures
        game.run(reports).width == game.width,
        game.run(reports).height == game.height,
        game.run(reports).speed == game.speed,
        game.wf() ==> game.run(reports).wf(),
        game.ball_in_arena() ==> game.run(reports).ball_in_arena(),
    decreases reports.len(),
{
    if reports.len() > 0 {
        lemma_run_keeps_invariants(game, reports.drop_last());
        lemma_step_keeps_invariants(
            game.run(reports.drop_last()),
            reports.last().elapsed as int,
            command_for(reports.last().key_event),
        );
    }
}

/// A paddle with no move waiting is the same after the tick as before it.
pub proof fn lemma_idle_paddle_stays(game: GameModel)
    requires
        !game.paddle.moving,
    ensures
        game.update().paddle == game.paddle,
{
}

/// A report without a command leaves a paddle with no move waiting as it
/// is, whether the tick ends with it or not.
pub proof fn lemma_idle_paddle_stays_through_step(game: GameModel, elapsed: int)
    requires
        !game.paddle.moving,
    ensures
        game.step(elapsed, None).paddle == game.paddle,
{
}

/// Quit ends a running session at once, at whatever time of the tick it
/// comes: the front end is told to stop, and neither the paddle nor the ball
/// has moved, even if a move of the paddle was waiting.
pub proof fn lemma_quit_stops_at_once(game: GameModel, elapsed: int)
    ensures
        game.step(elapsed, Some(Command::Quit)).done,
        game.step(elapsed, Some(Command::Quit)).paddle == game.paddle,
        game.step(elapsed, Some(Command::Quit)).ball == game.ball,
        game.action(elapsed, Some(Command::Quit)) == Action::Stop,
{
}

/// A direction given during a tick is carried out once, at the end of the
/// tick, and the last one given wins.
pub proof fn lemma_last_direction_wins(
    game: GameModel,
    first: Command,
    second: Command,
    early: int,
    late: int,
)
    requires
        !game.done,
        first != Command::Quit,
        second != Command::Quit,
        early < game.interval(),
        late >= game.interval(),
    ensures
        game.step(early, Some(first)).step(late, Some(second)).paddle == (PaddleModel {
            moving: false,
            ..game.paddle.apply(second, game.height)
        }),
{
}

} // verus!
