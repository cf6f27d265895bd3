//! The paddle and how it follows the player.

use vstd::prelude::*;
use crate::command::Command;
use crate::point::Point;

verus! {

/// What a [`Player`] is, as mathematics: the paddle's column, the row of its
/// top cell, its length, the direction last asked for and whether that
/// request still waits to be carried out.
pub struct PaddleModel {
    pub x: int,
    pub y: int,
    pub height: int,
    pub intent: Command,
    pub moving: bool,
}

impl PaddleModel {
    /// Whether the paddle lies between the top and the bottom border of an
    /// arena of `arena_height` rows: its top cell is in row 1 at the highest,
    /// and at the lowest in the row from which stepping down is no longer
    /// allowed.
    pub open spec fn in_arena(self, arena_height: int) -> bool {
        1 <= self.y <= arena_height - self.height + 1
    }

    /// Whether [`PaddleModel::step`] moves the paddle down.
    pub open spec fn steps_down(self, arena_height: int) -> bool {
        self.intent == Command::Down && self.y + self.height <= arena_height
    }

    /// Whether [`PaddleModel::step`] moves the paddle up.
    pub open spec fn steps_up(self) -> bool {
        self.intent == Command::Up && self.y > 1
    }

    /// The paddle after its intent was carried out once: one row up unless it
    /// is in the top row, one row down unless it reaches past the last row.
    /// At a boundary, and with any other intent, it stays where it is.
    pub open spec fn step(self, arena_height: int) -> PaddleModel {
        if self.steps_up() {
            PaddleModel { y: self.y - 1, ..self }
        } else if self.steps_down(arena_height) {
            PaddleModel { y: self.y + 1, ..self }
        } else {
            self
        }
    }

    /// The paddle after the player asked for `command` and the request was
    /// carried out at once.
    pub open spec fn apply(self, command: Command, arena_height: int) -> PaddleModel {
        (PaddleModel { intent: command, moving: true, ..self }).step(arena_height)
    }

    /// The paddle after each of `commands` was applied in turn.
    pub open spec fn apply_all(self, commands: Seq<Command>, arena_height: int) -> PaddleModel
        decreases commands.len(),
    {
        if commands.len() == 0 {
            self
        } else {
            self.apply_all(commands.drop_last(), arena_height).apply(
                commands.last(),
                arena_height,
            )
        }
    }

    /// Whether the row below the paddle, if a step would take it there, has a
    /// number that fits the coordinate type.
    pub open spec fn can_step(self, arena_height: int) -> bool {
        self.steps_down(arena_height) ==> self.y < u16::MAX
    }
}

/// The paddle: a vertical bar of `height` cells whose top cell is at
/// `position`.
#[derive(Clone, Copy, Debug, PartialEq, Eq, Structural)]
pub struct Player {
    position: Point,
    height: u16,
    direction: Command,
    is_moving: bool,
}

impl View for Player {
    type V = PaddleModel;

    closed spec fn view(&self) -> PaddleModel {
        PaddleModel {
            x: self.position.x as int,
            y: self.position.y as int,
            height: self.height as int,
            intent: self.direction,
            moving: self.is_moving,
        }
    }
}

impl Player {
    /// A paddle of `h` cells with its top cell at `(x, y)`. It is at rest and
    /// would go down if moved.
    pub fn new(x: u16, y: u16, h: u16) -> (player: Player)
        ensures
            player@ == (PaddleModel {
                x: x as int,
                y: y as int,
                height: h as int,
                intent: Command::Down,
                moving: false,
            }),
    {
        Player { position: Point::new(x, y), height: h, direction: Command::Down, is_moving: false }
    }

    /// The paddle's top cell.
    pub fn get_position(&self) -> (position: &Point)
        ensures
            position.x == self@.x,
            position.y == self@.y,
    {
        &self.position
    }

    /// The number of cells the paddle covers.
    pub fn get_height(&self) -> (height: u16)
        ensures
            height == self@.height,
    {
        self.height
    }

    /// The direction that the next move will take.
    pub fn get_direction(&self) -> (direction: Command)
        ensures
            direction == self@.intent,
    {
        self.direction
    }

    /// Remembers `direction` for the next move. The paddle does not move yet.
    pub fn set_direction(&mut self, direction: Command)
        ensures
            final(self)@ == (PaddleModel { intent: direction, ..old(self)@ }),
    {
        self.direction = direction;
    }

    /// Carries the remembered direction out once, inside an arena of `height`
    /// rows.
    pub fn move_player(&mut self, height: u16)
        requires
            old(self)@.can_step(height as int),
        ensures
            final(self)@ == old(self)@.step(height as int),
            old(self)@.in_arena(height as int) ==> final(self)@.in_arena(height as int),
    {
        match self.direction {
            Command::Up => {
                if self.position.y > 1 {
                    self.position.y -= 1;
                }
            },
            Command::Down => {
                if self.position.y as u32 + self.height as u32 <= height as u32 {
                    self.position.y += 1;
                }
            },
            _ => {},
        }
    }

    /// Marks whether a move is waiting to be carried out.
    pub fn set_is_moving(&mut self, is_moving: bool)
        ensures
            final(self)@ == (PaddleModel { moving: is_moving, ..old(self)@ }),
    {
        self.is_moving = is_moving;
    }

    /// Whether a move is waiting to be carried out.
    pub fn is_moving(&self) -> (moving: bool)
        ensures
            moving == self@.moving,
    {
        self.is_moving
    }
}

/// A paddle between the top and the bottom border is still between them
/// after a move.
pub proof fn lemma_step_stays_in_arena(paddle: PaddleModel, arena_height: int)
    requires
        paddle.in_arena(arena_height),
    ensures
        paddle.step(arena_height).in_arena(arena_height),
{
}

/// A move changes nothing of the paddle but its row, and that by one at
/// most.
pub proof fn lemma_step_is_local(paddle: PaddleModel, arena_height: int)
    ensures
        paddle.step(arena_height) == (PaddleModel {
            y: paddle.step(arena_height).y,
            ..paddle
        }),
        paddle.y - 1 <= paddle.step(arena_height).y <= paddle.y + 1,
{
}

/// A paddle between the top and the bottom border is still between them
/// after any commands, however many.
pub proof fn lemma_apply_all_stays_in_arena(
    paddle: PaddleModel,
    commands: Seq<Command>,
    arena_height: int,
)
    requires
        paddle.in_arena(arena_height),
    ensures
        paddle.apply_all(commands, arena_height).in_arena(arena_height),
        paddle.apply_all(commands, arena_height).x == paddle.x,
        paddle.apply_all(commands, arena_height).height == paddle.height,
    decreases commands.len(),
{
    if commands.len() > 0 {
        lemma_apply_all_stays_in_arena(paddle, commands.drop_last(), arena_height);
    }
}

/// The lowest row that the top of a paddle can reach is row `arena_height -
/// height + 1`. A paddle whose top is above that row stays above it under any
/// commands, as long as none of them is Down while the top is in the row just
/// above it.
pub proof fn lemma_apply_all_stays_off_last_row(
    paddle: PaddleModel,
    commands: Seq<Command>,
    arena_height: int,
)
    requires
        1 <= paddle.y <= arena_height - paddle.height,
        forall|i: int|
            0 <= i < commands.len() ==> !(commands[i] == Command::Down && (#[trigger] paddle.apply_all(
                commands.take(i),
                arena_height,
            )).y == arena_height - paddle.height),
    ensures
        1 <= paddle.apply_all(commands, arena_height).y <= arena_height - paddle.height,
        paddle.apply_all(commands, arena_height).height == paddle.height,
    decreases commands.len(),
{
    if commands.len() > 0 {
        let earlier = commands.drop_last();
        assert forall|i: int| 0 <= i < earlier.len() implies !(earlier[i] == Command::Down && (
        #[trigger] paddle.apply_all(earlier.take(i), arena_height)).y == arena_height
            - paddle.height) by {
            assert(earlier.take(i) == commands.take(i));
        }
        lemma_apply_all_stays_off_last_row(paddle, earlier, arena_height);
        assert(commands.take(commands.len() - 1) == earlier);
    }
}

/// The borders stop the paddle without a sound: Up leaves a paddle in the top
/// row where it is, and so does Down with a paddle that reaches past the last
/// row.
pub proof fn lemma_borders_stop_paddle(paddle: PaddleModel, arena_height: int)
    ensures
        paddle.y <= 1 ==> paddle.apply(Command::Up, arena_height).y == paddle.y,
        paddle.y + paddle.height > arena_height ==> paddle.apply(Command::Down, arena_height).y
            == paddle.y,
{
}

} // verus!
