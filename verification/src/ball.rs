//! The ball and how it travels.

use vstd::prelude::*;
use crate::chance::choose_one;
use crate::chance::random_below;
use crate::direction::Direction;
use crate::player::PaddleModel;
use crate::player::Player;
use crate::point::Point;

verus! {

/// The glyph a ball is drawn with until something changes it.
pub const DEFAULT_GLYPH: char = 'o';

/// How many glyphs a ball next to the paddle chooses from.
pub const OVERLAP_GLYPH_COUNT: u8 = 3;

/// The glyph with the number `pick` among those that a ball next to the paddle
/// chooses from: `'o'`, `'x'` and, for every number from 2 on, `'+'`.
pub open spec fn overlap_glyph(pick: int) -> char {
    if pick == 0 {
        'o'
    } else if pick == 1 {
        'x'
    } else {
        '+'
    }
}

/// Whether `glyph` is one of those that a ball next to the paddle chooses
/// from.
pub open spec fn is_overlap_glyph(glyph: char) -> bool {
    glyph == 'o' || glyph == 'x' || glyph == '+'
}

/// What a [`Ball`] is, as mathematics: where it is, where it is heading and
/// how it looks.
pub struct BallModel {
    pub x: int,
    pub y: int,
    pub dx: int,
    pub dy: int,
    pub glyph: char,
}

impl BallModel {
    /// Whether the ball lies in the interior of an arena of `width` columns
    /// and `height` rows.
    pub open spec fn in_arena(self, width: int, height: int) -> bool {
        1 <= self.x <= width && 1 <= self.y <= height
    }

    /// Whether the next step would carry the ball out of the columns
    /// `1..=width`.
    pub open spec fn bounces_x(self, width: int) -> bool {
        !(1 <= self.x + self.dx <= width)
    }

    /// Whether the next step would carry the ball out of the rows
    /// `1..=height`.
    pub open spec fn bounces_y(self, height: int) -> bool {
        !(1 <= self.y + self.dy <= height)
    }

    /// The ball one tick later.
    ///
    /// The horizontal axis is looked at first. If the ball would leave the
    /// arena sideways it turns round horizontally and nothing else happens in
    /// this tick. Otherwise it moves sideways, and then the vertical axis is
    /// treated the same way.
    pub open spec fn step(self, width: int, height: int) -> BallModel {
        if self.bounces_x(width) {
            BallModel { dx: -self.dx, ..self }
        } else if self.bounces_y(height) {
            BallModel { x: self.x + self.dx, dy: -self.dy, ..self }
        } else {
            BallModel { x: self.x + self.dx, y: self.y + self.dy, ..self }
        }
    }

    /// The ball `ticks` ticks later.
    pub open spec fn steps(self, width: int, height: int, ticks: nat) -> BallModel
        decreases ticks,
    {
        if ticks == 0 {
            self
        } else {
            self.step(width, height).steps(width, height, (ticks - 1) as nat)
        }
    }

    /// Whether the ball is level with the paddle: its row is the paddle's top
    /// row or one of the `height` rows below that, which is one row more than
    /// the paddle covers.
    pub open spec fn level_with(self, paddle: PaddleModel) -> bool {
        paddle.y <= self.y <= paddle.y + paddle.height
    }

    /// Whether every turn the next step may call for can be stored: turning
    /// round negates a component, and `i16::MIN` has no negation.
    pub open spec fn can_step(self, width: int, height: int) -> bool {
        &&& self.bounces_x(width) ==> self.dx > i16::MIN
        &&& !self.bounces_x(width) && self.bounces_y(height) ==> self.dy > i16::MIN
    }
}

/// The ball: a position, a velocity and the glyph it is drawn with.
#[derive(Clone, Copy, Debug, PartialEq, Eq, Structural)]
pub struct Ball {
    position: Point,
    direction: Direction,
    character: char,
}

impl View for Ball {
    type V = BallModel;

    closed spec fn view(&self) -> BallModel {
        BallModel {
            x: self.position.x as int,
            y: self.position.y as int,
            dx: self.direction.x as int,
            dy: self.direction.y as int,
            glyph: self.character,
        }
    }
}

/// One of the two directions along an axis, -1 or +1, chosen by chance.
fn random_sign() -> (sign: i16)
    ensures
        sign == -1 || sign == 1,
{
    let signs: Vec<i16> = vec![-1, 1];
    Ball::sign_for_pick(choose_one(&signs))
}

/// The direction along an axis that a pick stands for: the number that was
/// picked, and +1 where nothing was.
pub open spec fn sign_of_pick(pick: Option<i16>) -> i16 {
    match pick {
        Some(sign) => sign,
        None => 1,
    }
}

impl Ball {
    /// A ball at `(x, y)` that is drawn with the default glyph and travels
    /// along one of the four diagonals, chosen by chance.
    pub fn new(x: u16, y: u16) -> (ball: Ball)
        ensures
            ball@.x == x,
            ball@.y == y,
            ball@.dx == -1 || ball@.dx == 1,
            ball@.dy == -1 || ball@.dy == 1,
            ball@.glyph == DEFAULT_GLYPH,
    {
        let dx: i16 = random_sign();
        let dy: i16 = random_sign();
        Ball::with_velocity(x, y, Direction::new(dx, dy))
    }

    /// A ball at `(x, y)` that travels by `velocity` per tick and is drawn
    /// with the default glyph.
    pub fn with_velocity(x: u16, y: u16, velocity: Direction) -> (ball: Ball)
        ensures
            ball@ == (BallModel {
                x: x as int,
                y: y as int,
                dx: velocity.x as int,
                dy: velocity.y as int,
                glyph: DEFAULT_GLYPH,
            }),
    {
        Ball { position: Point::new(x, y), direction: velocity, character: DEFAULT_GLYPH }
    }

    /// Where the ball is.
    pub fn get_position(&self) -> (position: &Point)
        ensures
            position.x == self@.x,
            position.y == self@.y,
    {
        &self.position
    }

    /// Where the ball is heading.
    pub fn get_velocity(&self) -> (velocity: Direction)
        ensures
            velocity.x == self@.dx,
            velocity.y == self@.dy,
    {
        self.direction
    }

    /// Advances the ball by one tick inside an arena of `width` columns and
    /// `height` rows.
    pub fn move_ball(&mut self, width: u16, height: u16)
        requires
            old(self)@.can_step(width as int, height as int),
        ensures
            final(self)@ == old(self)@.step(width as int, height as int),
            old(self)@.in_arena(width as int, height as int) ==> final(self)@.in_arena(
                width as int,
                height as int,
            ),
    {
        let new_x: i32 = self.position.x as i32 + self.direction.x as i32;
        let new_y: i32 = self.position.y as i32 + self.direction.y as i32;
        if new_x >= 1 && new_x <= width as i32 {
            self.position.x = new_x as u16;
        } else {
            self.direction.x = -self.direction.x;
            return;
        }
        if new_y >= 1 && new_y <= height as i32 {
            self.position.y = new_y as u16;
        } else {
            self.direction.y = -self.direction.y;
        }
    }

    /// Whether the ball is level with the paddle.
    pub fn is_level_with(&self, player: &Player) -> (level: bool)
        ensures
            level == self@.level_with(player@),
    {
        let top: u16 = player.get_position().y;
        let reach: u32 = top as u32 + player.get_height() as u32;
        top <= self.position.y && self.position.y as u32 <= reach
    }

    /// The direction along an axis that a pick stands for.
    pub fn sign_for_pick(pick: Option<i16>) -> (sign: i16)
        ensures
            sign == sign_of_pick(pick),
    {
        match pick {
            Some(sign) => sign,
            None => 1,
        }
    }

    /// The glyph with the number `pick` among those that a ball next to the
    /// paddle chooses from.
    pub fn glyph_for_pick(pick: u8) -> (glyph: char)
        ensures
            glyph == overlap_glyph(pick as int),
            is_overlap_glyph(glyph),
    {
        match pick {
            0 => 'o',
            1 => 'x',
            _ => '+',
        }
    }

    /// Shows that the ball is next to the paddle: a ball that is level with
    /// it takes a new glyph, chosen by chance. Nothing else about the ball
    /// changes, and a ball that is not level with the paddle stays as it is.
    pub fn overlaps_with(&mut self, player: &Player)
        ensures
            final(self)@ == (BallModel { glyph: final(self)@.glyph, ..old(self)@ }),
            old(self)@.level_with(player@) ==> is_overlap_glyph(final(self)@.glyph),
            !old(self)@.level_with(player@) ==> final(self)@.glyph == old(self)@.glyph,
    {
        if self.is_level_with(player) {
            let pick: u8 = random_below(OVERLAP_GLYPH_COUNT);
            self.set_character(Ball::glyph_for_pick(pick));
        }
    }

    /// The glyph the ball is drawn with.
    pub fn get_character(&self) -> (glyph: char)
        ensures
            glyph == self@.glyph,
    {
        self.character
    }

    /// Changes the glyph the ball is drawn with, and nothing else.
    pub fn set_character(&mut self, character: char)
        ensures
            final(self)@ == (BallModel { glyph: character, ..old(self)@ }),
    {
        self.character = character;
    }
}

/// A ball inside the arena is still inside it one tick later, whatever its
/// velocity.
pub proof fn lemma_step_stays_in_arena(ball: BallModel, width: int, height: int)
    requires
        ball.in_arena(width, height),
    ensures
        ball.step(width, height).in_arena(width, height),
{
}

/// A ball inside the arena is still inside it any number of ticks later.
pub proof fn lemma_steps_stay_in_arena(ball: BallModel, width: int, height: int, ticks: nat)
    requires
        ball.in_arena(width, height),
    ensures
        ball.steps(width, height, ticks).in_arena(width, height),
    decreases ticks,
{
    if ticks > 0 {
        lemma_steps_stay_in_arena(ball.step(width, height), width, height, (ticks - 1) as nat);
    }
}

/// A ball in the last column that heads right, and one in the first column
/// that heads left, turns round horizontally and stays in its column.
pub proof fn lemma_bounce_off_side(ball: BallModel, width: int, height: int)
    requires
        (ball.x == width && ball.dx == 1) || (ball.x == 1 && ball.dx == -1),
    ensures
        ball.step(width, height).dx == -ball.dx,
        ball.step(width, height).x == ball.x,
{
}

/// A ball in the last row that heads down, and one in the first row that
/// heads up, turns round vertically and stays in its row, provided that it
/// does not turn round horizontally in the same tick.
pub proof fn lemma_bounce_off_top_or_bottom(ball: BallModel, width: int, height: int)
    requires
        (ball.y == height && ball.dy == 1) || (ball.y == 1 && ball.dy == -1),
        !ball.bounces_x(width),
    ensures
        ball.step(width, height).dy == -ball.dy,
        ball.step(width, height).y == ball.y,
{
}

/// A ball that turns round horizontally does nothing else in that tick: it
/// keeps its place, its vertical speed and its glyph.
pub proof fn lemma_side_bounce_is_all(ball: BallModel, width: int, height: int)
    requires
        ball.bounces_x(width),
    ensures
        ball.step(width, height) == (BallModel { dx: -ball.dx, ..ball }),
{
}

/// A ball turns round on an axis exactly when its next step along that axis
/// would leave the arena (and, vertically, when it did not turn round
/// horizontally in the same tick); it moves along an axis exactly when it
/// does not turn round on it or before it; and it keeps its glyph.
pub proof fn lemma_step_turns_at_borders_only(ball: BallModel, width: int, height: int)
    ensures
        ball.step(width, height).dx == if ball.bounces_x(width) {
            -ball.dx
        } else {
            ball.dx
        },
        ball.step(width, height).x == if ball.bounces_x(width) {
            ball.x
        } else {
            ball.x + ball.dx
        },
        ball.step(width, height).dy == if !ball.bounces_x(width) && ball.bounces_y(height) {
            -ball.dy
        } else {
            ball.dy
        },
        ball.step(width, height).y == if ball.bounces_x(width) || ball.bounces_y(height) {
            ball.y
        } else {
            ball.y + ball.dy
        },
        ball.step(width, height).glyph == ball.glyph,
{
}

} // verus!
