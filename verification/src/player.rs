//! The player: a glyph that falls, and rises when it flaps.

use vstd::prelude::*;

use crate::draw::{black, black_rgb, cp437, to_cp437, yellow, yellow_rgb, Draw, DrawCommand};

verus! {

/// What gravity adds to the velocity in one physics step: 0.2 rows per step.
pub const GRAVITY: i32 = 2;

/// Gravity no longer speeds up a fall of 2.0 rows per step or more.
pub const TERMINAL_VELOCITY: i32 = 20;

/// The velocity right after a flap: 2.0 rows per step upwards.
pub const FLAP_VELOCITY: i32 = -20;

/// The code of `@` in code page 437, the glyph that stands for the player.
pub const PLAYER_GLYPH: u16 = 64;

/// The player. Rows count downwards from the top of the screen, so a
/// positive velocity is a fall.
///
/// `velocity` is held in tenths of a row per physics step: `-20` is 2.0 rows
/// per step upwards, `2` is 0.2 rows per step downwards. Every velocity that
/// gravity and flapping produce is a whole number of tenths, so the rules are
/// computed exactly.
#[derive(Clone, Copy, Debug, PartialEq, Eq, Structural)]
pub struct Player {
    /// The player's column: where it is drawn and where it meets the wall.
    /// Nothing ever moves the player sideways.
    pub x: i32,
    /// Current row.
    pub y: i32,
    /// Vertical velocity, in tenths of a row per physics step.
    pub velocity: i32,
}

/// The whole rows in a velocity of `tenths` tenths of a row, rounded towards
/// zero.
pub open spec fn whole_rows(tenths: int) -> int {
    if tenths >= 0 {
        tenths / 10
    } else {
        -((-tenths) / 10)
    }
}

impl Player {
    /// The player at the start of a game.
    pub open spec fn fresh() -> Player {
        Player { x: 5, y: 25, velocity: 0 }
    }

    /// The velocity after one physics step: gravity adds to a velocity below
    /// the terminal velocity and leaves any other as it is.
    pub open spec fn next_velocity(self) -> int {
        if self.velocity < TERMINAL_VELOCITY {
            self.velocity + GRAVITY
        } else {
            self.velocity as int
        }
    }

    /// The row after one physics step: the player moves by the whole rows of
    /// its new velocity, and stops at the top of the screen.
    pub open spec fn next_y(self) -> int {
        let y = self.y + whole_rows(self.next_velocity());
        if y < 0 {
            0
        } else {
            y
        }
    }

    /// Whether a physics step stays within the range of the row counter.
    pub open spec fn can_fall(self) -> bool {
        i32::MIN <= self.y + whole_rows(self.next_velocity()) <= i32::MAX
    }

    /// The player after one physics step.
    pub open spec fn fallen(self) -> Player
        recommends
            self.can_fall(),
    {
        Player { x: self.x, y: self.next_y() as i32, velocity: self.next_velocity() as i32 }
    }

    /// The player after a flap.
    pub open spec fn flapped(self) -> Player {
        Player { x: self.x, y: self.y, velocity: FLAP_VELOCITY }
    }

    /// The player's glyph: a yellow `@` on black, in the player's column and
    /// row.
    pub open spec fn sprite(self) -> Draw {
        Draw::Glyph {
            x: self.x as int,
            y: self.y as int,
            fg: yellow_rgb(),
            bg: black_rgb(),
            glyph: PLAYER_GLYPH,
        }
    }

    /// The player at the start of a game: column 5, row 25, at rest.
    pub fn new() -> (player: Player)
        ensures
            player == Player::fresh(),
    {
        Player { x: 5, y: 25, velocity: 0 }
    }

    /// Tells whether [`Player::gravity_and_move`] may be called.
    pub fn fall_fits(&self) -> (ok: bool)
        ensures
            ok == self.can_fall(),
    {
        let velocity = if self.velocity < TERMINAL_VELOCITY {
            self.velocity + GRAVITY
        } else {
            self.velocity
        };
        self.y.checked_add(velocity / 10).is_some()
    }

    /// One physics step. Gravity adds 0.2 to a velocity below 2.0; the
    /// player then moves by the whole rows of the new velocity, rounded
    /// towards zero, and is held at row 0 if that would take it above the
    /// screen. Nothing holds it at the bottom.
    pub fn gravity_and_move(&mut self)
        requires
            old(self).can_fall(),
        ensures
            *final(self) == old(self).fallen(),
            final(self).x == old(self).x,
            final(self).velocity == old(self).next_velocity(),
            final(self).y == old(self).next_y(),
            final(self).y >= 0,
    {
        if self.velocity < TERMINAL_VELOCITY {
            self.velocity += GRAVITY;
        }
        self.y += self.velocity / 10;
        if self.y < 0 {
            self.y = 0;
        }
    }

    /// A flap: the velocity becomes 2.0 rows per step upwards, whatever it
    /// was.
    pub fn flap(&mut self)
        ensures
            *final(self) == old(self).flapped(),
            final(self).velocity == FLAP_VELOCITY,
    {
        self.velocity = FLAP_VELOCITY;
    }

    /// The command that draws the player.
    pub fn render(&self) -> (command: DrawCommand)
        ensures
            command@ == self.sprite(),
            command@->Glyph_glyph == cp437('@'),
    {
        DrawCommand::Glyph {
            x: self.x,
            y: self.y,
            fg: yellow(),
            bg: black(),
            glyph: to_cp437('@'),
        }
    }
}

/// A second flap changes nothing: after a flap the player rises at 2.0 rows
/// per step, whatever its velocity was before.
pub proof fn lemma_flap_idempotent(player: Player)
    ensures
        player.flapped().flapped() == player.flapped(),
        player.flapped().velocity == FLAP_VELOCITY,
{
}

/// A physics step never takes the player above the top of the screen, and
/// never changes its velocity by more than gravity adds.
pub proof fn lemma_fallen_bounds(player: Player)
    requires
        player.can_fall(),
    ensures
        player.fallen().y >= 0,
        player.fallen().x == player.x,
        player.velocity < TERMINAL_VELOCITY ==> player.fallen().velocity == player.velocity
            + GRAVITY,
        player.velocity >= TERMINAL_VELOCITY ==> player.fallen().velocity == player.velocity,
        player.fallen().y == player.y + whole_rows(player.fallen().velocity as int)
            || player.fallen().y == 0,
{
}

} // verus!
