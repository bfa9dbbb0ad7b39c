//! The wall that scrolls towards the player.

use vstd::prelude::*;
use vstd::string::StringExecFns;

use crate::draw::{lemma_views_push, views, Draw, DrawCommand};
use crate::screen::{SCREEN_HEIGHT, SCREEN_WIDTH};

verus! {

/// A wall in one column of the screen, with a gap to fly through. The wall
/// is drawn in every row of the screen but those from `gap_y` (inclusive) to
/// `gap_y + size` (exclusive).
#[derive(Clone, Copy, Debug, PartialEq, Eq, Structural)]
pub struct Obstacle {
    /// Column of the wall.
    pub x: i32,
    /// First row of the gap.
    pub gap_y: i32,
    /// Height of the gap in rows.
    pub size: i32,
}

impl Obstacle {
    /// The obstacle at the start of a game.
    pub open spec fn fresh() -> Obstacle {
        Obstacle { x: SCREEN_WIDTH, gap_y: 20, size: 10 }
    }

    /// The column of the wall one frame later: one to the left, and back at
    /// the right edge of the screen instead of column 0.
    pub open spec fn next_x(self) -> int {
        if self.x - 1 == 0 {
            SCREEN_WIDTH as int
        } else {
            self.x - 1
        }
    }

    /// The obstacle one frame later.
    pub open spec fn moved(self) -> Obstacle
        recommends
            self.x > i32::MIN,
    {
        Obstacle { x: self.next_x() as i32, gap_y: self.gap_y, size: self.size }
    }

    /// The obstacle `n` frames later.
    pub open spec fn moved_times(self, n: nat) -> Obstacle
        decreases n,
    {
        if n == 0 {
            self
        } else {
            self.moved_times((n - 1) as nat).moved()
        }
    }

    /// The first row below the gap.
    pub open spec fn gap_end(self) -> int {
        self.gap_y + self.size
    }

    /// Whether the first row below the gap can be computed.
    pub open spec fn can_render(self) -> bool {
        i32::MIN <= self.gap_end() <= i32::MAX
    }

    /// One piece of the wall.
    pub open spec fn bar(self, row: int) -> Draw {
        Draw::Text { x: self.x as int, y: row, text: seq!['|'] }
    }

    /// The wall above the gap: one bar in each row from 0 up to the gap.
    pub open spec fn upper_bars(self) -> Seq<Draw> {
        let rows = if self.gap_y > 0 {
            self.gap_y as nat
        } else {
            0
        };
        Seq::new(rows, |i: int| self.bar(i))
    }

    /// The wall below the gap: one bar in each row from the end of the gap
    /// up to the bottom of the screen.
    pub open spec fn lower_bars(self) -> Seq<Draw> {
        let rows = if self.gap_end() < SCREEN_HEIGHT {
            (SCREEN_HEIGHT - self.gap_end()) as nat
        } else {
            0
        };
        Seq::new(rows, |i: int| self.bar(self.gap_end() + i))
    }

    /// The whole wall, from top to bottom.
    pub open spec fn bars(self) -> Seq<Draw> {
        self.upper_bars() + self.lower_bars()
    }

    /// The obstacle at the start of a game: at the right edge of the screen,
    /// with a gap of 10 rows from row 20.
    pub fn new() -> (obstacle: Obstacle)
        ensures
            obstacle == Obstacle::fresh(),
    {
        Obstacle { x: SCREEN_WIDTH, gap_y: 20, size: 10 }
    }

    /// Tells whether [`Obstacle::render`] may be called.
    pub fn render_fits(&self) -> (ok: bool)
        ensures
            ok == self.can_render(),
    {
        self.gap_y.checked_add(self.size).is_some()
    }

    /// The commands that draw the wall: a `|` in the obstacle's column for
    /// every row above the gap, then for every row below it.
    pub fn render(&self) -> (commands: Vec<DrawCommand>)
        requires
            self.can_render(),
        ensures
            views(commands@) == self.bars(),
    {
        proof {
            reveal_strlit("|");
        }
        let mut commands: Vec<DrawCommand> = Vec::new();
        let mut row: i32 = 0;
        while row < self.gap_y
            invariant
                0 <= row,
                row <= self.gap_y || row == 0,
                "|"@ == seq!['|'],
                views(commands@) == Seq::new(row as nat, |i: int| self.bar(i)),
            decreases self.gap_y - row,
        {
            let bar = DrawCommand::Text { x: self.x, y: row, text: String::from_str("|") };
            proof {
                lemma_views_push(commands@, bar);
                assert(views(commands@).push(bar@) =~= Seq::new(
                    (row + 1) as nat,
                    |i: int| self.bar(i),
                ));
            }
            commands.push(bar);
            row += 1;
        }
        assert(views(commands@) =~= self.upper_bars());
        let end: i32 = self.gap_y + self.size;
        let mut row: i32 = end;
        while row < SCREEN_HEIGHT
            invariant
                end == self.gap_end(),
                end <= row,
                row <= SCREEN_HEIGHT || row == end,
                "|"@ == seq!['|'],
                views(commands@) == self.upper_bars() + Seq::new(
                    (row - end) as nat,
                    |i: int| self.bar(end + i),
                ),
            decreases SCREEN_HEIGHT - row,
        {
            let bar = DrawCommand::Text { x: self.x, y: row, text: String::from_str("|") };
            proof {
                lemma_views_push(commands@, bar);
                assert(views(commands@).push(bar@) =~= self.upper_bars() + Seq::new(
                    (row + 1 - end) as nat,
                    |i: int| self.bar(end + i),
                ));
            }
            commands.push(bar);
            row += 1;
        }
        assert(views(commands@) =~= self.bars());
        commands
    }

    /// Scrolls the wall one column to the left. A wall that reaches column 0
    /// reappears at the right edge of the screen; its gap never changes.
    pub fn mov(&mut self)
        requires
            old(self).x > i32::MIN,
        ensures
            *final(self) == old(self).moved(),
            final(self).x == old(self).next_x(),
            final(self).gap_y == old(self).gap_y,
            final(self).size == old(self).size,
    {
        self.x -= 1;
        if self.x == 0 {
            self.x = SCREEN_WIDTH;
        }
    }
}

/// Where a wall on the screen stands after `n` frames, for `n` up to the
/// width of the screen: `n` columns to the left, counted round the screen.
proof fn lemma_moved_times_x(obstacle: Obstacle, n: nat)
    requires
        1 <= obstacle.x <= SCREEN_WIDTH,
        n <= SCREEN_WIDTH,
    ensures
        obstacle.moved_times(n).gap_y == obstacle.gap_y,
        obstacle.moved_times(n).size == obstacle.size,
        obstacle.moved_times(n).x == if n < obstacle.x {
            obstacle.x - n
        } else {
            obstacle.x - n + SCREEN_WIDTH
        },
    decreases n,
{
    if n > 0 {
        lemma_moved_times_x(obstacle, (n - 1) as nat);
    }
}

/// The wall comes round: an obstacle on the screen stands where it stood
/// after as many frames as the screen has columns.
pub proof fn lemma_mov_period(obstacle: Obstacle)
    requires
        1 <= obstacle.x <= SCREEN_WIDTH,
    ensures
        obstacle.moved_times(SCREEN_WIDTH as nat) == obstacle,
{
    lemma_moved_times_x(obstacle, SCREEN_WIDTH as nat);
}

} // verus!
