//! The game as a whole: its three modes and what one frame does in each.

use vstd::prelude::*;
use vstd::string::StringExecFns;

use crate::draw::{append_commands, navy, navy_rgb, push_command, views, Draw, DrawCommand};
use crate::obstacle::Obstacle;
use crate::player::{Player, FLAP_VELOCITY, GRAVITY, TERMINAL_VELOCITY};
use crate::screen::{SCREEN_HEIGHT, SCREEN_WIDTH};
use crate::text::{labelled_pair, labelled_pair_string};

verus! {

/// The time between two physics steps: 75 milliseconds, counted in
/// microseconds as all times here are.
pub const FRAME_DURATION: u64 = 75_000;

/// What the game is doing.
#[derive(Clone, Copy, Debug, PartialEq, Eq, Structural)]
pub enum GameMode {
    /// Showing the opening menu.
    Menu,
    /// Playing.
    Play,
    /// Showing that the game is lost.
    End,
}

/// A key press, as far as the game tells keys apart.
#[derive(Clone, Copy, Debug, PartialEq, Eq, Structural)]
pub enum Key {
    /// Starts a game, from the menu and after a lost game.
    P,
    /// Asks to leave, from the menu and after a lost game.
    Q,
    /// Flaps, while playing.
    Space,
    /// Any other key; it is ignored.
    Other,
}

/// What one frame asks of the caller.
#[derive(Debug, PartialEq, Eq)]
pub struct Frame {
    /// What to draw, in this order.
    pub commands: Vec<DrawCommand>,
    /// Whether the player asked to leave the game.
    pub quit: bool,
}

/// The whole state of the game.
#[derive(Clone, Copy, Debug, PartialEq, Eq, Structural)]
pub struct State {
    /// What the game is doing.
    pub mode: GameMode,
    /// Microseconds that have passed since the last physics step.
    pub frame_time: u64,
    /// The player of the current game.
    pub player: Player,
    /// The one wall of the current game.
    pub obstacle: Obstacle,
}

/// Whether the player has flown into the wall: it is in the wall's column
/// and in a row outside the gap, that is above the row `gap_y` or in or
/// below the row `gap_y + size`, the first of the lower wall.
pub open spec fn hits(player: Player, obstacle: Obstacle) -> bool {
    obstacle.x == player.x && (player.y < obstacle.gap_y || player.y >= obstacle.gap_end())
}

/// Whether the game is lost: the player has flown into the wall or has
/// fallen below the screen.
pub open spec fn lost(player: Player, obstacle: Obstacle) -> bool {
    hits(player, obstacle) || player.y > SCREEN_HEIGHT
}

/// The line that shows where the player is.
pub open spec fn player_line(player: Player) -> Seq<char> {
    labelled_pair("player: "@, player.x as int, player.y as int)
}

/// The line that shows where the obstacle and its gap are.
pub open spec fn obstacle_line(obstacle: Obstacle) -> Seq<char> {
    labelled_pair("obstacle: "@, obstacle.x as int, obstacle.gap_y as int)
}

/// What the opening menu shows.
pub open spec fn menu_frame() -> Seq<Draw> {
    seq![
        Draw::Clear,
        Draw::CenteredText { y: 5, text: "Welcome to Flappy Bird!"@ },
        Draw::CenteredText { y: 8, text: "(P) Play"@ },
        Draw::CenteredText { y: 9, text: "(Q) Quit"@ },
    ]
}

/// What is shown after a lost game.
pub open spec fn dead_frame() -> Seq<Draw> {
    seq![
        Draw::Clear,
        Draw::CenteredText { y: 5, text: "You Dead!"@ },
        Draw::CenteredText { y: 8, text: "(P) Play"@ },
        Draw::CenteredText { y: 9, text: "(Q) Quit"@ },
    ]
}

/// What every frame starts with, whatever the mode.
pub open spec fn frame_head() -> Seq<Draw> {
    seq![Draw::Clear, Draw::Text { x: 1, y: 1, text: "Hello!"@ }]
}

impl State {
    /// The state in which the game opens: the menu, with player and obstacle
    /// at their starting places.
    pub open spec fn fresh() -> State {
        State {
            mode: GameMode::Menu,
            frame_time: 0,
            player: Player::fresh(),
            obstacle: Obstacle::fresh(),
        }
    }

    /// The state in which every game starts.
    pub open spec fn started() -> State {
        State {
            mode: GameMode::Play,
            frame_time: 0,
            player: Player::fresh(),
            obstacle: Obstacle::fresh(),
        }
    }

    /// Bounds that hold of the opening state and are kept by every frame,
    /// and within which no frame leaves the range of a counter.
    pub open spec fn wf(self) -> bool {
        &&& self.frame_time <= FRAME_DURATION
        &&& 0 <= self.player.y <= SCREEN_HEIGHT + 2
        &&& self.mode == GameMode::Play ==> self.player.y <= SCREEN_HEIGHT
        &&& FLAP_VELOCITY <= self.player.velocity < TERMINAL_VELOCITY + GRAVITY
        &&& 1 <= self.obstacle.x <= SCREEN_WIDTH
        &&& self.obstacle.can_render()
    }

    /// Whether a physics step is due once `elapsed` more microseconds have
    /// passed: more than [`FRAME_DURATION`] since the last one.
    pub open spec fn step_due(self, elapsed: u64) -> bool {
        self.frame_time + elapsed > FRAME_DURATION
    }

    /// Whether a frame of play stays within the range of every counter.
    pub open spec fn can_play(self, elapsed: u64) -> bool {
        &&& self.step_due(elapsed) ==> self.player.can_fall()
        &&& self.obstacle.can_render()
        &&& self.obstacle.x > i32::MIN
    }

    /// Whether a frame stays within the range of every counter. Only a frame
    /// of play computes anything that could leave it.
    pub open spec fn can_tick(self, elapsed: u64) -> bool {
        self.mode == GameMode::Play ==> self.can_play(elapsed)
    }

    /// The player at the end of a frame of play: after the physics step, if
    /// one is due, and then after the flap, if the space bar was pressed.
    pub open spec fn next_player(self, key: Option<Key>, elapsed: u64) -> Player {
        let moved = if self.step_due(elapsed) {
            self.player.fallen()
        } else {
            self.player
        };
        if key == Some(Key::Space) {
            moved.flapped()
        } else {
            moved
        }
    }

    /// The state after a frame of play. The game is lost if the player, where
    /// it is now, has hit the wall, where that stood at the start of the
    /// frame, or has fallen below the screen. The wall moves on in any case.
    pub open spec fn played(self, key: Option<Key>, elapsed: u64) -> State
        recommends
            self.can_play(elapsed),
    {
        let player = self.next_player(key, elapsed);
        State {
            mode: if lost(player, self.obstacle) {
                GameMode::End
            } else {
                self.mode
            },
            frame_time: if self.step_due(elapsed) {
                0
            } else {
                (self.frame_time + elapsed) as u64
            },
            player,
            obstacle: self.obstacle.moved(),
        }
    }

    /// What a frame of play shows: a navy background, three lines of text at
    /// the top left, the player in its column and the row it is in now, and
    /// the wall where it stood at the start of the frame.
    pub open spec fn play_frame(self, key: Option<Key>, elapsed: u64) -> Seq<Draw> {
        let player = self.next_player(key, elapsed);
        seq![
            Draw::ClearTo { background: navy_rgb() },
            Draw::Text { x: 0, y: 0, text: "Space to flap"@ },
            Draw::Text { x: 0, y: 1, text: player_line(player) },
            Draw::Text { x: 0, y: 2, text: obstacle_line(self.obstacle) },
            player.sprite(),
        ] + self.obstacle.bars()
    }

    /// The state after a frame of the menu, or of the screen that follows a
    /// lost game: `P` starts a game, and nothing else changes anything.
    pub open spec fn chosen(self, key: Option<Key>) -> State {
        if key == Some(Key::P) {
            State::started()
        } else {
            self
        }
    }

    /// The state after a frame.
    pub open spec fn ticked(self, key: Option<Key>, elapsed: u64) -> State
        recommends
            self.can_tick(elapsed),
    {
        match self.mode {
            GameMode::Menu => self.chosen(key),
            GameMode::Play => self.played(key, elapsed),
            GameMode::End => self.chosen(key),
        }
    }

    /// What a frame shows.
    pub open spec fn tick_frame(self, key: Option<Key>, elapsed: u64) -> Seq<Draw> {
        frame_head() + match self.mode {
            GameMode::Menu => menu_frame(),
            GameMode::Play => self.play_frame(key, elapsed),
            GameMode::End => dead_frame(),
        }
    }

    /// Whether a frame asks to leave the game: `Q` was pressed, and the game
    /// is not being played.
    pub open spec fn tick_quits(self, key: Option<Key>) -> bool {
        self.mode != GameMode::Play && key == Some(Key::Q)
    }

    /// The state in which the game opens.
    pub fn new() -> (state: State)
        ensures
            state == State::fresh(),
            state.wf(),
    {
        State { mode: GameMode::Menu, frame_time: 0, player: Player::new(), obstacle: Obstacle::new() }
    }

    /// Tells whether [`State::tick`] may be called with this much time
    /// passed.
    pub fn tick_fits(&self, elapsed: u64) -> (ok: bool)
        ensures
            ok == self.can_tick(elapsed),
    {
        match self.mode {
            GameMode::Play => {
                let due = elapsed > FRAME_DURATION || self.frame_time > FRAME_DURATION - elapsed;
                (!due || self.player.fall_fits()) && self.obstacle.render_fits()
                    && self.obstacle.x > i32::MIN
            },
            _ => true,
        }
    }

    /// One frame of the opening menu. `P` starts a game and `Q` asks to leave;
    /// any other key, or none, leaves the state as it is.
    pub fn menu(&mut self, key: Option<Key>) -> (frame: Frame)
        ensures
            *final(self) == old(self).chosen(key),
            views(frame.commands@) == menu_frame(),
            frame.quit == (key == Some(Key::Q)),
            old(self).wf() ==> final(self).wf(),
    {
        let mut commands: Vec<DrawCommand> = Vec::new();
        push_command(&mut commands, DrawCommand::Clear);
        push_command(
            &mut commands,
            DrawCommand::CenteredText { y: 5, text: String::from_str("Welcome to Flappy Bird!") },
        );
        push_command(
            &mut commands,
            DrawCommand::CenteredText { y: 8, text: String::from_str("(P) Play") },
        );
        push_command(
            &mut commands,
            DrawCommand::CenteredText { y: 9, text: String::from_str("(Q) Quit") },
        );
        assert(views(commands@) =~= menu_frame());
        let mut quit = false;
        match key {
            Some(Key::P) => {
                self.restart();
            },
            Some(Key::Q) => {
                quit = true;
            },
            _ => {},
        }
        Frame { commands, quit }
    }

    /// One frame of play.
    ///
    /// The time that has passed is added to the time since the last physics
    /// step. If that comes to more than [`FRAME_DURATION`], the count starts
    /// again at 0 and the player makes one physics step. The space bar then
    /// makes the player flap, in whatever frame it is pressed. The game is
    /// lost if the player is now in the wall's column and outside the gap,
    /// or below the screen. Last of all the wall moves on by one column.
    pub fn play(&mut self, key: Option<Key>, elapsed: u64) -> (frame: Frame)
        requires
            old(self).can_play(elapsed),
        ensures
            *final(self) == old(self).played(key, elapsed),
            views(frame.commands@) == old(self).play_frame(key, elapsed),
            !frame.quit,
            final(self).player.y > SCREEN_HEIGHT ==> final(self).mode == GameMode::End,
            final(self).mode == GameMode::End || final(self).mode == old(self).mode,
            old(self).mode == GameMode::Play ==> (final(self).mode == GameMode::End <==> lost(
                final(self).player,
                old(self).obstacle,
            )),
            old(self).wf() && old(self).mode == GameMode::Play ==> final(self).wf(),
    {
        let mut commands: Vec<DrawCommand> = Vec::new();
        push_command(&mut commands, DrawCommand::ClearTo { background: navy() });

        if elapsed > FRAME_DURATION || self.frame_time > FRAME_DURATION - elapsed {
            self.frame_time = 0;
            self.player.gravity_and_move();
        } else {
            self.frame_time = self.frame_time + elapsed;
        }

        match key {
            Some(Key::Space) => {
                self.player.flap();
            },
            _ => {},
        }

        push_command(
            &mut commands,
            DrawCommand::Text { x: 0, y: 0, text: String::from_str("Space to flap") },
        );
        push_command(
            &mut commands,
            DrawCommand::Text {
                x: 0,
                y: 1,
                text: labelled_pair_string("player: ", self.player.x, self.player.y),
            },
        );
        push_command(
            &mut commands,
            DrawCommand::Text {
                x: 0,
                y: 2,
                text: labelled_pair_string("obstacle: ", self.obstacle.x, self.obstacle.gap_y),
            },
        );

        if self.obstacle.x == self.player.x && self.player.y < self.obstacle.gap_y {
            self.mode = GameMode::End;
        }
        if self.obstacle.x == self.player.x && self.player.y >= self.obstacle.gap_y
            + self.obstacle.size {
            self.mode = GameMode::End;
        }
        if self.player.y > SCREEN_HEIGHT {
            self.mode = GameMode::End;
        }

        push_command(&mut commands, self.player.render());
        let ghost head = views(commands@);
        append_commands(&mut commands, self.obstacle.render());
        assert(views(commands@) =~= old(self).play_frame(key, elapsed)) by {
            assert(head =~= old(self).play_frame(key, elapsed).subrange(0, 5));
        }
        self.obstacle.mov();

        Frame { commands, quit: false }
    }

    /// Starts a game: player and obstacle go back to their starting places,
    /// the time since the last physics step to 0, and the game is played.
    pub fn restart(&mut self)
        ensures
            *final(self) == State::started(),
            final(self).wf(),
    {
        self.player = Player::new();
        self.mode = GameMode::Play;
        self.frame_time = 0;
        self.obstacle = Obstacle::new();
    }

    /// One frame of the screen that follows a lost game. `P` starts a game
    /// and `Q` asks to leave; any other key, or none, leaves the state as it
    /// is.
    pub fn dead(&mut self, key: Option<Key>) -> (frame: Frame)
        ensures
            *final(self) == old(self).chosen(key),
            views(frame.commands@) == dead_frame(),
            frame.quit == (key == Some(Key::Q)),
            old(self).wf() ==> final(self).wf(),
    {
        let mut commands: Vec<DrawCommand> = Vec::new();
        push_command(&mut commands, DrawCommand::Clear);
        push_command(
            &mut commands,
            DrawCommand::CenteredText { y: 5, text: String::from_str("You Dead!") },
        );
        push_command(
            &mut commands,
            DrawCommand::CenteredText { y: 8, text: String::from_str("(P) Play") },
        );
        push_command(
            &mut commands,
            DrawCommand::CenteredText { y: 9, text: String::from_str("(Q) Quit") },
        );
        assert(views(commands@) =~= dead_frame());
        let mut quit = false;
        match key {
            Some(Key::P) => {
                self.restart();
            },
            Some(Key::Q) => {
                quit = true;
            },
            _ => {},
        }
        Frame { commands, quit }
    }

    /// One frame of the game, in whatever mode it is: the menu, play, or the
    /// screen that follows a lost game.
    pub fn tick(&mut self, key: Option<Key>, elapsed: u64) -> (frame: Frame)
        requires
            old(self).can_tick(elapsed),
        ensures
            *final(self) == old(self).ticked(key, elapsed),
            views(frame.commands@) == old(self).tick_frame(key, elapsed),
            frame.quit == old(self).tick_quits(key),
            old(self).wf() ==> final(self).wf(),
    {
        let mut commands: Vec<DrawCommand> = Vec::new();
        push_command(&mut commands, DrawCommand::Clear);
        push_command(
            &mut commands,
            DrawCommand::Text { x: 1, y: 1, text: String::from_str("Hello!") },
        );
        assert(views(commands@) =~= frame_head());
        let shown = match self.mode {
            GameMode::Menu => self.menu(key),
            GameMode::Play => self.play(key, elapsed),
            GameMode::End => self.dead(key),
        };
        append_commands(&mut commands, shown.commands);
        Frame { commands, quit: shown.quit }
    }
}

impl Default for State {
    /// The state in which the game opens.
    fn default() -> (state: State)
        ensures
            state == State::fresh(),
    {
        State::new()
    }
}

/// Within the bounds that every frame keeps, every frame can be computed,
/// whatever key was pressed and however much time has passed, and leads to
/// a state within them.
pub proof fn lemma_wf_can_tick(state: State, key: Option<Key>, elapsed: u64)
    requires
        state.wf(),
    ensures
        state.can_tick(elapsed),
        state.ticked(key, elapsed).wf(),
{
}

/// `P` starts a game from the menu and from the screen that follows a lost
/// game alike: the player is back at column 5 and row 25 and at rest, the
/// wall at column 80 with its gap of 10 rows from row 20, and the game is
/// played.
pub proof fn lemma_p_starts_game(state: State, elapsed: u64)
    requires
        state.mode == GameMode::Menu || state.mode == GameMode::End,
    ensures
        state.ticked(Some(Key::P), elapsed) == State::started(),
        State::started().mode == GameMode::Play,
        State::started().frame_time == 0,
        State::started().player == (Player { x: 5, y: 25, velocity: 0 }),
        State::started().obstacle == (Obstacle { x: 80, gap_y: 20, size: 10 }),
{
}

/// The modes follow one another in one direction only: the menu is left for
/// play, play for the screen that follows a lost game, and that screen for
/// play again. The menu and that screen are left on `P` alone; play is left
/// when the game is lost, and only then.
pub proof fn lemma_mode_order(state: State, key: Option<Key>, elapsed: u64)
    ensures
        state.mode == GameMode::Menu ==> state.ticked(key, elapsed).mode == if key == Some(
            Key::P,
        ) {
            GameMode::Play
        } else {
            GameMode::Menu
        },
        state.mode == GameMode::End ==> state.ticked(key, elapsed).mode == if key == Some(Key::P) {
            GameMode::Play
        } else {
            GameMode::End
        },
        state.mode == GameMode::Play ==> state.ticked(key, elapsed).mode == if lost(
            state.next_player(key, elapsed),
            state.obstacle,
        ) {
            GameMode::End
        } else {
            GameMode::Play
        },
{
}

/// A player below the screen loses the game wherever the wall stands.
pub proof fn lemma_below_screen_is_lost(player: Player, obstacle: Obstacle)
    requires
        player.y > SCREEN_HEIGHT,
    ensures
        lost(player, obstacle),
{
}

} // verus!
