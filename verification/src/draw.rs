//! Drawing commands: what a frame asks the terminal to show.
//!
//! The game never touches a terminal. Each frame it hands back a list of
//! [`DrawCommand`]s, to be carried out in order on an 80x50 character grid.
//! Colours and glyph codes are those of `bracket_lib`, so that a command can
//! be passed on to it as it is.

use vstd::prelude::*;

verus! {

/// A colour as red, green and blue.
#[derive(Clone, Copy, Debug, PartialEq, Eq, Structural)]
pub struct Rgb {
    pub r: u8,
    pub g: u8,
    pub b: u8,
}

/// One request to the terminal.
#[derive(Debug, PartialEq, Eq)]
pub enum DrawCommand {
    /// Clear the whole screen.
    Clear,
    /// Clear the whole screen to one background colour.
    ClearTo { background: Rgb },
    /// Put one glyph of the terminal's code page into one cell.
    Glyph { x: i32, y: i32, fg: Rgb, bg: Rgb, glyph: u16 },
    /// Write a text, starting at the given cell.
    Text { x: i32, y: i32, text: String },
    /// Write a text in the middle of the given row.
    CenteredText { y: i32, text: String },
}

/// What a [`DrawCommand`] stands for in contracts: the same request, with
/// its text as a sequence of characters.
pub ghost enum Draw {
    Clear,
    ClearTo { background: Rgb },
    Glyph { x: int, y: int, fg: Rgb, bg: Rgb, glyph: u16 },
    Text { x: int, y: int, text: Seq<char> },
    CenteredText { y: int, text: Seq<char> },
}

impl View for DrawCommand {
    type V = Draw;

    open spec fn view(&self) -> Draw {
        match *self {
            DrawCommand::Clear => Draw::Clear,
            DrawCommand::ClearTo { background } => Draw::ClearTo { background },
            DrawCommand::Glyph { x, y, fg, bg, glyph } => Draw::Glyph {
                x: x as int,
                y: y as int,
                fg,
                bg,
                glyph,
            },
            DrawCommand::Text { x, y, text } => Draw::Text { x: x as int, y: y as int, text: text@ },
            DrawCommand::CenteredText { y, text } => Draw::CenteredText { y: y as int, text: text@ },
        }
    }
}

/// What a list of commands stands for: the list of what each stands for.
pub open spec fn views(commands: Seq<DrawCommand>) -> Seq<Draw> {
    Seq::new(commands.len(), |i: int| commands[i]@)
}

/// The view of a list with one more command at its end.
pub proof fn lemma_views_push(commands: Seq<DrawCommand>, command: DrawCommand)
    ensures
        views(commands.push(command)) == views(commands).push(command@),
{
    assert(views(commands.push(command)) =~= views(commands).push(command@));
}

/// The view of two lists put together.
pub proof fn lemma_views_add(first: Seq<DrawCommand>, second: Seq<DrawCommand>)
    ensures
        views(first + second) == views(first) + views(second),
{
    assert(views(first + second) =~= views(first) + views(second));
}

/// Puts one more command at the end of a list.
pub(crate) fn push_command(commands: &mut Vec<DrawCommand>, command: DrawCommand)
    ensures
        views(final(commands)@) == views(old(commands)@).push(command@),
{
    proof {
        lemma_views_push(commands@, command);
    }
    commands.push(command);
}

/// Puts the commands of a second list at the end of a first.
pub(crate) fn append_commands(commands: &mut Vec<DrawCommand>, more: Vec<DrawCommand>)
    ensures
        views(final(commands)@) == views(old(commands)@) + views(more@),
{
    proof {
        lemma_views_add(commands@, more@);
    }
    let mut more = more;
    commands.append(&mut more);
}

/// The colour black.
pub open spec fn black_rgb() -> Rgb {
    Rgb { r: 0, g: 0, b: 0 }
}

/// The colour navy.
pub open spec fn navy_rgb() -> Rgb {
    Rgb { r: 0, g: 0, b: 128 }
}

/// The colour yellow.
pub open spec fn yellow_rgb() -> Rgb {
    Rgb { r: 255, g: 255, b: 0 }
}

/// The code that `bracket_lib`'s code page 437 gives to a character.
pub uninterp spec fn cp437(c: char) -> u16;

/// Reads `bracket_lib`'s named colour `BLACK`. Trusted: that the constant is
/// red 0, green 0, blue 0.
#[verifier::external_body]
pub(crate) fn black() -> (c: Rgb)
    ensures
        c == black_rgb(),
{
    let (r, g, b) = bracket_lib::prelude::BLACK;
    Rgb { r, g, b }
}

/// Reads `bracket_lib`'s named colour `NAVY`. Trusted: that the constant is
/// red 0, green 0, blue 128.
#[verifier::external_body]
pub(crate) fn navy() -> (c: Rgb)
    ensures
        c == navy_rgb(),
{
    let (r, g, b) = bracket_lib::prelude::NAVY;
    Rgb { r, g, b }
}

/// Reads `bracket_lib`'s named colour `YELLOW`. Trusted: that the constant is
/// red 255, green 255, blue 0.
#[verifier::external_body]
pub(crate) fn yellow() -> (c: Rgb)
    ensures
        c == yellow_rgb(),
{
    let (r, g, b) = bracket_lib::prelude::YELLOW;
    Rgb { r, g, b }
}

/// Calls `bracket_lib`'s `to_cp437`, which looks a character up in a fixed
/// table. Trusted: that the result depends on the character alone, and that
/// the table gives `'@'` the code 64.
#[verifier::external_body]
pub(crate) fn to_cp437(c: char) -> (code: u16)
    ensures
        code == cp437(c),
        c == '@' ==> code == 64,
{
    bracket_lib::prelude::to_cp437(c)
}

} // verus!
