//! The game-over banner.
use vstd::prelude::*;
use vstd::utf8::encode_utf8;

use crate::component::border::{repeat_char, repeated};
use crate::component::Position;
use crate::terminus::ansi_escape_sequences::CSI;
use crate::terminus::screen::{Error, Screen, SharedScreen};
use crate::terminus::sink::Sink;

verus! {

pub const GAME_OVER_WIDTH: u16 = 74;

pub const GAME_OVER_HEIGHT: u16 = 8;

/// Line `i` of the banner.
pub open spec fn banner(i: int) -> Seq<char> {
    if i == 0 {
        " ██████╗  █████╗ ███╗   ███╗███████╗     ██████╗ ██╗   ██╗███████╗██████╗ "@
    } else 
    if i == 1 {
        "██╔════╝ ██╔══██╗████╗ ████║██╔════╝    ██╔═══██╗██║   ██║██╔════╝██╔══██╗"@
    } else 
    if i == 2 {
        "██║  ███╗███████║██╔████╔██║█████╗      ██║   ██║██║   ██║█████╗  ██████╔╝"@
    } else 
    if i == 3 {
        "██║   ██║██╔══██║██║╚██╔╝██║██╔══╝      ██║   ██║╚██╗ ██╔╝██╔══╝  ██╔══██╗"@
    } else 
    if i == 4 {
        "╚██████╔╝██║  ██║██║ ╚═╝ ██║███████╗    ╚██████╔╝ ╚████╔╝ ███████╗██║  ██║"@
    } else 
    if i == 5 {
        " ╚═════╝ ╚═╝  ╚═╝╚═╝     ╚═╝╚══════╝     ╚═════╝   ╚═══╝  ╚══════╝╚═╝  ╚═╝"@
    } else 
    if i == 6 {
        "                                                                          "@
    } else {
        "                          Press q to quit game!                           "@
    }
}

/// Line `i` of the banner, each `GAME_OVER_WIDTH` characters long.
pub fn game_over_line(i: u16) -> (r: &'static str)
    requires
        i < GAME_OVER_HEIGHT,
    ensures
        r@ == banner(i as int),
{
    if i == 0 {
        " ██████╗  █████╗ ███╗   ███╗███████╗     ██████╗ ██╗   ██╗███████╗██████╗ "
    } else 
    if i == 1 {
        "██╔════╝ ██╔══██╗████╗ ████║██╔════╝    ██╔═══██╗██║   ██║██╔════╝██╔══██╗"
    } else 
    if i == 2 {
        "██║  ███╗███████║██╔████╔██║█████╗      ██║   ██║██║   ██║█████╗  ██████╔╝"
    } else 
    if i == 3 {
        "██║   ██║██╔══██║██║╚██╔╝██║██╔══╝      ██║   ██║╚██╗ ██╔╝██╔══╝  ██╔══██╗"
    } else 
    if i == 4 {
        "╚██████╔╝██║  ██║██║ ╚═╝ ██║███████╗    ╚██████╔╝ ╚████╔╝ ███████╗██║  ██║"
    } else 
    if i == 5 {
        " ╚═════╝ ╚═╝  ╚═╝╚═╝     ╚═╝╚══════╝     ╚═════╝   ╚═══╝  ╚══════╝╚═╝  ╚═╝"
    } else 
    if i == 6 {
        "                                                                          "
    } else {
        "                          Press q to quit game!                           "
    }
}

/// What drawing the first `k` lines of `line` at (`x`, `y`) sends: for each,
/// a move to the start of its row and the line.
pub open spec fn rows_drawing(x: u16, y: u16, k: nat, line: spec_fn(int) -> Seq<char>) -> Seq<u8>
    decreases k,
{
    if k == 0 {
        seq![]
    } else {
        rows_drawing(x, y, (k - 1) as nat, line) + CSI::CursorPosition(
            (y + k - 1) as u16,
            x,
        ).bytes() + encode_utf8(line(k - 1))
    }
}

/// A row of spaces as wide as the banner.
pub open spec fn blank_row(i: int) -> Seq<char> {
    repeated(' ', GAME_OVER_WIDTH as nat)
}

/// Whether the banner's rows below `position` stay on the screen.
pub open spec fn fits_banner(position: Position) -> bool {
    position.y + GAME_OVER_HEIGHT <= u16::MAX
}

/// Draws the banner with its top left corner at `position`.
pub fn draw_banner<T: Sink>(screen: &mut Screen<T>, position: Position) -> (r: Result<(), Error>)
    requires
        fits_banner(position),
    ensures
        r is Ok ==> final(screen).written() == old(screen).written() + rows_drawing(
            position.x,
            position.y,
            GAME_OVER_HEIGHT as nat,
            |i: int| banner(i),
        ),
{
    let mut i: u16 = 0;
    while i < GAME_OVER_HEIGHT
        invariant
            i <= GAME_OVER_HEIGHT,
            fits_banner(position),
            screen.written() == old(screen).written() + rows_drawing(
                position.x,
                position.y,
                i as nat,
                |i: int| banner(i),
            ),
        decreases GAME_OVER_HEIGHT - i,
    {
        match screen.cursor_mut().move_to(position.x, position.y + i) {
            Ok(()) => {},
            Err(e) => return Err(Error::IoFailure(e)),
        }
        match screen.write_str(game_over_line(i)) {
            Ok(()) => {},
            Err(e) => return Err(e),
        }
        i += 1;
    }
    Ok(())
}

/// Blanks the rows of the banner at `position`.
pub fn draw_blank_banner<T: Sink>(screen: &mut Screen<T>, position: Position) -> (r: Result<
    (),
    Error,
>)
    requires
        fits_banner(position),
    ensures
        r is Ok ==> final(screen).written() == old(screen).written() + rows_drawing(
            position.x,
            position.y,
            GAME_OVER_HEIGHT as nat,
            |i: int| blank_row(i),
        ),
{
    let blank = repeat_char(' ', GAME_OVER_WIDTH);
    let mut i: u16 = 0;
    while i < GAME_OVER_HEIGHT
        invariant
            i <= GAME_OVER_HEIGHT,
            fits_banner(position),
            blank@ == repeated(' ', GAME_OVER_WIDTH as nat),
            screen.written() == old(screen).written() + rows_drawing(
                position.x,
                position.y,
                i as nat,
                |i: int| blank_row(i),
            ),
        decreases GAME_OVER_HEIGHT - i,
    {
        match screen.cursor_mut().move_to(position.x, position.y + i) {
            Ok(()) => {},
            Err(e) => return Err(Error::IoFailure(e)),
        }
        match screen.write_str(blank.as_str()) {
            Ok(()) => {},
            Err(e) => return Err(e),
        }
        i += 1;
    }
    Ok(())
}

#[verifier::reject_recursive_types(T)]
pub struct GameOverComponent<T: Sink> {
    screen: SharedScreen<T>,
    position: Position,
}

impl<T: Sink> GameOverComponent<T> {
    #[verifier::type_invariant]
    closed spec fn wf(&self) -> bool {
        fits_banner(self.position)
    }

    /// A banner to be drawn with its top left corner at `position`.
    pub fn new(screen: SharedScreen<T>, position: Position) -> (r: Self)
        requires
            fits_banner(position),
        ensures
            r.position() == position,
    {
        GameOverComponent { screen, position }
    }

    pub closed spec fn spec_position(&self) -> Position {
        self.position
    }

    #[verifier::when_used_as_spec(spec_position)]
    pub fn position(&self) -> (r: Position)
        ensures
            r == self.spec_position(),
    {
        self.position
    }

    /// Draws the banner.
    pub fn render(&self) -> Result<(), Error> {
        proof {
            use_type_invariant(self);
        }
        let mut guard = match self.screen.lock() {
            Ok(g) => g,
            Err(e) => return Err(e),
        };
        let r = draw_banner(guard.screen_mut(), self.position);
        guard.release();
        r
    }

    /// Blanks the banner's rows.
    pub fn erase(&self) -> Result<(), Error> {
        proof {
            use_type_invariant(self);
        }
        let mut guard = match self.screen.lock() {
            Ok(g) => g,
            Err(e) => return Err(e),
        };
        let r = draw_blank_banner(guard.screen_mut(), self.position);
        guard.release();
        r
    }
}

} // verus!
