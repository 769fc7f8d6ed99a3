//! The apple: one styled cell.
use vstd::prelude::*;
use vstd::utf8::encode_utf8;

use crate::component::Position;
use crate::terminus::ansi_escape_sequences::{CSI, SGR};
use crate::terminus::text::push_char;
use crate::terminus::screen::{Error, Screen, SharedScreen};
use crate::terminus::sink::Sink;
use crate::terminus::style::{renditions, reset_text, Color, Style, StyleProperty};

verus! {

/// The apple's glyph.
pub const APPLE: char = '▄';

/// What writing `text` in `style` at `position` sends: a move there, the
/// style, the text, the reset sequence.
pub open spec fn styled_text(
    position: Position,
    style: Map<u8, StyleProperty>,
    text: Seq<char>,
) -> Seq<u8> {
    CSI::CursorPosition(position.y, position.x).bytes() + encode_utf8(renditions(style))
        + encode_utf8(text) + encode_utf8(reset_text())
}

/// What erasing the cell at `position` sends: a move there and a space.
pub open spec fn blank_cell(position: Position) -> Seq<u8> {
    CSI::CursorPosition(position.y, position.x).bytes() + encode_utf8(seq![' '])
}

/// Writes `text` in `style` at `position`.
pub fn draw_styled_text<T: Sink>(
    screen: &mut Screen<T>,
    position: Position,
    style: &Style,
    text: &str,
) -> (r: Result<(), Error>)
    ensures
        r is Ok ==> final(screen).written() == old(screen).written() + styled_text(
            position,
            style@,
            text@,
        ),
{
    match screen.cursor_mut().move_to(position.x, position.y) {
        Ok(()) => {},
        Err(e) => return Err(Error::IoFailure(e)),
    }
    let sequence = style.ansi_sequence();
    match screen.write_str(sequence.as_str()) {
        Ok(()) => {},
        Err(e) => return Err(e),
    }
    match screen.write_str(text) {
        Ok(()) => {},
        Err(e) => return Err(e),
    }
    let reset = CSI::SelectGraphicRendition(SGR::Reset).to_string();
    screen.write_str(reset.as_str())
}

/// Writes a space at `position`.
pub fn draw_blank_cell<T: Sink>(screen: &mut Screen<T>, position: Position) -> (r: Result<
    (),
    Error,
>)
    ensures
        r is Ok ==> final(screen).written() == old(screen).written() + blank_cell(position),
{
    match screen.cursor_mut().move_to(position.x, position.y) {
        Ok(()) => {},
        Err(e) => return Err(Error::IoFailure(e)),
    }
    screen.write_char(' ')
}

#[verifier::reject_recursive_types(T)]
pub struct AppleComponent<T: Sink> {
    style: Style,
    position: Position,
    screen: SharedScreen<T>,
}

impl<T: Sink> AppleComponent<T> {
    pub closed spec fn spec_position(&self) -> Position {
        self.position
    }

    /// An apple at `position`, drawn at once.
    pub fn new(screen: SharedScreen<T>, position: Position) -> (r: Result<Self, Error>)
        ensures
            r matches Ok(a) ==> a.spec_position() == position,
    {
        let mut style = Style::new();
        style.add_property(StyleProperty::Bold);
        style.add_property(StyleProperty::Color(Color::RGB(235, 35, 55)));
        let apple = AppleComponent { position, screen, style };
        match apple.render() {
            Ok(()) => Ok(apple),
            Err(e) => Err(e),
        }
    }

    pub fn position(&self) -> (r: Position)
        ensures
            r == self.spec_position(),
    {
        self.position
    }

    /// Draws the apple.
    pub fn render(&self) -> Result<(), Error> {
        let mut guard = match self.screen.lock() {
            Ok(g) => g,
            Err(e) => return Err(e),
        };
        let mut glyph = String::new();
        push_char(&mut glyph, APPLE);
        let r = draw_styled_text(guard.screen_mut(), self.position, &self.style, glyph.as_str());
        guard.release();
        r
    }

    /// Blanks the apple's cell; does nothing when the screen cannot be had.
    pub fn erase(&self) -> Result<(), Error> {
        match self.screen.lock() {
            Ok(guard) => {
                let mut guard = guard;
                let r = draw_blank_cell(guard.screen_mut(), self.position);
                guard.release();
                r
            },
            Err(_) => Ok(()),
        }
    }
}

} // verus!
