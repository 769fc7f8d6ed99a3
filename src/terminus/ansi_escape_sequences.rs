//! Control characters and control sequences (`ESC [ params letter`), each
//! with its exact text as a spec function and an encoder proved against it.
use vstd::prelude::*;
use vstd::utf8::encode_utf8;

use crate::terminus::text::{decimal, push_char, push_decimal};

verus! {

/// The escape character, 0x1B.
pub const ESCAPE: char = '\x1b';

#[derive(Debug, Clone, Copy, PartialEq, Eq, Structural)]
pub enum ControlCharacters {
    /// Make bell sound
    Bell,
    Backspace,
    Tab,
    LineFeed,
    FormFeed,
    CarriageReturn,
    Escape,
}

impl ControlCharacters {
    pub open spec fn code(self) -> nat {
        match self {
            ControlCharacters::Bell => 0x07,
            ControlCharacters::Backspace => 0x08,
            ControlCharacters::Tab => 0x09,
            ControlCharacters::LineFeed => 0x0A,
            ControlCharacters::FormFeed => 0x0C,
            ControlCharacters::CarriageReturn => 0x0D,
            ControlCharacters::Escape => 0x1B,
        }
    }

    /// The character itself.
    pub fn to_char(&self) -> (r: char)
        ensures
            r as nat == self.code(),
    {
        match self {
            ControlCharacters::Bell => '\x07',
            ControlCharacters::Backspace => '\x08',
            ControlCharacters::Tab => '\x09',
            ControlCharacters::LineFeed => '\x0A',
            ControlCharacters::FormFeed => '\x0C',
            ControlCharacters::CarriageReturn => '\x0D',
            ControlCharacters::Escape => ESCAPE,
        }
    }

    /// The character as a one-character string.
    pub fn to_string(&self) -> (r: String)
        ensures
            r@.len() == 1,
            r@[0] as nat == self.code(),
    {
        let mut s = String::new();
        push_char(&mut s, self.to_char());
        s
    }
}

#[derive(Debug, Clone, Copy, PartialEq, Eq, Structural)]
pub enum TerminalColor {
    Black,
    Red,
    Green,
    Yellow,
    Blue,
    Magenta,
    Cyan,
    White,
}

impl TerminalColor {
    /// The color's index, 0 to 7, as the protocol numbers it.
    pub open spec fn code(self) -> nat {
        match self {
            TerminalColor::Black => 0,
            TerminalColor::Red => 1,
            TerminalColor::Green => 2,
            TerminalColor::Yellow => 3,
            TerminalColor::Blue => 4,
            TerminalColor::Magenta => 5,
            TerminalColor::Cyan => 6,
            TerminalColor::White => 7,
        }
    }

    pub fn index(&self) -> (r: u8)
        ensures
            r as nat == self.code(),
    {
        match self {
            TerminalColor::Black => 0,
            TerminalColor::Red => 1,
            TerminalColor::Green => 2,
            TerminalColor::Yellow => 3,
            TerminalColor::Blue => 4,
            TerminalColor::Magenta => 5,
            TerminalColor::Cyan => 6,
            TerminalColor::White => 7,
        }
    }
}

#[derive(Debug, Clone, Copy, PartialEq, Eq, Structural)]
pub enum EraseOption {
    CursorToEnd,
    CursorToBeginning,
    All,
}

impl EraseOption {
    pub open spec fn code(self) -> nat {
        match self {
            EraseOption::CursorToEnd => 0,
            EraseOption::CursorToBeginning => 1,
            EraseOption::All => 2,
        }
    }

    pub fn index(&self) -> (r: u8)
        ensures
            r as nat == self.code(),
    {
        match self {
            EraseOption::CursorToEnd => 0,
            EraseOption::CursorToBeginning => 1,
            EraseOption::All => 2,
        }
    }
}

/// Select Graphic Rendition
#[derive(Debug, Clone, Copy, PartialEq, Eq, Structural)]
pub enum SGR {
    /// Reset all Graphic Rendition.
    Reset,
    /// Render text in Bold.
    Bold,
    /// Render text with decreased intensity.
    Dim,
    /// Render text in Italic.
    Italic,
    /// Render text with underline.
    Underline,
    SlowBlink,
    RapidBlink,
    /// Swap foreground color with background color.
    Invert,
    /// The text will not be rendered.
    Hide,
    /// Render text with strike.
    Strike,
    DefaultFont,
    SetAlternativeFont(u8),
    Fraktur,
    /// Render text with double underline.
    DoublyUnderlined,
    NormalIntensity,
    NeitherItalicNorBlackletter,
    NotUnderlined,
    NotBlinking,
    ProportionalSpacing,
    NotReversed,
    Reveal,
    NotCrossedOut,
    SetForegroundColor(TerminalColor),
    SetForegroundColorRGB { r: u8, g: u8, b: u8 },
    DefaultForegroundColor,
    SetBackgroundColor(TerminalColor),
    SetBackgroundColorRGB { r: u8, g: u8, b: u8 },
    DefaultBackgroundColor,
    DisableProportionalSpacing,
    Framed,
    Encircled,
    Overlined,
    NeitherFramedNorEncircled,
    NotOverlined,
    SetUnderlineColor,
    DefaultUnderlineColor,
    SetBrightForegroundColor(TerminalColor),
    SetBrightBackgroundColor(TerminalColor),
}

/// Two digits.
pub open spec fn two(a: char, b: char) -> Seq<char> {
    seq![a, b]
}

/// `38;2;r;g;b` or `48;2;r;g;b`, after the leading digit `lead`.
pub open spec fn rgb_code(lead: char, r: u8, g: u8, b: u8) -> Seq<char> {
    seq![lead, '8', ';', '2', ';'] + decimal(r as nat) + seq![';'] + decimal(g as nat) + seq![';']
        + decimal(b as nat)
}

impl SGR {
    /// The rendition's numeric code, as it stands between `ESC[` and `m`.
    pub open spec fn code(self) -> Seq<char> {
        match self {
            SGR::Reset => seq!['0'],
            SGR::Bold => seq!['1'],
            SGR::Dim => seq!['2'],
            SGR::Italic => seq!['3'],
            SGR::Underline => seq!['4'],
            SGR::SlowBlink => seq!['5'],
            SGR::RapidBlink => seq!['6'],
            SGR::Invert => seq!['7'],
            SGR::Hide => seq!['8'],
            SGR::Strike => seq!['9'],
            SGR::DefaultFont => two('1', '0'),
            SGR::SetAlternativeFont(font) => seq!['1'] + decimal(font as nat),
            SGR::Fraktur => two('2', '0'),
            SGR::DoublyUnderlined => two('2', '1'),
            SGR::NormalIntensity => two('2', '2'),
            SGR::NeitherItalicNorBlackletter => two('2', '3'),
            SGR::NotUnderlined => two('2', '4'),
            SGR::NotBlinking => two('2', '5'),
            SGR::ProportionalSpacing => two('2', '6'),
            SGR::NotReversed => two('2', '7'),
            SGR::Reveal => two('2', '8'),
            SGR::NotCrossedOut => two('2', '9'),
            SGR::SetForegroundColor(c) => seq!['3'] + decimal(c.code()),
            SGR::SetForegroundColorRGB { r, g, b } => rgb_code('3', r, g, b),
            SGR::DefaultForegroundColor => two('3', '9'),
            SGR::SetBackgroundColor(c) => seq!['4'] + decimal(c.code()),
            SGR::SetBackgroundColorRGB { r, g, b } => rgb_code('4', r, g, b),
            SGR::DefaultBackgroundColor => two('4', '9'),
            SGR::DisableProportionalSpacing => two('5', '0'),
            SGR::Framed => two('5', '1'),
            SGR::Encircled => two('5', '2'),
            SGR::Overlined => two('5', '3'),
            SGR::NeitherFramedNorEncircled => two('5', '4'),
            SGR::NotOverlined => two('5', '5'),
            SGR::SetUnderlineColor => two('5', '8'),
            SGR::DefaultUnderlineColor => two('5', '9'),
            SGR::SetBrightForegroundColor(c) => seq!['9'] + decimal(c.code()),
            SGR::SetBrightBackgroundColor(c) => seq!['1', '0'] + decimal(c.code()),
        }
    }

    /// Appends the rendition's numeric code.
    pub fn write_code(&self, s: &mut String)
        ensures
            final(s)@ == old(s)@ + self.code(),
    {
        let ghost start = s@;
        match self {
            SGR::Reset => push_char(s, '0'),
            SGR::Bold => push_char(s, '1'),
            SGR::Dim => push_char(s, '2'),
            SGR::Italic => push_char(s, '3'),
            SGR::Underline => push_char(s, '4'),
            SGR::SlowBlink => push_char(s, '5'),
            SGR::RapidBlink => push_char(s, '6'),
            SGR::Invert => push_char(s, '7'),
            SGR::Hide => push_char(s, '8'),
            SGR::Strike => push_char(s, '9'),
            SGR::DefaultFont => push_two(s, '1', '0'),
            SGR::SetAlternativeFont(font) => {
                push_char(s, '1');
                push_decimal(s, *font as u32);
            },
            SGR::Fraktur => push_two(s, '2', '0'),
            SGR::DoublyUnderlined => push_two(s, '2', '1'),
            SGR::NormalIntensity => push_two(s, '2', '2'),
            SGR::NeitherItalicNorBlackletter => push_two(s, '2', '3'),
            SGR::NotUnderlined => push_two(s, '2', '4'),
            SGR::NotBlinking => push_two(s, '2', '5'),
            SGR::ProportionalSpacing => push_two(s, '2', '6'),
            SGR::NotReversed => push_two(s, '2', '7'),
            SGR::Reveal => push_two(s, '2', '8'),
            SGR::NotCrossedOut => push_two(s, '2', '9'),
            SGR::SetForegroundColor(c) => {
                push_char(s, '3');
                push_decimal(s, c.index() as u32);
            },
            SGR::SetForegroundColorRGB { r, g, b } => push_rgb(s, '3', *r, *g, *b),
            SGR::DefaultForegroundColor => push_two(s, '3', '9'),
            SGR::SetBackgroundColor(c) => {
                push_char(s, '4');
                push_decimal(s, c.index() as u32);
            },
            SGR::SetBackgroundColorRGB { r, g, b } => push_rgb(s, '4', *r, *g, *b),
            SGR::DefaultBackgroundColor => push_two(s, '4', '9'),
            SGR::DisableProportionalSpacing => push_two(s, '5', '0'),
            SGR::Framed => push_two(s, '5', '1'),
            SGR::Encircled => push_two(s, '5', '2'),
            SGR::Overlined => push_two(s, '5', '3'),
            SGR::NeitherFramedNorEncircled => push_two(s, '5', '4'),
            SGR::NotOverlined => push_two(s, '5', '5'),
            SGR::SetUnderlineColor => push_two(s, '5', '8'),
            SGR::DefaultUnderlineColor => push_two(s, '5', '9'),
            SGR::SetBrightForegroundColor(c) => {
                push_char(s, '9');
                push_decimal(s, c.index() as u32);
            },
            SGR::SetBrightBackgroundColor(c) => {
                push_two(s, '1', '0');
                push_decimal(s, c.index() as u32);
            },
        }
        assert(s@ =~= start + self.code());
    }
}

fn push_two(s: &mut String, a: char, b: char)
    ensures
        final(s)@ == old(s)@ + two(a, b),
{
    push_char(s, a);
    push_char(s, b);
    assert(s@ =~= old(s)@ + two(a, b));
}

fn push_rgb(s: &mut String, lead: char, r: u8, g: u8, b: u8)
    ensures
        final(s)@ == old(s)@ + rgb_code(lead, r, g, b),
{
    push_char(s, lead);
    push_char(s, '8');
    push_char(s, ';');
    push_char(s, '2');
    push_char(s, ';');
    push_decimal(s, r as u32);
    push_char(s, ';');
    push_decimal(s, g as u32);
    push_char(s, ';');
    push_decimal(s, b as u32);
    assert(s@ =~= old(s)@ + rgb_code(lead, r, g, b));
}

/// Control Sequence Introducer
#[derive(Debug, Clone, Copy, PartialEq, Eq, Structural)]
pub enum CSI {
    /// Move the cursor up by n.
    ///
    /// Stop at the edge of the screen.
    CursorUp(u16),
    /// Move the cursor down by n.
    ///
    /// Stop at the edge of the screen.
    CursorDown(u16),
    /// Move the cursor forward by n.
    ///
    /// Stop at the edge of the screen.
    CursorForward(u16),
    /// Move the cursor back by n.
    ///
    /// Stop at the edge of the screen.
    CursorBack(u16),
    /// Move the cursor at the start of the n next line.
    ///
    /// Stop at the edge of the screen.
    CursorNextLine(u16),
    /// Move the cursor at the start of the n previous line.
    ///
    /// Stop at the edge of the screen.
    CursorPreviousLine(u16),
    /// Move the cursor horizontally to column n.
    ///
    /// Stop at the edge of the screen.
    CursorHorizontalAbsolute(u16),
    /// Move the cursor to row n, column m, where n=1 and m=1 is the top left
    /// corner.
    ///
    /// Stop at the edge of the screen.
    CursorPosition(u16, u16),
    /// Erase text in display.
    ///
    /// With option All it clears the window but keeps the history. To clear
    /// the screen without keeping what was printed before, move the cursor
    /// to 1, 1 and erase with option CursorToEnd.
    EraseInDisplay(EraseOption),
    /// Erase text in line.
    EraseInLine(EraseOption),
    /// Scroll the text up but does not change cursor position.
    ScrollUp(u16),
    /// Scroll the text down but does not change cursor position.
    ScrollDown(u16),
    /// Set the position of the cursor without exceeding the window bound.
    HorizontalVerticalPosition(u16, u16),
    /// Set Graphic Rendition property.
    SelectGraphicRendition(SGR),
    AuxPortOn,
    AuxPortOff,
    DeviceStatusReport,
    /// Save the current cursor position.
    SaveCursorPosition,
    /// Restore the saved cursor position.
    ///
    /// If nothing was saved, some terminals use position 1, 1 or the end of
    /// the text.
    RestoreCursorPosition,
    HideCursor,
    ShowCursor,
}

impl CSI {
    /// The parameter block between `ESC[` and the final letter.
    pub open spec fn parameter(self) -> Seq<char> {
        match self {
            CSI::CursorUp(n) => decimal(n as nat),
            CSI::CursorDown(n) => decimal(n as nat),
            CSI::CursorForward(n) => decimal(n as nat),
            CSI::CursorBack(n) => decimal(n as nat),
            CSI::CursorNextLine(n) => decimal(n as nat),
            CSI::CursorPreviousLine(n) => decimal(n as nat),
            CSI::CursorHorizontalAbsolute(n) => decimal(n as nat),
            CSI::ScrollUp(n) => decimal(n as nat),
            CSI::ScrollDown(n) => decimal(n as nat),
            CSI::CursorPosition(n, m) => decimal(n as nat) + seq![';'] + decimal(m as nat),
            CSI::HorizontalVerticalPosition(n, m) => decimal(n as nat) + seq![';'] + decimal(
                m as nat,
            ),
            CSI::EraseInDisplay(eo) => decimal(eo.code()),
            CSI::EraseInLine(eo) => decimal(eo.code()),
            CSI::SelectGraphicRendition(sgr) => sgr.code(),
            CSI::AuxPortOn => seq!['5'],
            CSI::AuxPortOff => seq!['4'],
            CSI::DeviceStatusReport => seq!['6'],
            CSI::SaveCursorPosition => seq![],
            CSI::RestoreCursorPosition => seq![],
            CSI::HideCursor => seq!['?', '2', '5'],
            CSI::ShowCursor => seq!['?', '2', '5'],
        }
    }

    /// The letter that ends the sequence and names the command.
    pub open spec fn letter(self) -> char {
        match self {
            CSI::CursorUp(_) => 'A',
            CSI::CursorDown(_) => 'B',
            CSI::CursorForward(_) => 'C',
            CSI::CursorBack(_) => 'D',
            CSI::CursorNextLine(_) => 'E',
            CSI::CursorPreviousLine(_) => 'F',
            CSI::CursorHorizontalAbsolute(_) => 'G',
            CSI::CursorPosition(_, _) => 'H',
            CSI::EraseInDisplay(_) => 'J',
            CSI::EraseInLine(_) => 'K',
            CSI::ScrollUp(_) => 'S',
            CSI::ScrollDown(_) => 'T',
            CSI::HorizontalVerticalPosition(_, _) => 'f',
            CSI::SelectGraphicRendition(_) => 'm',
            CSI::AuxPortOn => 'i',
            CSI::AuxPortOff => 'i',
            CSI::DeviceStatusReport => 'n',
            CSI::SaveCursorPosition => 's',
            CSI::RestoreCursorPosition => 'u',
            CSI::HideCursor => 'l',
            CSI::ShowCursor => 'h',
        }
    }

    /// The whole sequence: escape, `[`, the parameter block, the letter.
    pub open spec fn text(self) -> Seq<char> {
        seq![ESCAPE, '['] + self.parameter() + seq![self.letter()]
    }

    /// The sequence as it goes to the device, UTF-8 encoded.
    pub open spec fn bytes(self) -> Seq<u8> {
        encode_utf8(self.text())
    }

    fn write_parameter(&self, s: &mut String)
        ensures
            final(s)@ == old(s)@ + self.parameter(),
    {
        let ghost start = s@;
        match self {
            CSI::CursorUp(n) | CSI::CursorDown(n) | CSI::CursorForward(n) | CSI::CursorBack(n)
            | CSI::CursorNextLine(n) | CSI::CursorPreviousLine(n) | CSI::CursorHorizontalAbsolute(
                n,
            ) | CSI::ScrollUp(n) | CSI::ScrollDown(n) => push_decimal(s, *n as u32),
            CSI::CursorPosition(n, m) | CSI::HorizontalVerticalPosition(n, m) => {
                push_decimal(s, *n as u32);
                push_char(s, ';');
                push_decimal(s, *m as u32);
            },
            CSI::EraseInDisplay(eo) | CSI::EraseInLine(eo) => push_decimal(s, eo.index() as u32),
            CSI::SelectGraphicRendition(sgr) => sgr.write_code(s),
            CSI::AuxPortOn => push_char(s, '5'),
            CSI::AuxPortOff => push_char(s, '4'),
            CSI::DeviceStatusReport => push_char(s, '6'),
            CSI::SaveCursorPosition | CSI::RestoreCursorPosition => {},
            CSI::HideCursor | CSI::ShowCursor => {
                push_char(s, '?');
                push_char(s, '2');
                push_char(s, '5');
            },
        }
        assert(s@ =~= start + self.parameter());
    }

    fn write_letter_flag(&self, s: &mut String)
        ensures
            final(s)@ == old(s)@.push(self.letter()),
    {
        push_char(
            s,
            match self {
                CSI::CursorUp(_) => 'A',
                CSI::CursorDown(_) => 'B',
                CSI::CursorForward(_) => 'C',
                CSI::CursorBack(_) => 'D',
                CSI::CursorNextLine(_) => 'E',
                CSI::CursorPreviousLine(_) => 'F',
                CSI::CursorHorizontalAbsolute(_) => 'G',
                CSI::CursorPosition(_, _) => 'H',
                CSI::EraseInDisplay(_) => 'J',
                CSI::EraseInLine(_) => 'K',
                CSI::ScrollUp(_) => 'S',
                CSI::ScrollDown(_) => 'T',
                CSI::HorizontalVerticalPosition(_, _) => 'f',
                CSI::SelectGraphicRendition(_) => 'm',
                CSI::AuxPortOn | CSI::AuxPortOff => 'i',
                CSI::DeviceStatusReport => 'n',
                CSI::SaveCursorPosition => 's',
                CSI::RestoreCursorPosition => 'u',
                CSI::HideCursor => 'l',
                CSI::ShowCursor => 'h',
            },
        );
    }

    /// Appends the whole sequence.
    pub fn write_to(&self, s: &mut String)
        ensures
            final(s)@ == old(s)@ + self.text(),
    {
        push_char(s, ESCAPE);
        push_char(s, '[');
        self.write_parameter(s);
        self.write_letter_flag(s);
        assert(s@ =~= old(s)@ + self.text());
    }

    /// The whole sequence as a string.
    pub fn to_string(&self) -> (r: String)
        ensures
            r@ == self.text(),
    {
        let mut s = String::new();
        self.write_to(&mut s);
        assert(s@ =~= self.text());
        s
    }

    /// The sequence with the escape character spelled `esc`, for display in
    /// logs and messages.
    pub fn to_debug_string(&self) -> (r: String)
        ensures
            r@ == seq!['e', 's', 'c', '['] + self.parameter() + seq![self.letter()],
    {
        let mut s = String::new();
        push_char(&mut s, 'e');
        push_char(&mut s, 's');
        push_char(&mut s, 'c');
        push_char(&mut s, '[');
        self.write_parameter(&mut s);
        self.write_letter_flag(&mut s);
        assert(s@ =~= seq!['e', 's', 'c', '['] + self.parameter() + seq![self.letter()]);
        s
    }
}

} // verus!
