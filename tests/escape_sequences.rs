use snake_in_terminal::terminus::ansi_escape_sequences::{
    ControlCharacters, EraseOption, TerminalColor, CSI, SGR,
};

fn csi(c: CSI) -> String {
    c.to_string()
}

fn sgr(s: SGR) -> String {
    CSI::SelectGraphicRendition(s).to_string()
}

#[test]
fn cursor_moves_by_count() {
    assert_eq!(csi(CSI::CursorUp(3)), "\x1b[3A");
    assert_eq!(csi(CSI::CursorDown(12)), "\x1b[12B");
    assert_eq!(csi(CSI::CursorForward(1)), "\x1b[1C");
    assert_eq!(csi(CSI::CursorBack(7)), "\x1b[7D");
    assert_eq!(csi(CSI::CursorNextLine(2)), "\x1b[2E");
    assert_eq!(csi(CSI::CursorPreviousLine(40)), "\x1b[40F");
    assert_eq!(csi(CSI::CursorHorizontalAbsolute(9)), "\x1b[9G");
}

#[test]
fn counts_at_the_limits() {
    assert_eq!(csi(CSI::CursorUp(0)), "\x1b[0A");
    assert_eq!(csi(CSI::ScrollDown(65535)), "\x1b[65535T");
    assert_eq!(csi(CSI::CursorPosition(10, 100)), "\x1b[10;100H");
}

#[test]
fn positions_put_the_row_first() {
    assert_eq!(csi(CSI::CursorPosition(5, 17)), "\x1b[5;17H");
    assert_eq!(csi(CSI::HorizontalVerticalPosition(1, 2)), "\x1b[1;2f");
}

#[test]
fn erase_options() {
    assert_eq!(csi(CSI::EraseInDisplay(EraseOption::CursorToEnd)), "\x1b[0J");
    assert_eq!(csi(CSI::EraseInDisplay(EraseOption::CursorToBeginning)), "\x1b[1J");
    assert_eq!(csi(CSI::EraseInDisplay(EraseOption::All)), "\x1b[2J");
    assert_eq!(csi(CSI::EraseInLine(EraseOption::CursorToEnd)), "\x1b[0K");
    assert_eq!(csi(CSI::EraseInLine(EraseOption::All)), "\x1b[2K");
}

#[test]
fn scrolling() {
    assert_eq!(csi(CSI::ScrollUp(4)), "\x1b[4S");
    assert_eq!(csi(CSI::ScrollDown(6)), "\x1b[6T");
}

#[test]
fn commands_without_counts() {
    assert_eq!(csi(CSI::AuxPortOn), "\x1b[5i");
    assert_eq!(csi(CSI::AuxPortOff), "\x1b[4i");
    assert_eq!(csi(CSI::DeviceStatusReport), "\x1b[6n");
    assert_eq!(csi(CSI::SaveCursorPosition), "\x1b[s");
    assert_eq!(csi(CSI::RestoreCursorPosition), "\x1b[u");
    assert_eq!(csi(CSI::HideCursor), "\x1b[?25l");
    assert_eq!(csi(CSI::ShowCursor), "\x1b[?25h");
}

#[test]
fn debug_form_spells_escape() {
    assert_eq!(CSI::CursorPosition(3, 4).to_debug_string(), "esc[3;4H");
    assert_eq!(CSI::HideCursor.to_debug_string(), "esc[?25l");
}

#[test]
fn renditions_single_digit() {
    assert_eq!(sgr(SGR::Reset), "\x1b[0m");
    assert_eq!(sgr(SGR::Bold), "\x1b[1m");
    assert_eq!(sgr(SGR::Dim), "\x1b[2m");
    assert_eq!(sgr(SGR::Italic), "\x1b[3m");
    assert_eq!(sgr(SGR::Underline), "\x1b[4m");
    assert_eq!(sgr(SGR::SlowBlink), "\x1b[5m");
    assert_eq!(sgr(SGR::RapidBlink), "\x1b[6m");
    assert_eq!(sgr(SGR::Invert), "\x1b[7m");
    assert_eq!(sgr(SGR::Hide), "\x1b[8m");
    assert_eq!(sgr(SGR::Strike), "\x1b[9m");
}

#[test]
fn renditions_two_digits() {
    assert_eq!(sgr(SGR::DefaultFont), "\x1b[10m");
    assert_eq!(sgr(SGR::SetAlternativeFont(3)), "\x1b[13m");
    assert_eq!(sgr(SGR::Fraktur), "\x1b[20m");
    assert_eq!(sgr(SGR::DoublyUnderlined), "\x1b[21m");
    assert_eq!(sgr(SGR::NormalIntensity), "\x1b[22m");
    assert_eq!(sgr(SGR::NeitherItalicNorBlackletter), "\x1b[23m");
    assert_eq!(sgr(SGR::NotUnderlined), "\x1b[24m");
    assert_eq!(sgr(SGR::NotBlinking), "\x1b[25m");
    assert_eq!(sgr(SGR::ProportionalSpacing), "\x1b[26m");
    assert_eq!(sgr(SGR::NotReversed), "\x1b[27m");
    assert_eq!(sgr(SGR::Reveal), "\x1b[28m");
    assert_eq!(sgr(SGR::NotCrossedOut), "\x1b[29m");
    assert_eq!(sgr(SGR::DefaultForegroundColor), "\x1b[39m");
    assert_eq!(sgr(SGR::DefaultBackgroundColor), "\x1b[49m");
    assert_eq!(sgr(SGR::DisableProportionalSpacing), "\x1b[50m");
    assert_eq!(sgr(SGR::Framed), "\x1b[51m");
    assert_eq!(sgr(SGR::Encircled), "\x1b[52m");
    assert_eq!(sgr(SGR::Overlined), "\x1b[53m");
    assert_eq!(sgr(SGR::NeitherFramedNorEncircled), "\x1b[54m");
    assert_eq!(sgr(SGR::NotOverlined), "\x1b[55m");
    assert_eq!(sgr(SGR::SetUnderlineColor), "\x1b[58m");
    assert_eq!(sgr(SGR::DefaultUnderlineColor), "\x1b[59m");
}

#[test]
fn rendition_colors() {
    assert_eq!(sgr(SGR::SetForegroundColor(TerminalColor::Black)), "\x1b[30m");
    assert_eq!(sgr(SGR::SetForegroundColor(TerminalColor::White)), "\x1b[37m");
    assert_eq!(sgr(SGR::SetBackgroundColor(TerminalColor::Red)), "\x1b[41m");
    assert_eq!(sgr(SGR::SetBackgroundColor(TerminalColor::Cyan)), "\x1b[46m");
    assert_eq!(sgr(SGR::SetBrightForegroundColor(TerminalColor::Green)), "\x1b[92m");
    assert_eq!(sgr(SGR::SetBrightBackgroundColor(TerminalColor::Magenta)), "\x1b[105m");
    assert_eq!(sgr(SGR::SetBrightBackgroundColor(TerminalColor::White)), "\x1b[107m");
}

#[test]
fn rendition_rgb() {
    assert_eq!(
        sgr(SGR::SetForegroundColorRGB { r: 83, g: 134, b: 66 }),
        "\x1b[38;2;83;134;66m"
    );
    assert_eq!(
        sgr(SGR::SetBackgroundColorRGB { r: 0, g: 255, b: 9 }),
        "\x1b[48;2;0;255;9m"
    );
}

#[test]
fn indices_of_colors_and_options() {
    assert_eq!(TerminalColor::Black.index(), 0);
    assert_eq!(TerminalColor::Yellow.index(), 3);
    assert_eq!(TerminalColor::White.index(), 7);
    assert_eq!(EraseOption::CursorToEnd.index(), 0);
    assert_eq!(EraseOption::All.index(), 2);
}

#[test]
fn control_characters() {
    assert_eq!(ControlCharacters::Bell.to_char(), '\x07');
    assert_eq!(ControlCharacters::Backspace.to_char(), '\x08');
    assert_eq!(ControlCharacters::Tab.to_char(), '\t');
    assert_eq!(ControlCharacters::LineFeed.to_char(), '\n');
    assert_eq!(ControlCharacters::FormFeed.to_char(), '\x0c');
    assert_eq!(ControlCharacters::CarriageReturn.to_char(), '\r');
    assert_eq!(ControlCharacters::Escape.to_string(), "\x1b");
}
