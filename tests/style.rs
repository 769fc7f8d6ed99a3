use snake_in_terminal::terminus::style::{Color, Style, StyleProperty};

const RED: &str = "\x1b[31m";
const BLUE: &str = "\x1b[34m";
const BOLD: &str = "\x1b[1m";

#[test]
fn later_color_replaces_earlier() {
    let mut style = Style::from([StyleProperty::Bold, StyleProperty::Color(Color::Red)]);
    style.add_property(StyleProperty::Color(Color::Blue));
    let seq = style.ansi_sequence();
    assert!(seq.contains(BLUE));
    assert!(!seq.contains(RED));
    assert_eq!(seq.matches(BOLD).count(), 1);
    assert_eq!(seq, format!("{BLUE}{BOLD}"));
}

#[test]
fn later_color_replaces_earlier_in_any_order() {
    let mut style = Style::new();
    style
        .add_property(StyleProperty::Color(Color::Red))
        .add_property(StyleProperty::Bold)
        .add_property(StyleProperty::Color(Color::Blue));
    let seq = style.ansi_sequence();
    assert!(seq.contains(BLUE));
    assert!(!seq.contains(RED));
    assert_eq!(seq.matches(BOLD).count(), 1);
}

#[test]
fn adding_order_does_not_matter() {
    let mut a = Style::new();
    a.add_property(StyleProperty::Bold);
    a.add_property(StyleProperty::Color(Color::Green));
    let mut b = Style::new();
    b.add_property(StyleProperty::Color(Color::Green));
    b.add_property(StyleProperty::Bold);
    assert_eq!(a.ansi_sequence(), b.ansi_sequence());
}

#[test]
fn prettify_wraps_text() {
    let style = Style::from([StyleProperty::Dim, StyleProperty::Underline]);
    assert_eq!(style.prettify("x"), format!("{}x{}", style.ansi_sequence(), Style::RESET));
    assert_eq!(style.prettify("x"), "\x1b[2m\x1b[4mx\x1b[0m");
    assert_eq!(style.prettify(""), "\x1b[2m\x1b[4m\x1b[0m");
}

#[test]
fn prettifier_matches_prettify() {
    let style = Style::from(&[StyleProperty::Italic]);
    let f = style.prettifier();
    assert_eq!(f("Score"), style.prettify("Score"));
    assert_eq!(f("Score"), "\x1b[3mScore\x1b[0m");
}

#[test]
fn empty_style_renders_nothing() {
    let style = Style::new();
    assert_eq!(style.ansi_sequence(), "");
    assert_eq!(style.prettify("abc"), "abc\x1b[0m");
}

#[test]
fn reset_constant() {
    assert_eq!(Style::RESET, "\x1b[0m");
}

#[test]
fn underline_kinds_share_a_category() {
    let mut style = Style::from([StyleProperty::Underline]);
    style.add_property(StyleProperty::DoublyUnderline);
    assert!(style.is(StyleProperty::DoublyUnderline));
    assert!(!style.is(StyleProperty::Underline));
    assert_eq!(style.ansi_sequence(), "\x1b[21m");
}

#[test]
fn is_checks_value_not_only_category() {
    let style = Style::from([StyleProperty::Color(Color::Red)]);
    assert!(style.is(StyleProperty::Color(Color::Red)));
    assert!(!style.is(StyleProperty::Color(Color::Blue)));
    assert!(!style.is(StyleProperty::Bold));
}

#[test]
fn remove_deletes_the_category() {
    let mut style = Style::from([
        StyleProperty::Bold,
        StyleProperty::Color(Color::Red),
        StyleProperty::BackgroundColor(Color::Gray),
    ]);
    style.remove_property(StyleProperty::Color(Color::Cyan));
    assert!(!style.is(StyleProperty::Color(Color::Red)));
    assert_eq!(style.ansi_sequence(), "\x1b[100m\x1b[1m");
    style.remove_properties(&[StyleProperty::Bold, StyleProperty::BackgroundColor(Color::Red)]);
    assert_eq!(style.ansi_sequence(), "");
}

#[test]
fn add_properties_keeps_the_last_of_a_category() {
    let mut style = Style::new();
    style.add_properties(&[
        StyleProperty::Color(Color::Red),
        StyleProperty::Color(Color::BrightWhite),
        StyleProperty::Blinking,
    ]);
    assert_eq!(style.ansi_sequence(), "\x1b[97m\x1b[5m");
}

#[test]
fn every_category_in_order() {
    let style = Style::from([
        StyleProperty::Invert,
        StyleProperty::Hidden,
        StyleProperty::Blinking,
        StyleProperty::Underline,
        StyleProperty::Dim,
        StyleProperty::Strike,
        StyleProperty::Italic,
        StyleProperty::Bold,
        StyleProperty::BackgroundColor(Color::RGB(1, 2, 3)),
        StyleProperty::Color(Color::RGB(235, 35, 55)),
    ]);
    assert_eq!(
        style.ansi_sequence(),
        "\x1b[38;2;235;35;55m\x1b[48;2;1;2;3m\x1b[1m\x1b[3m\x1b[9m\x1b[2m\x1b[4m\x1b[5m\x1b[8m\x1b[7m"
    );
}

#[test]
fn property_sequences() {
    assert_eq!(StyleProperty::Color(Color::Gray).to_string(), "\x1b[90m");
    assert_eq!(StyleProperty::BackgroundColor(Color::Yellow).to_string(), "\x1b[43m");
    assert_eq!(StyleProperty::BackgroundColor(Color::BrightBlue).to_string(), "\x1b[104m");
    assert_eq!(StyleProperty::Color(Color::Magenta).to_string(), "\x1b[35m");
    assert_eq!(StyleProperty::Strike.id(), 4);
    assert_eq!(StyleProperty::DoublyUnderline.id(), 6);
}

#[test]
fn copy_of_a_style() {
    let style = Style::from([StyleProperty::Bold]);
    let copy = Style::from(&style);
    assert_eq!(copy.ansi_sequence(), style.ansi_sequence());
}
