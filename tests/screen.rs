use snake_in_terminal::terminus::cursor::Cursor;
use snake_in_terminal::terminus::screen::{Error, Screen, SharedScreen};
use snake_in_terminal::terminus::sink::Sink;

struct Broken;

impl Sink for Broken {
    fn write_all(&mut self, _bytes: &[u8]) -> std::io::Result<()> {
        Err(std::io::Error::new(std::io::ErrorKind::BrokenPipe, "closed"))
    }

    fn flush(&mut self) -> std::io::Result<()> {
        Ok(())
    }
}

fn text(bytes: &[u8]) -> String {
    String::from_utf8(bytes.to_vec()).unwrap()
}

fn captured(screen: &Screen<Vec<u8>>) -> String {
    text(screen.sink())
}

#[test]
fn clear_erases_then_homes() {
    let mut screen = Screen::new(Vec::new);
    screen.clear_screen().unwrap();
    assert_eq!(captured(&screen), "\x1b[2J\x1b[1;1H");
}

#[test]
fn erase_homes_then_erases_to_end() {
    let mut screen = Screen::new(Vec::new);
    screen.erase_screen().unwrap();
    assert_eq!(captured(&screen), "\x1b[1;1H\x1b[0J");
}

#[test]
fn cursor_commands() {
    let mut cursor = Cursor::from(Vec::new);
    cursor.hide_cursor().unwrap();
    cursor.show().unwrap();
    cursor.save_position().unwrap();
    cursor.restore_position().unwrap();
    cursor.move_to(4, 9).unwrap();
    cursor.move_up(1).unwrap();
    cursor.move_down(2).unwrap();
    cursor.move_left(3).unwrap();
    cursor.move_right(4).unwrap();
    cursor.move_horizontally(5).unwrap();
    cursor.move_to_n_previous_line(6).unwrap();
    cursor.move_to_n_next_line(7).unwrap();
    assert_eq!(
        text(cursor.sink()),
        "\x1b[?25l\x1b[?25h\x1b[s\x1b[u\x1b[9;4H\x1b[1A\x1b[2B\x1b[3D\x1b[4C\x1b[5G\x1b[6F\x1b[7E"
    );
}

#[test]
fn screen_writes_text() {
    let mut screen = Screen::new(Vec::new);
    screen.write_str("ab").unwrap();
    screen.writeln().unwrap();
    screen.writeln_str("cd").unwrap();
    screen.write_char('╭').unwrap();
    screen.write_char('z').unwrap();
    assert_eq!(captured(&screen), "ab\ncd\n╭z");
}

#[test]
fn screen_scrolls() {
    let mut screen = Screen::new(Vec::new);
    screen.scroll_up(3).unwrap();
    screen.scroll_down(2).unwrap();
    screen.scroll_to_bottom_of(40).unwrap();
    assert_eq!(captured(&screen), "\x1b[3S\x1b[2T\x1b[40T\x1b[40;1H");
}

#[test]
fn cursor_of_the_screen_writes_to_its_sink() {
    let mut screen = Screen::new(Vec::new);
    screen.write_str("a").unwrap();
    screen.cursor_mut().move_to(1, 2).unwrap();
    screen.write_str("b").unwrap();
    assert_eq!(captured(&screen), "a\x1b[2;1Hb");
}

#[test]
fn size_discovery_without_a_terminal() {
    assert!(matches!(
        Screen::<Vec<u8>>::try_size_from(None),
        Err(Error::NotATerminal)
    ));
    assert_eq!(Screen::<Vec<u8>>::size_from(None), (0, 0));
    assert_eq!(Screen::<Vec<u8>>::size_from(Some((80, 24))), (80, 24));
    assert!(matches!(
        Screen::<Vec<u8>>::try_size_from(Some((80, 24))),
        Ok((80, 24))
    ));
}

#[test]
fn size_is_zero_or_positive_in_both() {
    let screen = Screen::new(Vec::new);
    let (w, h) = screen.size();
    assert_eq!(w == 0, h == 0);
    match screen.try_size() {
        Ok((w, h)) => assert!(w > 0 && h > 0),
        Err(e) => assert!(matches!(e, Error::NotATerminal)),
    }
}

#[test]
fn failed_write_is_reported() {
    let mut cursor = Cursor::from(|| Broken);
    assert!(cursor.move_up(1).is_err());
    let mut screen = Screen::new(|| Broken);
    assert!(screen.clear_screen().is_err());
    assert!(matches!(screen.write_str("x"), Err(Error::IoFailure(_))));
    assert!(matches!(screen.scroll_down(1), Err(Error::IoFailure(_))));
}

#[test]
fn lock_fails_when_save_fails() {
    let shared = SharedScreen::new(Screen::new(|| Broken));
    assert!(matches!(shared.lock(), Err(Error::IoFailure(_))));
}

#[test]
fn guard_saves_and_restores_around_moves() {
    let shared = SharedScreen::new(Screen::new(Vec::new));
    let mut guard = shared.lock().ok().unwrap();
    guard.cursor_mut().move_to(3, 4).unwrap();
    guard.cursor_mut().move_up(1).unwrap();
    guard.cursor_mut().move_right(2).unwrap();
    guard.release();
    let guard = shared.lock().ok().unwrap();
    assert_eq!(
        captured(guard.screen()),
        "\x1b[s\x1b[4;3H\x1b[1A\x1b[2C\x1b[u\x1b[s"
    );
    guard.release();
}

#[test]
fn transactions_do_not_interleave() {
    let shared = SharedScreen::new(Screen::new(Vec::new));
    let other = shared.clone();

    let mut a = shared.lock().ok().unwrap();
    a.cursor_mut().move_to(5, 5).unwrap();
    a.screen_mut().write_str("AAA").unwrap();
    a.release();

    let mut b = other.lock().ok().unwrap();
    b.cursor_mut().move_to(10, 10).unwrap();
    b.screen_mut().write_str("BBB").unwrap();
    b.release();

    let guard = shared.lock().ok().unwrap();
    let all = captured(guard.screen());
    let run_a = "\x1b[s\x1b[5;5HAAA\x1b[u";
    let run_b = "\x1b[s\x1b[10;10HBBB\x1b[u";
    assert_eq!(all, format!("{run_a}{run_b}\x1b[s"));
    guard.release();
}

#[test]
fn clones_share_one_screen() {
    let shared = SharedScreen::new(Screen::new(Vec::new));
    let other = shared.clone();
    let mut g = other.lock().ok().unwrap();
    g.screen_mut().write_str("x").unwrap();
    g.release();
    let g = shared.lock().ok().unwrap();
    assert_eq!(captured(g.screen()), "\x1b[sx\x1b[u\x1b[s");
    g.release();
}

#[test]
fn screen_lost_by_a_holder_is_unavailable() {
    let shared = SharedScreen::new(Screen::new(Vec::new));
    let g = shared.lock().ok().unwrap();
    drop(g);
    assert!(matches!(shared.lock(), Err(Error::LockUnavailable)));
}
