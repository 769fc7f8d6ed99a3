use snake_in_terminal::component::apple::{draw_styled_text, AppleComponent};
use snake_in_terminal::component::border::{draw_frame, repeat_char, BorderComponent, Frame};
use snake_in_terminal::component::game_board::GameBoardComponent;
use snake_in_terminal::component::game_over::{draw_banner, game_over_line, GameOverComponent};
use snake_in_terminal::component::score::{score_label, ScoreComponent};
use snake_in_terminal::component::snake::{draw_snake, Direction, Snake, SnakeNode};
use snake_in_terminal::component::timer::{timer_label, TimerComponent};
use snake_in_terminal::component::{Boundary, Dimension, Position};
use snake_in_terminal::game_input::GameInput;
use snake_in_terminal::layout::{
    border_boundary, game_board_boundary, game_over_position, get_game_board_boundary,
    timer_position,
};
use snake_in_terminal::terminus::screen::{Screen, SharedScreen};
use snake_in_terminal::terminus::style::{Color, Style, StyleProperty};

fn captured(screen: &Screen<Vec<u8>>) -> String {
    String::from_utf8(screen.sink().clone()).unwrap()
}

fn shared_output(shared: &SharedScreen<Vec<u8>>) -> String {
    let g = shared.lock().ok().unwrap();
    let s = captured(g.screen());
    g.release();
    s
}

fn node(x: u16, y: u16, direction: Direction) -> SnakeNode {
    SnakeNode::new(Position::new(x, y), direction)
}

#[test]
fn boundary_inclusive_edges() {
    let b = Boundary::new(Position::new(2, 3), Dimension::new(5, 4));
    assert!(b.is_inside(Position::new(2, 3)));
    assert!(b.is_inside(Position::new(6, 6)));
    assert!(!b.is_inside(Position::new(7, 3)));
    assert!(!b.is_inside(Position::new(2, 7)));
    assert!(!b.is_inside(Position::new(1, 3)));
    assert!(!b.is_inside(Position::new(2, 2)));
    assert_eq!((b.left(), b.top(), b.right(), b.bottom()), (2, 3, 6, 6));
    assert_eq!(b.position(), Position::new(2, 3));
    assert_eq!(b.dimension(), Dimension::new(5, 4));
}

#[test]
fn boundary_of_one_cell() {
    let b = Boundary::new(Position::new(0, 0), Dimension::new(1, 1));
    assert!(b.is_inside(Position::new(0, 0)));
    assert!(!b.is_inside(Position::new(1, 0)));
    assert_eq!((b.right(), b.bottom()), (0, 0));
}

#[test]
fn positions_add_and_convert() {
    assert_eq!(Position::new(1, 2).add(Position::new(3, 4)), Position::new(4, 6));
    assert_eq!(Position::from((7, 8)), Position { x: 7, y: 8 });
    assert_eq!(Dimension::from((9, 10)), Dimension { width: 9, height: 10 });
}

#[test]
fn random_position_stays_inside() {
    let d = Dimension::new(3, 2);
    for _ in 0..200 {
        let p = d.get_random_position_inside();
        assert!(p.x < 3 && p.y < 2);
    }
    let one = Dimension::new(1, 1);
    assert_eq!(one.get_random_position_inside(), Position::new(0, 0));
}

#[test]
fn new_snake_stretches_right() {
    let snake = Snake::new(node(5, 7, Direction::Right), 3);
    assert_eq!(*snake.head(), node(8, 7, Direction::Right));
    assert_eq!(*snake.tail(), node(5, 7, Direction::Right));
    assert!(!snake.is_biting_itself());
    assert_eq!(snake.get_next_position(), Position::new(9, 7));
}

#[test]
fn snake_moves_and_grows() {
    let mut snake = Snake::new(node(5, 7, Direction::Right), 2);
    assert_eq!(snake.move_forward(), Some(node(5, 7, Direction::Right)));
    assert_eq!(*snake.head(), node(8, 7, Direction::Right));
    assert_eq!(*snake.tail(), node(6, 7, Direction::Right));
    snake.eat();
    assert_eq!(*snake.tail(), node(5, 7, Direction::Right));
    assert!(snake.change_direction(Direction::Down));
    assert_eq!(snake.get_next_position(), Position::new(8, 8));
    snake.move_forward();
    assert_eq!(*snake.head(), node(8, 8, Direction::Down));
}

#[test]
fn snake_cannot_turn_back() {
    let mut snake = Snake::new(node(5, 7, Direction::Right), 2);
    assert!(!snake.change_direction(Direction::Left));
    assert_eq!(snake.get_next_position(), Position::new(8, 7));
    assert!(snake.change_direction(Direction::Up));
    assert!(snake.change_direction(Direction::Right));
}

#[test]
fn snake_bites_itself_after_a_loop() {
    let mut snake = Snake::new(node(5, 5, Direction::Right), 4);
    snake.change_direction(Direction::Down);
    snake.move_forward();
    snake.change_direction(Direction::Left);
    snake.move_forward();
    assert!(!snake.is_biting_itself());
    snake.change_direction(Direction::Up);
    snake.move_forward();
    assert!(snake.is_biting_itself());
}

#[test]
fn snake_can_grow_and_next_fits() {
    let snake = Snake::new(node(0, 0, Direction::Right), 1);
    assert!(!snake.can_grow());
    assert!(snake.next_fits());
    let mut up = Snake::new(node(3, 0, Direction::Right), 1);
    up.change_direction(Direction::Up);
    assert!(!up.next_fits());
}

#[test]
fn snake_drawing() {
    let mut screen = Screen::new(Vec::new);
    let mut snake = Snake::new(node(1, 1, Direction::Right), 2);
    snake.change_direction(Direction::Down);
    snake.move_forward();
    let head = Style::from([StyleProperty::Bold]);
    let body = Style::from([StyleProperty::Dim]);
    draw_snake(&mut screen, &snake, &head, &body).ok().unwrap();
    assert_eq!(
        captured(&screen),
        "\x1b[2;3H\x1b[1m║\x1b[1;3H\x1b[2m╗\x1b[1;2H╼\x1b[0m"
    );
}

#[test]
fn styled_text_and_frame() {
    let mut screen = Screen::new(Vec::new);
    let style = Style::from([StyleProperty::Color(Color::Red)]);
    draw_styled_text(&mut screen, Position::new(4, 2), &style, "hi").ok().unwrap();
    assert_eq!(captured(&screen), "\x1b[2;4H\x1b[31mhi\x1b[0m");

    let mut screen = Screen::new(Vec::new);
    let frame = Frame {
        top_left: 'a',
        top_right: 'b',
        bottom_right: 'c',
        bottom_left: 'd',
        top: '-',
        right: '|',
        bottom: '_',
        left: '!',
    };
    let b = Boundary::new(Position::new(1, 1), Dimension::new(4, 3));
    draw_frame(&mut screen, b, &Style::new(), &frame).ok().unwrap();
    assert_eq!(
        captured(&screen),
        "\x1b[1;1Ha--b\x1b[1B|\x1b[1;1H\x1b[1B!\x1b[1D\x1b[1Bd__c\x1b[0m"
    );
}

#[test]
fn repeated_characters() {
    assert_eq!(repeat_char('─', 3), "───");
    assert_eq!(repeat_char('x', 0), "");
}

#[test]
fn labels() {
    assert_eq!(score_label(0), "Score: 0");
    assert_eq!(score_label(1200), "Score: 1200");
    assert_eq!(timer_label(0), "Timer: 00:00");
    assert_eq!(timer_label(75), "Timer: 01:15");
    assert_eq!(timer_label(6000), "Timer: 100:00");
}

#[test]
fn banner_lines_are_as_wide_as_the_banner() {
    for i in 0..8 {
        assert_eq!(game_over_line(i).chars().count(), 74);
    }
    assert!(game_over_line(7).contains("Press q to quit game!"));
    let mut screen = Screen::new(Vec::new);
    draw_banner(&mut screen, Position::new(3, 5)).ok().unwrap();
    let out = captured(&screen);
    assert!(out.starts_with("\x1b[5;3H ██████╗"));
    assert!(out.contains("\x1b[12;3H"));
}

#[test]
fn components_draw_on_the_shared_screen() {
    let shared = SharedScreen::new(Screen::new(Vec::new));
    let apple = AppleComponent::new(shared.clone(), Position::new(3, 4)).ok().unwrap();
    assert_eq!(apple.position(), Position::new(3, 4));
    apple.erase().ok().unwrap();
    let mut score = ScoreComponent::try_new(shared.clone(), Position::new(1, 1)).ok().unwrap();
    score.add(100).ok().unwrap();
    assert_eq!(score.score(), 100);
    let out = shared_output(&shared);
    assert_eq!(
        out,
        "\x1b[s\x1b[4;3H\x1b[38;2;235;35;55m\x1b[1m▄\x1b[0m\x1b[u\
         \x1b[s\x1b[4;3H \x1b[u\
         \x1b[s\x1b[1;1H\x1b[2mScore: 0\x1b[0m\x1b[u\
         \x1b[s\x1b[1;1H\x1b[2mScore: 100\x1b[0m\x1b[u\
         \x1b[s"
    );
}

#[test]
fn border_and_banner_components() {
    let shared = SharedScreen::new(Screen::new(Vec::new));
    let border = BorderComponent::new(
        shared.clone(),
        Boundary::new(Position::new(1, 1), Dimension::new(3, 2)),
        Style::new(),
    );
    border.render().ok().unwrap();
    border.erase().ok().unwrap();
    let out = shared_output(&shared);
    assert!(out.starts_with("\x1b[s\x1b[1;1H╭─╮\x1b[1;1H\x1b[1B╰─╯\x1b[0m\x1b[u"));
    assert!(out.contains("\x1b[1;1H   \x1b[1;1H\x1b[1B   \x1b[0m"));

    let banner = GameOverComponent::new(shared.clone(), Position::new(0, 0));
    assert_eq!(banner.position(), Position::new(0, 0));
    banner.render().ok().unwrap();
    banner.erase().ok().unwrap();
    assert!(shared_output(&shared).contains(&format!("\x1b[7;0H{}", " ".repeat(74))));
}

#[test]
fn timer_counts_and_draws() {
    let shared = SharedScreen::new(Screen::new(Vec::new));
    let mut timer = TimerComponent::new(shared.clone(), Position::new(10, 1));
    assert_eq!(timer.text(), "Timer: 00:00");
    timer.tick().ok().unwrap();
    assert_eq!(timer.seconds(), 1);
    timer.erase().ok().unwrap();
    let out = shared_output(&shared);
    assert!(out.contains("\x1b[1;10H\x1b[2mTimer: 00:01\x1b[0m"));
    assert!(out.contains("\x1b[1;10H            \x1b[u"));
}

#[test]
fn game_board_plays() {
    let shared = SharedScreen::new(Screen::new(Vec::new));
    let boundary = Boundary::new(Position::new(2, 3), Dimension::new(30, 10));
    let mut board = GameBoardComponent::new(shared.clone(), boundary).ok().unwrap();
    assert!(boundary.is_inside(board.apple().position()));
    assert_eq!(board.score().score(), 0);
    assert_eq!(*board.snake_component().snake().head(), node(12, 3, Direction::Right));
    assert_eq!(board.advance().ok(), Some(true));
    assert_eq!(board.snake_component().snake().head().position(), Position::new(13, 3));
    board.snake_component_mut().snake_mut().change_direction(Direction::Up);
    assert_eq!(board.advance().ok(), Some(false));
    assert_eq!(board.snake_component().snake().head().position(), Position::new(13, 3));
    board.generate_new_apple().ok().unwrap();
    assert!(boundary.is_inside(board.apple().position()));
    assert_eq!(board.boundary().left(), 2);
}

#[test]
fn game_board_snake_eats_the_apple() {
    let shared = SharedScreen::new(Screen::new(Vec::new));
    let boundary = Boundary::new(Position::new(2, 3), Dimension::new(12, 1));
    let mut board = GameBoardComponent::new(shared, boundary).ok().unwrap();
    let head = Position::new(12, 3);
    let mut tries = 0;
    while board.apple().position() != head && tries < 2000 {
        board.generate_new_apple().ok().unwrap();
        tries += 1;
    }
    assert_eq!(board.apple().position(), head);
    assert_eq!(board.advance().ok(), Some(true));
    assert_eq!(board.score().score(), 100);
    assert_eq!(board.snake_component().snake().head().position(), Position::new(13, 3));
    assert_eq!(board.snake_component().snake().tail().position(), Position::new(2, 3));
    assert_eq!(board.advance().ok(), Some(false));
}

#[test]
fn layout_positions() {
    let size = Dimension::new(100, 30);
    let b = border_boundary(size).unwrap();
    assert_eq!((b.position(), b.dimension()), (Position::new(1, 2), Dimension::new(100, 29)));
    assert!(border_boundary(Dimension::new(1, 30)).is_none());
    let g = get_game_board_boundary(size);
    assert_eq!((g.position(), g.dimension()), (Position::new(2, 3), Dimension::new(98, 27)));
    assert!(game_board_boundary(Dimension::new(2, 30)).is_none());
    assert_eq!(timer_position(size), Some(Position::new(88, 1)));
    assert_eq!(timer_position(Dimension::new(11, 5)), None);
    assert_eq!(game_over_position(size), Some(Position::new(13, 11)));
    assert_eq!(game_over_position(Dimension::new(73, 30)), None);
}

#[test]
fn inputs_to_directions() {
    assert_eq!(GameInput::Up.direction(), Some(Direction::Up));
    assert_eq!(GameInput::Down.direction(), Some(Direction::Down));
    assert_eq!(GameInput::Left.direction(), Some(Direction::Left));
    assert_eq!(GameInput::Right.direction(), Some(Direction::Right));
    assert_eq!(GameInput::Quit.direction(), None);
}
