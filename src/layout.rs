//! Where each component sits on a screen of a given size.
use vstd::prelude::*;

use crate::component::border::BorderComponent;
use crate::component::game_over::{GAME_OVER_HEIGHT, GAME_OVER_WIDTH};
use crate::component::{Boundary, Dimension, Position};
use crate::terminus::screen::{Error, SharedScreen};
use crate::terminus::sink::Sink;
use crate::terminus::style::{Color, Style, StyleProperty};

verus! {

/// Room the timer takes at the right of the top row.
pub const TIMER_WIDTH: u16 = 12;

#[derive(Debug)]
pub enum LayoutError {
    /// The screen failed.
    Screen(Error),
    /// The terminal is too small for the layout.
    TerminalTooSmall,
}

/// The application's border: from column 1 of row 2 to the bottom right
/// corner. `None` when the screen is narrower than 2 or lower than 3.
pub fn border_boundary(size: Dimension) -> (r: Option<Boundary>)
    ensures
        match r {
            Some(b) => size.width >= 2 && size.height >= 3 && b@ == (
                Position { x: 1, y: 2 },
                Dimension { width: size.width, height: (size.height - 1) as u16 },
            ),
            None => size.width < 2 || size.height < 3,
        },
{
    if size.width < 2 || size.height < 3 {
        return None;
    }
    Some(
        Boundary::new(Position::new(1, 2), Dimension::new(size.width, size.height - 1)),
    )
}

/// The game board: inside the border, from column 2 of row 3.
pub fn get_game_board_boundary(screen_dimension: Dimension) -> (r: Boundary)
    requires
        screen_dimension.width >= 3,
        screen_dimension.height >= 4,
    ensures
        r@ == (
            Position { x: 2, y: 3 },
            Dimension {
                width: (screen_dimension.width - 2) as u16,
                height: (screen_dimension.height - 3) as u16,
            },
        ),
{
    Boundary::new(
        Position::new(2, 3),
        Dimension::new(screen_dimension.width - 2, screen_dimension.height - 3),
    )
}

/// The game board for a screen of `size`; `None` when the screen is
/// narrower than 3 or lower than 4.
pub fn game_board_boundary(size: Dimension) -> (r: Option<Boundary>)
    ensures
        match r {
            Some(b) => size.width >= 3 && size.height >= 4 && b@ == (
                Position { x: 2, y: 3 },
                Dimension { width: (size.width - 2) as u16, height: (size.height - 3) as u16 },
            ),
            None => size.width < 3 || size.height < 4,
        },
{
    if size.width < 3 || size.height < 4 {
        None
    } else {
        Some(get_game_board_boundary(size))
    }
}

/// The timer's place: the end of the top row. `None` when the screen is
/// narrower than the timer.
pub fn timer_position(size: Dimension) -> (r: Option<Position>)
    ensures
        match r {
            Some(p) => size.width >= TIMER_WIDTH && p == Position {
                x: (size.width - TIMER_WIDTH) as u16,
                y: 1,
            },
            None => size.width < TIMER_WIDTH,
        },
{
    if size.width < TIMER_WIDTH {
        None
    } else {
        Some(Position::new(size.width - TIMER_WIDTH, 1))
    }
}

/// The banner's top left corner, centring it. `None` when the screen is
/// smaller than the banner.
pub fn game_over_position(size: Dimension) -> (r: Option<Position>)
    ensures
        match r {
            Some(p) => size.width >= GAME_OVER_WIDTH && size.height >= GAME_OVER_HEIGHT && p
                == Position {
                x: ((size.width - GAME_OVER_WIDTH) / 2) as u16,
                y: ((size.height - GAME_OVER_HEIGHT) / 2) as u16,
            },
            None => size.width < GAME_OVER_WIDTH || size.height < GAME_OVER_HEIGHT,
        },
{
    if size.width < GAME_OVER_WIDTH || size.height < GAME_OVER_HEIGHT {
        None
    } else {
        Some(
            Position::new(
                (size.width - GAME_OVER_WIDTH) / 2,
                (size.height - GAME_OVER_HEIGHT) / 2,
            ),
        )
    }
}

/// The size of the screen behind `screen`, as a dimension.
pub fn screen_dimension<T: Sink>(screen: &SharedScreen<T>) -> (r: Result<Dimension, Error>)
    ensures
        r matches Ok(d) ==> d.width > 0 && d.height > 0,
{
    let guard = match screen.lock() {
        Ok(g) => g,
        Err(e) => return Err(e),
    };
    let size = guard.screen().try_size();
    guard.release();
    match size {
        Ok((width, height)) => Ok(Dimension::new(width, height)),
        Err(e) => Err(e),
    }
}

/// The border round the whole application, in white, drawn at once.
pub fn create_application_border<T: Sink>(screen: SharedScreen<T>) -> (r: Result<
    BorderComponent<T>,
    LayoutError,
>) {
    let size = match screen_dimension(&screen) {
        Ok(d) => d,
        Err(e) => return Err(LayoutError::Screen(e)),
    };
    let boundary = match border_boundary(size) {
        Some(b) => b,
        None => return Err(LayoutError::TerminalTooSmall),
    };
    let mut style = Style::new();
    style.add_property(StyleProperty::Color(Color::RGB(255, 255, 255)));
    let border = BorderComponent::new(screen, boundary, style);
    match border.render() {
        Ok(()) => Ok(border),
        Err(e) => Err(LayoutError::Screen(e)),
    }
}

} // verus!
