//! The snake: a chain of cells, its head first, each with the direction it
//! was heading when it was added.
use std::collections::VecDeque;
use vstd::prelude::*;
use vstd::utf8::encode_utf8;

use crate::component::apple::{blank_cell, draw_blank_cell};
use crate::component::Position;
use crate::terminus::ansi_escape_sequences::{CSI, SGR};
use crate::terminus::screen::{Error, Screen, SharedScreen};
use crate::terminus::sink::Sink;
use crate::terminus::style::{renditions, reset_text, Color, Style, StyleProperty};

verus! {

#[derive(Debug, Copy, Clone, PartialEq, Eq, Structural)]
pub enum Direction {
    Up,
    Down,
    Left,
    Right,
}

pub open spec fn opposite(d: Direction) -> Direction {
    match d {
        Direction::Up => Direction::Down,
        Direction::Down => Direction::Up,
        Direction::Left => Direction::Right,
        Direction::Right => Direction::Left,
    }
}

/// The cell one step from `p` towards `d`, as integers; `y` grows
/// downwards.
pub open spec fn step_from(p: Position, d: Direction) -> (int, int) {
    match d {
        Direction::Up => (p.x as int, p.y - 1),
        Direction::Down => (p.x as int, p.y + 1),
        Direction::Left => (p.x - 1, p.y as int),
        Direction::Right => (p.x + 1, p.y as int),
    }
}

/// Whether a cell given as integers is a position on the screen.
pub open spec fn fits(c: (int, int)) -> bool {
    0 <= c.0 <= u16::MAX && 0 <= c.1 <= u16::MAX
}

pub open spec fn at(c: (int, int)) -> Position {
    Position { x: c.0 as u16, y: c.1 as u16 }
}

#[derive(Debug, Copy, Clone, PartialEq, Eq, Structural)]
pub struct SnakeNode {
    pub position: Position,
    pub direction: Direction,
}

impl SnakeNode {
    pub fn new(position: Position, direction: Direction) -> (r: Self)
        ensures
            r == (SnakeNode { position, direction }),
    {
        SnakeNode { position, direction }
    }

    pub fn position(&self) -> (r: Position)
        ensures
            r == self.position,
    {
        self.position
    }

    pub fn direction(&self) -> (r: Direction)
        ensures
            r == self.direction,
    {
        self.direction
    }
}

/// The node that a snake with `body` heading `d` grows at its front.
pub open spec fn ahead(body: Seq<SnakeNode>, d: Direction) -> SnakeNode {
    SnakeNode { position: at(step_from(body[0].position, d)), direction: d }
}

/// The node that a snake with `body` grows behind its tail: one cell back
/// from the tail, heading as the tail does.
pub open spec fn behind(body: Seq<SnakeNode>) -> SnakeNode {
    let tail = body.last();
    SnakeNode {
        position: at(step_from(tail.position, opposite(tail.direction))),
        direction: tail.direction,
    }
}

/// A snake whose head is `len` cells to the right of `head`, drawn out to
/// `head`, every added node heading right.
pub open spec fn stretched_right(head: SnakeNode, len: nat) -> Seq<SnakeNode> {
    Seq::new(
        len + 1,
        |i: int|
            if i == len {
                head
            } else {
                SnakeNode {
                    position: Position { x: (head.position.x + len - i) as u16, y: head.position.y },
                    direction: Direction::Right,
                }
            },
    )
}

/// Whether two nodes of `body` share a cell.
pub open spec fn overlaps(body: Seq<SnakeNode>) -> bool {
    exists|i: int, j: int|
        0 <= i < j < body.len() && #[trigger] body[i].position == #[trigger] body[j].position
}

pub struct Snake {
    direction: Direction,
    nodes: VecDeque<SnakeNode>,
}

impl View for Snake {
    /// The heading, and the nodes from head to tail.
    type V = (Direction, Seq<SnakeNode>);

    closed spec fn view(&self) -> (Direction, Seq<SnakeNode>) {
        (self.direction, self.nodes@)
    }
}

impl Snake {
    /// A snake has at least one node.
    pub open spec fn wf(&self) -> bool {
        self@.1.len() > 0
    }

    /// The snake that grows from `head` by `len` steps to the right.
    pub fn new(head: SnakeNode, len: u16) -> (r: Snake)
        requires
            head.position.x + len <= u16::MAX,
        ensures
            r.wf(),
            r@ == (Direction::Right, stretched_right(head, len as nat)),
    {
        let mut nodes: VecDeque<SnakeNode> = VecDeque::new();
        nodes.push_back(head);
        let mut snake = Snake { direction: Direction::Right, nodes };
        let mut i: u16 = 0;
        while i < len
            invariant
                i <= len,
                head.position.x + len <= u16::MAX,
                snake@ == (Direction::Right, stretched_right(head, i as nat)),
            decreases len - i,
        {
            assert(snake@.1[0] == stretched_right(head, i as nat)[0]);
            snake.add_node_at_the_front();
            assert(snake@.1 =~= stretched_right(head, (i + 1) as nat));
            i += 1;
        }
        snake
    }

    /// How many nodes the snake has.
    pub fn len(&self) -> (r: usize)
        ensures
            r == self@.1.len(),
    {
        self.nodes.len()
    }

    pub fn head(&self) -> (r: &SnakeNode)
        requires
            self.wf(),
        ensures
            *r == self@.1[0],
    {
        &self.nodes[0]
    }

    pub fn tail(&self) -> (r: &SnakeNode)
        requires
            self.wf(),
        ensures
            *r == self@.1.last(),
    {
        &self.nodes[self.nodes.len() - 1]
    }

    /// Grows the snake by one node behind its tail.
    pub fn eat(&mut self)
        requires
            old(self).wf(),
            fits(step_from(old(self)@.1.last().position, opposite(old(self)@.1.last().direction))),
        ensures
            final(self).wf(),
            final(self)@ == (old(self)@.0, old(self)@.1.push(behind(old(self)@.1))),
    {
        self.add_node_at_the_back()
    }

    /// Heads the snake towards `direction` unless that is straight back
    /// against its head's direction; tells whether it did.
    pub fn change_direction(&mut self, direction: Direction) -> (r: bool)
        requires
            old(self).wf(),
        ensures
            r == (direction != opposite(old(self)@.1[0].direction)),
            final(self)@ == (if r {
                direction
            } else {
                old(self)@.0
            }, old(self)@.1),
    {
        let head_direction = self.head().direction;
        let has_change = match direction {
            Direction::Up => head_direction != Direction::Down,
            Direction::Down => head_direction != Direction::Up,
            Direction::Left => head_direction != Direction::Right,
            Direction::Right => head_direction != Direction::Left,
        };
        if has_change {
            self.direction = direction;
        }
        has_change
    }

    /// Moves one step: a new head ahead, the tail dropped and handed back.
    pub fn move_forward(&mut self) -> (r: Option<SnakeNode>)
        requires
            old(self).wf(),
            fits(step_from(old(self)@.1[0].position, old(self)@.0)),
        ensures
            final(self).wf(),
            final(self)@ == (old(self)@.0, seq![ahead(old(self)@.1, old(self)@.0)] + old(
                self,
            )@.1.drop_last()),
            r == Some(old(self)@.1.last()),
    {
        self.add_node_at_the_front();
        let r = self.nodes.pop_back();
        assert(self@.1 =~= seq![ahead(old(self)@.1, old(self)@.0)] + old(self)@.1.drop_last());
        r
    }

    /// Whether two of the snake's nodes share a cell.
    pub fn is_biting_itself(&self) -> (r: bool)
        ensures
            r == overlaps(self@.1),
    {
        let n = self.nodes.len();
        let mut j: usize = 1;
        while j < n
            invariant
                n == self@.1.len(),
                forall|a: int, b: int|
                    0 <= a < b < j && b < n ==> #[trigger] self@.1[a].position != #[trigger] self@.1[b].position,
            decreases n - j,
        {
            let mut i: usize = 0;
            while i < j
                invariant
                    i <= j < n,
                    n == self@.1.len(),
                    forall|a: int| 0 <= a < i ==> #[trigger] self@.1[a].position != self@.1[j as int].position,
                decreases j - i,
            {
                if self.nodes[i].position == self.nodes[j].position {
                    assert(self@.1[i as int].position == self@.1[j as int].position);
                    return true;
                }
                i += 1;
            }
            j += 1;
        }
        false
    }

    /// Whether the cell ahead of the head is on the screen.
    pub fn next_fits(&self) -> (r: bool)
        requires
            self.wf(),
        ensures
            r == fits(step_from(self@.1[0].position, self@.0)),
    {
        let p = self.head().position;
        match self.direction {
            Direction::Up => p.y > 0,
            Direction::Down => p.y < u16::MAX,
            Direction::Left => p.x > 0,
            Direction::Right => p.x < u16::MAX,
        }
    }

    /// Whether the cell behind the tail is on the screen.
    pub fn can_grow(&self) -> (r: bool)
        requires
            self.wf(),
        ensures
            r == fits(step_from(self@.1.last().position, opposite(self@.1.last().direction))),
    {
        let tail = self.tail();
        match tail.direction {
            Direction::Up => tail.position.y < u16::MAX,
            Direction::Down => tail.position.y > 0,
            Direction::Left => tail.position.x < u16::MAX,
            Direction::Right => tail.position.x > 0,
        }
    }

    /// The cell that the head moves to next.
    pub fn get_next_position(&self) -> (r: Position)
        requires
            self.wf(),
            fits(step_from(self@.1[0].position, self@.0)),
        ensures
            r == at(step_from(self@.1[0].position, self@.0)),
    {
        let mut position = self.head().position;
        match self.direction {
            Direction::Up => position.y = position.y - 1,
            Direction::Down => position.y = position.y + 1,
            Direction::Left => position.x = position.x - 1,
            Direction::Right => position.x = position.x + 1,
        }
        position
    }

    fn add_node_at_the_front(&mut self)
        requires
            old(self).wf(),
            fits(step_from(old(self)@.1[0].position, old(self)@.0)),
        ensures
            final(self)@ == (old(self)@.0, seq![ahead(old(self)@.1, old(self)@.0)] + old(self)@.1),
    {
        let next = SnakeNode::new(self.get_next_position(), self.direction);
        self.nodes.push_front(next);
        assert(self@.1 =~= seq![ahead(old(self)@.1, old(self)@.0)] + old(self)@.1);
    }

    fn add_node_at_the_back(&mut self)
        requires
            old(self).wf(),
            fits(step_from(old(self)@.1.last().position, opposite(old(self)@.1.last().direction))),
        ensures
            final(self)@ == (old(self)@.0, old(self)@.1.push(behind(old(self)@.1))),
    {
        let mut position = self.tail().position;
        let direction = self.tail().direction;
        match direction {
            Direction::Up => position.y = position.y + 1,
            Direction::Down => position.y = position.y - 1,
            Direction::Left => position.x = position.x + 1,
            Direction::Right => position.x = position.x - 1,
        }
        self.nodes.push_back(SnakeNode::new(position, direction));
    }
}

/// The glyph of the tail, pointing along the direction of the node before
/// it.
pub open spec fn tail_glyph(d: Direction) -> char {
    match d {
        Direction::Up => '╿',
        Direction::Down => '╽',
        Direction::Left => '╾',
        Direction::Right => '╼',
    }
}

/// The glyph of a body node heading `d` behind a node heading `prev`: a
/// straight piece, or a corner where the two differ.
pub open spec fn body_glyph(d: Direction, prev: Direction) -> char {
    match (d, prev) {
        (Direction::Up, Direction::Up) | (Direction::Up, Direction::Down) | (
            Direction::Down,
            Direction::Up,
        ) | (Direction::Down, Direction::Down) => '║',
        (Direction::Left, Direction::Left) | (Direction::Left, Direction::Right) | (
            Direction::Right,
            Direction::Left,
        ) | (Direction::Right, Direction::Right) => '═',
        (Direction::Up, Direction::Left) | (Direction::Right, Direction::Down) => '╗',
        (Direction::Up, Direction::Right) | (Direction::Left, Direction::Down) => '╔',
        (Direction::Down, Direction::Left) | (Direction::Right, Direction::Up) => '╝',
        (Direction::Down, Direction::Right) | (Direction::Left, Direction::Up) => '╚',
    }
}

fn tail_glyph_of(d: Direction) -> (r: char)
    ensures
        r == tail_glyph(d),
{
    match d {
        Direction::Up => '╿',
        Direction::Down => '╽',
        Direction::Left => '╾',
        Direction::Right => '╼',
    }
}

fn body_glyph_of(d: Direction, prev: Direction) -> (r: char)
    ensures
        r == body_glyph(d, prev),
{
    match (d, prev) {
        (Direction::Up | Direction::Down, Direction::Up | Direction::Down) => '║',
        (Direction::Left | Direction::Right, Direction::Left | Direction::Right) => '═',
        (Direction::Up, Direction::Left) | (Direction::Right, Direction::Down) => '╗',
        (Direction::Up, Direction::Right) | (Direction::Left, Direction::Down) => '╔',
        (Direction::Down, Direction::Left) | (Direction::Right, Direction::Up) => '╝',
        (Direction::Down, Direction::Right) | (Direction::Left, Direction::Up) => '╚',
    }
}

/// The direction of the node before node `i`; the head's own for the head.
pub open spec fn previous_direction(nodes: Seq<SnakeNode>, i: int) -> Direction {
    if i == 0 {
        nodes[0].direction
    } else {
        nodes[i - 1].direction
    }
}

/// What drawing node `i` sends: a move to its cell; the head's style before
/// the head and the body's style before the next node; the tail's glyph and
/// the reset sequence for the last node, the body glyph for any other.
pub open spec fn node_drawing(
    nodes: Seq<SnakeNode>,
    i: int,
    head: Map<u8, StyleProperty>,
    body: Map<u8, StyleProperty>,
) -> Seq<u8> {
    let prev = previous_direction(nodes, i);
    CSI::CursorPosition(nodes[i].position.y, nodes[i].position.x).bytes() + (if i == 0 {
        encode_utf8(renditions(head))
    } else if i == 1 {
        encode_utf8(renditions(body))
    } else {
        seq![]
    }) + (if i == nodes.len() - 1 {
        encode_utf8(seq![tail_glyph(prev)]) + encode_utf8(reset_text())
    } else {
        encode_utf8(seq![body_glyph(nodes[i].direction, prev)])
    })
}

/// What drawing the first `k` nodes sends.
pub open spec fn snake_drawing(
    nodes: Seq<SnakeNode>,
    k: nat,
    head: Map<u8, StyleProperty>,
    body: Map<u8, StyleProperty>,
) -> Seq<u8>
    decreases k,
{
    if k == 0 {
        seq![]
    } else {
        snake_drawing(nodes, (k - 1) as nat, head, body) + node_drawing(nodes, k - 1, head, body)
    }
}

/// What blanking the first `k` nodes sends.
pub open spec fn snake_blanking(nodes: Seq<SnakeNode>, k: nat) -> Seq<u8>
    decreases k,
{
    if k == 0 {
        seq![]
    } else {
        snake_blanking(nodes, (k - 1) as nat) + blank_cell(nodes[k - 1].position)
    }
}

fn draw_node<T: Sink>(
    screen: &mut Screen<T>,
    snake: &Snake,
    i: usize,
    previous_body_direction: Direction,
    head_sequence: &String,
    body_sequence: &String,
    reset: &String,
    head: Ghost<Map<u8, StyleProperty>>,
    body: Ghost<Map<u8, StyleProperty>>,
) -> (r: Result<(), Error>)
    requires
        i < snake@.1.len(),
        previous_body_direction == previous_direction(snake@.1, i as int),
        head_sequence@ == renditions(head@),
        body_sequence@ == renditions(body@),
        reset@ == reset_text(),
    ensures
        r is Ok ==> final(screen).written() == old(screen).written() + node_drawing(
            snake@.1,
            i as int,
            head@,
            body@,
        ),
{
    let node = snake.nodes[i];
    match screen.cursor_mut().move_to(node.position.x, node.position.y) {
        Ok(()) => {},
        Err(e) => return Err(Error::IoFailure(e)),
    }
    if i == 0 {
        match screen.write_str(head_sequence.as_str()) {
            Ok(()) => {},
            Err(e) => return Err(e),
        }
    } else if i == 1 {
        match screen.write_str(body_sequence.as_str()) {
            Ok(()) => {},
            Err(e) => return Err(e),
        }
    }
    if i == snake.nodes.len() - 1 {
        match screen.write_char(tail_glyph_of(previous_body_direction)) {
            Ok(()) => {},
            Err(e) => return Err(e),
        }
        match screen.write_str(reset.as_str()) {
            Ok(()) => {},
            Err(e) => return Err(e),
        }
    } else {
        match screen.write_char(body_glyph_of(node.direction, previous_body_direction)) {
            Ok(()) => {},
            Err(e) => return Err(e),
        }
    }
    assert(screen.written() =~= old(screen).written() + node_drawing(
        snake@.1,
        i as int,
        head@,
        body@,
    ));
    Ok(())
}

/// Draws `snake`, its head in `head_style` and the rest in `body_style`.
pub fn draw_snake<T: Sink>(
    screen: &mut Screen<T>,
    snake: &Snake,
    head_style: &Style,
    body_style: &Style,
) -> (r: Result<(), Error>)
    requires
        snake.wf(),
    ensures
        r is Ok ==> final(screen).written() == old(screen).written() + snake_drawing(
            snake@.1,
            snake@.1.len(),
            head_style@,
            body_style@,
        ),
{
    let head_sequence = head_style.ansi_sequence();
    let body_sequence = body_style.ansi_sequence();
    let reset = CSI::SelectGraphicRendition(SGR::Reset).to_string();
    let n = snake.nodes.len();
    let mut previous_body_direction = snake.head().direction;
    let mut i: usize = 0;
    while i < n
        invariant
            n == snake@.1.len(),
            i <= n,
            i < n ==> previous_body_direction == previous_direction(snake@.1, i as int),
            head_sequence@ == renditions(head_style@),
            body_sequence@ == renditions(body_style@),
            reset@ == reset_text(),
            screen.written() == old(screen).written() + snake_drawing(
                snake@.1,
                i as nat,
                head_style@,
                body_style@,
            ),
        decreases n - i,
    {
        match draw_node(
            screen,
            snake,
            i,
            previous_body_direction,
            &head_sequence,
            &body_sequence,
            &reset,
            Ghost(head_style@),
            Ghost(body_style@),
        ) {
            Ok(()) => {},
            Err(e) => return Err(e),
        }
        previous_body_direction = snake.nodes[i].direction;
        i += 1;
    }
    Ok(())
}

/// Writes a space over each node of `snake`.
pub fn draw_snake_blank<T: Sink>(screen: &mut Screen<T>, snake: &Snake) -> (r: Result<(), Error>)
    ensures
        r is Ok ==> final(screen).written() == old(screen).written() + snake_blanking(
            snake@.1,
            snake@.1.len(),
        ),
{
    let n = snake.nodes.len();
    let mut i: usize = 0;
    while i < n
        invariant
            n == snake@.1.len(),
            i <= n,
            screen.written() == old(screen).written() + snake_blanking(snake@.1, i as nat),
        decreases n - i,
    {
        match draw_blank_cell(screen, snake.nodes[i].position) {
            Ok(()) => {},
            Err(e) => return Err(e),
        }
        i += 1;
    }
    Ok(())
}

/// The snake on the shared screen.
#[verifier::reject_recursive_types(T)]
pub struct SnakeComponent<T: Sink> {
    screen: SharedScreen<T>,
    head_style: Style,
    body_style: Style,
    snake: Snake,
}

impl<T: Sink> SnakeComponent<T> {
    pub closed spec fn spec_snake(&self) -> Snake {
        self.snake
    }

    /// A snake of eleven nodes whose tail is at `position`, heading right,
    /// drawn at once.
    pub fn try_new(screen: SharedScreen<T>, position: Position) -> (r: Result<Self, Error>)
        requires
            position.x + 10 <= u16::MAX,
        ensures
            r matches Ok(c) ==> c.spec_snake().wf() && c.spec_snake()@ == (
                Direction::Right,
                stretched_right(SnakeNode { position, direction: Direction::Right }, 10),
            ),
    {
        let mut head_style = Style::new();
        head_style.add_property(StyleProperty::Color(Color::RGB(83, 134, 66)));
        head_style.add_property(StyleProperty::Bold);
        let mut body_style = Style::new();
        body_style.add_property(StyleProperty::Color(Color::RGB(184, 195, 52)));
        let snake = SnakeComponent {
            screen,
            snake: Snake::new(SnakeNode::new(position, Direction::Right), 10),
            head_style,
            body_style,
        };
        match snake.render() {
            Ok(()) => Ok(snake),
            Err(e) => Err(e),
        }
    }

    pub fn snake(&self) -> (r: &Snake)
        ensures
            *r == self.spec_snake(),
    {
        &self.snake
    }

    pub fn snake_mut(&mut self) -> (r: &mut Snake)
        ensures
            *r == old(self).spec_snake(),
            final(self).spec_snake() == *final(r),
    {
        &mut self.snake
    }

    /// Draws the snake.
    pub fn render(&self) -> Result<(), Error> {
        if self.snake.nodes.len() == 0 {
            return Ok(());
        }
        let mut guard = match self.screen.lock() {
            Ok(g) => g,
            Err(e) => return Err(e),
        };
        let r = draw_snake(guard.screen_mut(), &self.snake, &self.head_style, &self.body_style);
        guard.release();
        r
    }

    /// Blanks every cell of the snake.
    pub fn erase(&self) -> Result<(), Error> {
        let mut guard = match self.screen.lock() {
            Ok(g) => g,
            Err(e) => return Err(e),
        };
        let r = draw_snake_blank(guard.screen_mut(), &self.snake);
        guard.release();
        r
    }

    /// Moves the snake one step: blanks the cell its tail left and draws it
    /// again.
    pub fn move_forward(&mut self) -> (r: Result<(), Error>)
        requires
            old(self).spec_snake().wf(),
            fits(step_from(old(self).spec_snake()@.1[0].position, old(self).spec_snake()@.0)),
        ensures
            final(self).spec_snake().wf(),
            final(self).spec_snake()@ == (old(self).spec_snake()@.0, seq![
                ahead(old(self).spec_snake()@.1, old(self).spec_snake()@.0),
            ] + old(self).spec_snake()@.1.drop_last()),
    {
        match self.snake.move_forward() {
            Some(old_tail) => {
                match self.erase_snake_node(old_tail) {
                    Ok(()) => {},
                    Err(e) => return Err(e),
                }
                self.render()
            },
            None => Ok(()),
        }
    }

    fn erase_snake_node(&self, node: SnakeNode) -> Result<(), Error> {
        let mut guard = match self.screen.lock() {
            Ok(g) => g,
            Err(e) => return Err(e),
        };
        let r = draw_blank_cell(guard.screen_mut(), node.position);
        guard.release();
        r
    }
}

} // verus!
