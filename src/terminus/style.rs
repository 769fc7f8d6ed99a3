//! Text styles: at most one rendition per attribute category, rendered as a
//! run of `ESC[..m` sequences.
use vstd::prelude::*;
use vstd::string::StringExecFns;

use crate::terminus::ansi_escape_sequences::{TerminalColor, CSI, SGR};

verus! {

/// How many attribute categories a style can hold.
pub const CATEGORIES: usize = 10;

#[derive(Debug, Copy, Clone, PartialEq, Eq, Structural)]
pub enum Color {
    Black,
    Red,
    Green,
    Yellow,
    Blue,
    Magenta,
    Cyan,
    White,
    Gray,
    BrightRed,
    BrightGreen,
    BrightYellow,
    BrightBlue,
    BrightMagenta,
    BrightCyan,
    BrightWhite,
    RGB(u8, u8, u8),
}

#[derive(Debug, Copy, Clone, PartialEq, Eq, Structural)]
pub enum StyleProperty {
    /// Set foreground color.
    Color(Color),
    BackgroundColor(Color),
    Bold,
    Italic,
    Strike,
    Dim,
    Underline,
    DoublyUnderline,
    Blinking,
    Hidden,
    Invert,
}

/// The base color of a named color, with whether it is the bright variant.
/// `None` for an RGB color.
pub open spec fn base_color(c: Color) -> Option<(TerminalColor, bool)> {
    match c {
        Color::Black => Some((TerminalColor::Black, false)),
        Color::Red => Some((TerminalColor::Red, false)),
        Color::Green => Some((TerminalColor::Green, false)),
        Color::Yellow => Some((TerminalColor::Yellow, false)),
        Color::Blue => Some((TerminalColor::Blue, false)),
        Color::Magenta => Some((TerminalColor::Magenta, false)),
        Color::Cyan => Some((TerminalColor::Cyan, false)),
        Color::White => Some((TerminalColor::White, false)),
        Color::Gray => Some((TerminalColor::Black, true)),
        Color::BrightRed => Some((TerminalColor::Red, true)),
        Color::BrightGreen => Some((TerminalColor::Green, true)),
        Color::BrightYellow => Some((TerminalColor::Yellow, true)),
        Color::BrightBlue => Some((TerminalColor::Blue, true)),
        Color::BrightMagenta => Some((TerminalColor::Magenta, true)),
        Color::BrightCyan => Some((TerminalColor::Cyan, true)),
        Color::BrightWhite => Some((TerminalColor::White, true)),
        Color::RGB(_, _, _) => None,
    }
}

/// The rendition that sets `c` as the foreground color.
pub open spec fn foreground(c: Color) -> SGR {
    match c {
        Color::RGB(r, g, b) => SGR::SetForegroundColorRGB { r, g, b },
        _ => {
            let (t, bright) = base_color(c).unwrap();
            if bright {
                SGR::SetBrightForegroundColor(t)
            } else {
                SGR::SetForegroundColor(t)
            }
        },
    }
}

/// The rendition that sets `c` as the background color.
pub open spec fn background(c: Color) -> SGR {
    match c {
        Color::RGB(r, g, b) => SGR::SetBackgroundColorRGB { r, g, b },
        _ => {
            let (t, bright) = base_color(c).unwrap();
            if bright {
                SGR::SetBrightBackgroundColor(t)
            } else {
                SGR::SetBackgroundColor(t)
            }
        },
    }
}

impl Color {
    fn terminal_color(&self) -> (r: Option<(TerminalColor, bool)>)
        ensures
            r == base_color(*self),
    {
        match self {
            Color::Black => Some((TerminalColor::Black, false)),
            Color::Red => Some((TerminalColor::Red, false)),
            Color::Green => Some((TerminalColor::Green, false)),
            Color::Yellow => Some((TerminalColor::Yellow, false)),
            Color::Blue => Some((TerminalColor::Blue, false)),
            Color::Magenta => Some((TerminalColor::Magenta, false)),
            Color::Cyan => Some((TerminalColor::Cyan, false)),
            Color::White => Some((TerminalColor::White, false)),
            Color::Gray => Some((TerminalColor::Black, true)),
            Color::BrightRed => Some((TerminalColor::Red, true)),
            Color::BrightGreen => Some((TerminalColor::Green, true)),
            Color::BrightYellow => Some((TerminalColor::Yellow, true)),
            Color::BrightBlue => Some((TerminalColor::Blue, true)),
            Color::BrightMagenta => Some((TerminalColor::Magenta, true)),
            Color::BrightCyan => Some((TerminalColor::Cyan, true)),
            Color::BrightWhite => Some((TerminalColor::White, true)),
            Color::RGB(_, _, _) => None,
        }
    }

    fn foreground(&self) -> (r: SGR)
        ensures
            r == foreground(*self),
    {
        match self {
            Color::RGB(r, g, b) => SGR::SetForegroundColorRGB { r: *r, g: *g, b: *b },
            _ => {
                let (t, bright) = self.terminal_color().unwrap();
                if bright {
                    SGR::SetBrightForegroundColor(t)
                } else {
                    SGR::SetForegroundColor(t)
                }
            },
        }
    }

    fn background(&self) -> (r: SGR)
        ensures
            r == background(*self),
    {
        match self {
            Color::RGB(r, g, b) => SGR::SetBackgroundColorRGB { r: *r, g: *g, b: *b },
            _ => {
                let (t, bright) = self.terminal_color().unwrap();
                if bright {
                    SGR::SetBrightBackgroundColor(t)
                } else {
                    SGR::SetBackgroundColor(t)
                }
            },
        }
    }
}

impl StyleProperty {
    /// The attribute category: two properties of one category replace each
    /// other in a style.
    pub open spec fn category(self) -> u8 {
        match self {
            StyleProperty::Color(_) => 0,
            StyleProperty::BackgroundColor(_) => 1,
            StyleProperty::Bold => 2,
            StyleProperty::Italic => 3,
            StyleProperty::Strike => 4,
            StyleProperty::Dim => 5,
            StyleProperty::Underline => 6,
            StyleProperty::DoublyUnderline => 6,
            StyleProperty::Blinking => 7,
            StyleProperty::Hidden => 8,
            StyleProperty::Invert => 9,
        }
    }

    /// The rendition that applies the property.
    pub open spec fn rendition(self) -> SGR {
        match self {
            StyleProperty::Color(c) => foreground(c),
            StyleProperty::BackgroundColor(c) => background(c),
            StyleProperty::Bold => SGR::Bold,
            StyleProperty::Italic => SGR::Italic,
            StyleProperty::Strike => SGR::Strike,
            StyleProperty::Dim => SGR::Dim,
            StyleProperty::Underline => SGR::Underline,
            StyleProperty::DoublyUnderline => SGR::DoublyUnderlined,
            StyleProperty::Blinking => SGR::SlowBlink,
            StyleProperty::Hidden => SGR::Hide,
            StyleProperty::Invert => SGR::Invert,
        }
    }

    /// The sequence that applies the property.
    pub open spec fn text(self) -> Seq<char> {
        CSI::SelectGraphicRendition(self.rendition()).text()
    }

    pub fn id(&self) -> (r: u8)
        ensures
            r == self.category(),
            r < CATEGORIES,
    {
        match self {
            StyleProperty::Color(_) => 0,
            StyleProperty::BackgroundColor(_) => 1,
            StyleProperty::Bold => 2,
            StyleProperty::Italic => 3,
            StyleProperty::Strike => 4,
            StyleProperty::Dim => 5,
            StyleProperty::Underline | StyleProperty::DoublyUnderline => 6,
            StyleProperty::Blinking => 7,
            StyleProperty::Hidden => 8,
            StyleProperty::Invert => 9,
        }
    }

    pub fn to_sgr(&self) -> (r: SGR)
        ensures
            r == self.rendition(),
    {
        match self {
            StyleProperty::Color(c) => c.foreground(),
            StyleProperty::BackgroundColor(c) => c.background(),
            StyleProperty::Bold => SGR::Bold,
            StyleProperty::Italic => SGR::Italic,
            StyleProperty::Strike => SGR::Strike,
            StyleProperty::Dim => SGR::Dim,
            StyleProperty::Underline => SGR::Underline,
            StyleProperty::DoublyUnderline => SGR::DoublyUnderlined,
            StyleProperty::Blinking => SGR::SlowBlink,
            StyleProperty::Hidden => SGR::Hide,
            StyleProperty::Invert => SGR::Invert,
        }
    }

    /// Appends the sequence that applies the property.
    pub fn write_to(&self, s: &mut String)
        ensures
            final(s)@ == old(s)@ + self.text(),
    {
        CSI::SelectGraphicRendition(self.to_sgr()).write_to(s);
    }

    /// The sequence that applies the property.
    pub fn to_string(&self) -> (r: String)
        ensures
            r@ == self.text(),
    {
        let mut s = String::new();
        self.write_to(&mut s);
        assert(s@ =~= self.text());
        s
    }
}

/// The sequence for the property held in category `k`, if any.
pub open spec fn entry_text(m: Map<u8, StyleProperty>, k: u8) -> Seq<char> {
    if m.contains_key(k) {
        m[k].text()
    } else {
        seq![]
    }
}

/// The sequences of the properties held in the categories below `k`, in the
/// order of their categories.
pub open spec fn renditions_below(m: Map<u8, StyleProperty>, k: nat) -> Seq<char>
    decreases k,
{
    if k == 0 {
        seq![]
    } else {
        renditions_below(m, (k - 1) as nat) + entry_text(m, (k - 1) as u8)
    }
}

/// The sequence that applies every property of a style.
pub open spec fn renditions(m: Map<u8, StyleProperty>) -> Seq<char> {
    renditions_below(m, CATEGORIES as nat)
}

/// `m` with each of `ps` added in turn, a later one replacing an earlier one
/// of its category.
pub open spec fn with_all(m: Map<u8, StyleProperty>, ps: Seq<StyleProperty>) -> Map<
    u8,
    StyleProperty,
>
    decreases ps.len(),
{
    if ps.len() == 0 {
        m
    } else {
        with_all(m, ps.drop_last()).insert(ps.last().category(), ps.last())
    }
}

/// `m` with the category of each of `ps` removed.
pub open spec fn without_all(m: Map<u8, StyleProperty>, ps: Seq<StyleProperty>) -> Map<
    u8,
    StyleProperty,
>
    decreases ps.len(),
{
    if ps.len() == 0 {
        m
    } else {
        without_all(m, ps.drop_last()).remove(ps.last().category())
    }
}

/// The sequence that clears every rendition: `ESC[0m`.
pub open spec fn reset_text() -> Seq<char> {
    CSI::SelectGraphicRendition(SGR::Reset).text()
}

/// A set of text attributes, at most one per category.
pub struct Style {
    properties: [Option<StyleProperty>; CATEGORIES],
}

impl View for Style {
    type V = Map<u8, StyleProperty>;

    /// Each held property, keyed by its category.
    closed spec fn view(&self) -> Map<u8, StyleProperty> {
        Map::new(
            |k: u8| (k as int) < self.properties@.len() && self.properties@[k as int] is Some,
            |k: u8| self.properties@[k as int]->Some_0,
        )
    }
}

impl Style {
    pub const RESET: &'static str = "\x1b[0m";

    pub fn new() -> (r: Self)
        ensures
            r@ == Map::<u8, StyleProperty>::empty(),
    {
        let properties: [Option<StyleProperty>; CATEGORIES] = [None; CATEGORIES];
        let r = Style { properties };
        assert(r@ =~= Map::<u8, StyleProperty>::empty());
        r
    }

    /// A style with each of `properties` added in turn.
    pub fn from_properties(properties: &[StyleProperty]) -> (r: Self)
        ensures
            r@ == with_all(Map::empty(), properties@),
    {
        let mut style = Style::new();
        style.add_properties(properties);
        style
    }

    fn insert(&mut self, property: StyleProperty)
        ensures
            final(self)@ == old(self)@.insert(property.category(), property),
    {
        let id = property.id();
        self.properties[id as usize] = Some(property);
        assert(self@ =~= old(self)@.insert(property.category(), property));
    }

    fn remove(&mut self, property: StyleProperty)
        ensures
            final(self)@ == old(self)@.remove(property.category()),
    {
        let id = property.id();
        self.properties[id as usize] = None;
        assert(self@ =~= old(self)@.remove(property.category()));
    }

    /// Adds the property, replacing the one of its category if there is one.
    pub fn add_property(&mut self, property: StyleProperty) -> (r: &mut Self)
        ensures
            r@ == old(self)@.insert(property.category(), property),
            *final(self) == *final(r),
    {
        self.insert(property);
        self
    }

    /// Adds each property in turn.
    pub fn add_properties(&mut self, properties: &[StyleProperty])
        ensures
            final(self)@ == with_all(old(self)@, properties@),
    {
        let mut i: usize = 0;
        while i < properties.len()
            invariant
                i <= properties@.len(),
                self@ == with_all(old(self)@, properties@.take(i as int)),
            decreases properties@.len() - i,
        {
            let p = properties[i];
            self.insert(p);
            assert(properties@.take(i + 1).drop_last() =~= properties@.take(i as int));
            i += 1;
        }
        assert(properties@.take(i as int) =~= properties@);
    }

    /// Removes the property of the category of `property`, whatever it is.
    pub fn remove_property(&mut self, property: StyleProperty)
        ensures
            final(self)@ == old(self)@.remove(property.category()),
    {
        self.remove(property);
    }

    /// Removes the categories of each of `properties`.
    pub fn remove_properties(&mut self, properties: &[StyleProperty])
        ensures
            final(self)@ == without_all(old(self)@, properties@),
    {
        let mut i: usize = 0;
        while i < properties.len()
            invariant
                i <= properties@.len(),
                self@ == without_all(old(self)@, properties@.take(i as int)),
            decreases properties@.len() - i,
        {
            let p = properties[i];
            self.remove(p);
            assert(properties@.take(i + 1).drop_last() =~= properties@.take(i as int));
            i += 1;
        }
        assert(properties@.take(i as int) =~= properties@);
    }

    /// The sequences of all held properties, in the order of their
    /// categories.
    pub fn ansi_sequence(&self) -> (r: String)
        ensures
            r@ == renditions(self@),
    {
        let mut sequence = String::new();
        let mut i: usize = 0;
        while i < CATEGORIES
            invariant
                i <= CATEGORIES,
                sequence@ == renditions_below(self@, i as nat),
            decreases CATEGORIES - i,
        {
            match &self.properties[i] {
                Some(p) => p.write_to(&mut sequence),
                None => {},
            }
            assert(sequence@ =~= renditions_below(self@, (i + 1) as nat));
            i += 1;
        }
        sequence
    }

    /// `text` between the style's sequences and the reset sequence.
    pub fn prettify(&self, string: &str) -> (r: String)
        ensures
            r@ == renditions(self@) + string@ + reset_text(),
    {
        let mut s = self.ansi_sequence();
        s.append(string);
        CSI::SelectGraphicRendition(SGR::Reset).write_to(&mut s);
        s
    }

    /// A function that wraps text as `prettify` does, with the sequences of
    /// the style as it is now.
    pub fn prettifier(&self) -> (f: impl Fn(&str) -> String)
        ensures
            forall|t: &str| f.requires((t,)),
            forall|t: &str, out: String|
                f.ensures((t,), out) ==> out@ == renditions(self@) + t@ + reset_text(),
    {
        let ansi_seq = self.ansi_sequence();
        let ghost prefix = renditions(self@);
        move |t: &str| -> (out: String)
            ensures
                out@ == prefix + t@ + reset_text(),
            {
                let mut out = String::from_str(ansi_seq.as_str());
                out.append(t);
                CSI::SelectGraphicRendition(SGR::Reset).write_to(&mut out);
                out
            }
    }

    /// Whether the style holds exactly `property` in its category.
    pub fn is(&self, property: StyleProperty) -> (r: bool)
        ensures
            r == (self@.contains_key(property.category()) && self@[property.category()]
                == property),
    {
        let id = property.id();
        match &self.properties[id as usize] {
            Some(p) => *p == property,
            None => false,
        }
    }
}

impl<const N: usize> From<[StyleProperty; N]> for Style {
    fn from(properties: [StyleProperty; N]) -> Self {
        Style::from_properties(properties.as_slice())
    }
}

impl<const N: usize> vstd::std_specs::convert::FromSpecImpl<[StyleProperty; N]> for Style {
    open spec fn obeys_from_spec() -> bool {
        false
    }

    open spec fn from_spec(v: [StyleProperty; N]) -> Style {
        arbitrary()
    }
}

impl<'a, const N: usize> From<&'a [StyleProperty; N]> for Style {
    fn from(properties: &'a [StyleProperty; N]) -> Self {
        Style::from_properties(properties.as_slice())
    }
}

impl<'a, const N: usize> vstd::std_specs::convert::FromSpecImpl<&'a [StyleProperty; N]> for Style {
    open spec fn obeys_from_spec() -> bool {
        false
    }

    open spec fn from_spec(v: &'a [StyleProperty; N]) -> Style {
        arbitrary()
    }
}

impl<'a> From<&'a Style> for Style {
    fn from(style: &'a Style) -> Self {
        Style { properties: style.properties }
    }
}

impl<'a> vstd::std_specs::convert::FromSpecImpl<&'a Style> for Style {
    open spec fn obeys_from_spec() -> bool {
        true
    }

    open spec fn from_spec(v: &'a Style) -> Style {
        *v
    }
}

/// Adding a property whose category is already held leaves no trace of the
/// property it replaces: the style, and so its sequence, is as if only the
/// later one had been added.
pub proof fn lemma_later_property_replaces(
    m: Map<u8, StyleProperty>,
    earlier: StyleProperty,
    later: StyleProperty,
)
    requires
        earlier.category() == later.category(),
    ensures
        m.insert(earlier.category(), earlier).insert(later.category(), later) == m.insert(
            later.category(),
            later,
        ),
        renditions(m.insert(earlier.category(), earlier).insert(later.category(), later))
            == renditions(m.insert(later.category(), later)),
{
    assert(m.insert(earlier.category(), earlier).insert(later.category(), later) =~= m.insert(
        later.category(),
        later,
    ));
}

/// Properties of different categories can be added in either order: the
/// styles, and so their sequences, are the same.
pub proof fn lemma_adding_order_is_irrelevant(
    m: Map<u8, StyleProperty>,
    p: StyleProperty,
    q: StyleProperty,
)
    requires
        p.category() != q.category(),
    ensures
        m.insert(p.category(), p).insert(q.category(), q) == m.insert(q.category(), q).insert(
            p.category(),
            p,
        ),
        renditions(m.insert(p.category(), p).insert(q.category(), q)) == renditions(
            m.insert(q.category(), q).insert(p.category(), p),
        ),
{
    assert(m.insert(p.category(), p).insert(q.category(), q) =~= m.insert(q.category(), q).insert(
        p.category(),
        p,
    ));
}

} // verus!
