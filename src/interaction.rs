//! What passes between the widgets and a front end: input events, key
//! presses, and the renderer that draws text.

use vstd::prelude::*;
use crate::pos::Pos;

verus! {

/// Modifier keys held with a character, as a set of bits.
#[derive(Copy, Clone, Debug, PartialEq, Eq, Structural)]
pub struct CharModifiers(pub u8);

/// The bit of the Shift key.
pub const SHIFT_BIT: u8 = 0b0000_0001;
/// The bit of the Control key.
pub const CTRL_BIT: u8 = 0b0000_0010;
/// The bit of the Alt key.
pub const ALT_BIT: u8 = 0b0000_0100;
/// The bit of Caps Lock.
pub const CAPS_LOCK_BIT: u8 = 0b0000_1000;
/// Every bit that stands for a modifier.
pub const ALL_BITS: u8 = 0b0000_1111;

impl CharModifiers {
    /// The set's bits.
    pub open spec fn spec_bits(self) -> u8 {
        self.0
    }

    /// No modifier.
    pub fn empty() -> (r: CharModifiers)
        ensures
            r.spec_bits() == 0,
    {
        CharModifiers(0)
    }

    /// Shift alone.
    pub fn shift() -> (r: CharModifiers)
        ensures
            r.spec_bits() == SHIFT_BIT,
    {
        CharModifiers(SHIFT_BIT)
    }

    /// Control alone.
    pub fn ctrl() -> (r: CharModifiers)
        ensures
            r.spec_bits() == CTRL_BIT,
    {
        CharModifiers(CTRL_BIT)
    }

    /// Alt alone.
    pub fn alt() -> (r: CharModifiers)
        ensures
            r.spec_bits() == ALT_BIT,
    {
        CharModifiers(ALT_BIT)
    }

    /// Caps Lock alone.
    pub fn caps_lock() -> (r: CharModifiers)
        ensures
            r.spec_bits() == CAPS_LOCK_BIT,
    {
        CharModifiers(CAPS_LOCK_BIT)
    }

    /// The set with the given bits, those that stand for no modifier dropped.
    pub fn from_bits_truncate(bits: u8) -> (r: CharModifiers)
        ensures
            r.spec_bits() == bits & ALL_BITS,
    {
        CharModifiers(bits & ALL_BITS)
    }

    /// The set's bits.
    pub fn bits(&self) -> (r: u8)
        ensures
            r == self.spec_bits(),
    {
        self.0
    }

    /// The modifiers held in either set.
    pub fn union(self, other: CharModifiers) -> (r: CharModifiers)
        ensures
            r.spec_bits() == self.spec_bits() | other.spec_bits(),
    {
        CharModifiers(self.0 | other.0)
    }

    /// Whether every modifier of `other` is held in this set.
    pub fn contains(&self, other: CharModifiers) -> (r: bool)
        ensures
            r == (self.spec_bits() & other.spec_bits() == other.spec_bits()),
    {
        self.0 & other.0 == other.0
    }
}

/// An input event, as the widgets see it.
#[derive(Copy, Clone, Debug, PartialEq, Eq, Structural)]
pub enum Event {
    NextFocus,
    PrevFocus,
    Activate,
    Quit,
    Char(char, CharModifiers),
    Del,
    DelBack,
    Right,
    Left,
    Up,
    Down,
}

/// How a piece of text is drawn.
#[derive(Copy, Clone, Debug, PartialEq, Eq, Structural)]
pub enum Style {
    Default,
    Invert,
    Highlight,
}

/// A key of the keyboard, as a front end reports it.
#[derive(Copy, Clone, Debug, PartialEq, Eq, Structural)]
pub enum KeyCode {
    Esc,
    Tab,
    BackTab,
    Enter,
    Delete,
    Backspace,
    Left,
    Right,
    Up,
    Down,
    Char(char),
    /// Any other key.
    Other,
}

/// A key event of the front end: the key, whether it went down (rather than
/// up or repeating), and the modifiers held.
#[derive(Copy, Clone, Debug, PartialEq, Eq, Structural)]
pub struct KeyPress {
    pub code: KeyCode,
    pub pressed: bool,
    pub shift: bool,
    pub ctrl: bool,
    pub alt: bool,
    pub caps_lock: bool,
}

/// The modifier bits of a key event.
pub open spec fn modifier_bits(k: KeyPress) -> u8 {
    ((if k.shift { SHIFT_BIT } else { 0u8 }) | (if k.ctrl { CTRL_BIT } else { 0u8 }) | (if k.alt {
        ALT_BIT
    } else {
        0u8
    }) | (if k.caps_lock { CAPS_LOCK_BIT } else { 0u8 })) as u8
}

/// The widget event of a key event, if any: only key presses count; Esc
/// quits, Tab and Shift-Tab move the focus, Enter activates, the editing and
/// arrow keys pass through, and a character comes with its modifiers.
pub open spec fn key_event(k: KeyPress) -> Option<Event> {
    if !k.pressed {
        None
    } else {
        match k.code {
            KeyCode::Esc => Some(Event::Quit),
            KeyCode::Tab => Some(Event::NextFocus),
            KeyCode::BackTab => Some(Event::PrevFocus),
            KeyCode::Enter => Some(Event::Activate),
            KeyCode::Delete => Some(Event::Del),
            KeyCode::Backspace => Some(Event::DelBack),
            KeyCode::Left => Some(Event::Left),
            KeyCode::Right => Some(Event::Right),
            KeyCode::Up => Some(Event::Up),
            KeyCode::Down => Some(Event::Down),
            KeyCode::Char(c) => Some(Event::Char(c, CharModifiers(modifier_bits(k)))),
            KeyCode::Other => None,
        }
    }
}

/// The modifiers held in a key event.
pub fn key_modifiers(k: &KeyPress) -> (r: CharModifiers)
    ensures
        r.spec_bits() == modifier_bits(*k),
{
    let shift: u8 = if k.shift { SHIFT_BIT } else { 0 };
    let ctrl: u8 = if k.ctrl { CTRL_BIT } else { 0 };
    let alt: u8 = if k.alt { ALT_BIT } else { 0 };
    let caps: u8 = if k.caps_lock { CAPS_LOCK_BIT } else { 0 };
    CharModifiers(shift | ctrl | alt | caps)
}

/// The widget events of one key event: none, or one.
pub fn events_for_key(k: &KeyPress) -> (r: Vec<Event>)
    ensures
        r@ == (match key_event(*k) {
            Some(e) => seq![e],
            None => Seq::<Event>::empty(),
        }),
{
    let mut events: Vec<Event> = Vec::new();
    if !k.pressed {
        proof {
            assert(events@ =~= Seq::<Event>::empty());
        }
        return events;
    }
    let e = match k.code {
        KeyCode::Esc => Some(Event::Quit),
        KeyCode::Tab => Some(Event::NextFocus),
        KeyCode::BackTab => Some(Event::PrevFocus),
        KeyCode::Enter => Some(Event::Activate),
        KeyCode::Delete => Some(Event::Del),
        KeyCode::Backspace => Some(Event::DelBack),
        KeyCode::Left => Some(Event::Left),
        KeyCode::Right => Some(Event::Right),
        KeyCode::Up => Some(Event::Up),
        KeyCode::Down => Some(Event::Down),
        KeyCode::Char(c) => Some(Event::Char(c, key_modifiers(k))),
        KeyCode::Other => None,
    };
    if let Some(ev) = e {
        events.push(ev);
    }
    proof {
        assert(events@ =~= (match key_event(*k) {
            Some(e) => seq![e],
            None => Seq::<Event>::empty(),
        }));
    }
    events
}

/// A piece of text to draw: where, what, and whether in a style.
pub struct Draw {
    pub pos: Pos,
    pub text: String,
    /// `None` draws the text plainly.
    pub style: Option<Style>,
}

/// A piece of text to draw, as values.
pub struct DrawView {
    pub pos: Pos,
    pub text: Seq<char>,
    pub style: Option<Style>,
}

impl View for Draw {
    type V = DrawView;

    open spec fn view(&self) -> DrawView {
        DrawView { pos: self.pos, text: self.text@, style: self.style }
    }
}

/// A list of pieces of text, as values.
pub open spec fn draws_view(d: Seq<Draw>) -> Seq<DrawView> {
    d.map_values(|x: Draw| x@)
}

/// Draws text on some surface.
pub trait Renderer {
    fn clear(&mut self);

    fn render_str(&mut self, pos: Pos, text: &str);

    fn render_fmt_str(&mut self, pos: Pos, text: &str, style: Style);

    fn flush(&mut self);
}

/// Collects input events.
pub trait EventCollector {
    fn poll_events(&self) -> Vec<Event>;
}

/// Hands each piece of text to the renderer, in order: plain ones through
/// `render_str`, styled ones through `render_fmt_str`.
pub fn render_all<R: Renderer>(renderer: &mut R, draws: &Vec<Draw>) {
    let mut i: usize = 0;
    while i < draws.len()
        invariant
            i <= draws.len(),
        decreases draws.len() - i,
    {
        let d = &draws[i];
        match d.style {
            Some(style) => renderer.render_fmt_str(d.pos, d.text.as_str(), style),
            None => renderer.render_str(d.pos, d.text.as_str()),
        }
        i = i + 1;
    }
}

} // verus!
