//! A one-line text field of fixed width with a caret.

use vstd::prelude::*;
use crate::interaction::{draws_view, render_all, CharModifiers, Draw, DrawView, Event, Renderer, Style};
use crate::pos::{pos_add, Pos};
use crate::widget::{string_of, substring, Focusable, Task};

verus! {

/// An edit of a text field.
#[derive(Copy, Clone, Debug, PartialEq, Eq, Structural)]
pub enum Message {
    /// Write a character at the caret and move the caret right, if it can.
    EnterChar(char, CharModifiers),
    /// Blank the character at the caret.
    Del,
    /// Move the caret left, if it can, and blank the character there.
    DelBack,
    /// Move the caret left, from the first cell to the last.
    CursorLeft,
    /// Move the caret right, from the last cell to the first.
    CursorRight,
}

/// A text field's state, as values.
pub struct TextBoxState {
    pub width: nat,
    pub caret: nat,
    pub text: Seq<char>,
    pub focused: bool,
}

/// The text field's state after an edit.
pub open spec fn edited(s: TextBoxState, msg: Message) -> TextBoxState {
    match msg {
        Message::EnterChar(c, _) => TextBoxState {
            text: s.text.update(s.caret as int, c),
            caret: if s.caret + 1 < s.width { s.caret + 1 } else { s.caret },
            ..s
        },
        Message::Del => TextBoxState { text: s.text.update(s.caret as int, ' '), ..s },
        Message::DelBack => {
            let caret = if s.caret > 0 { (s.caret - 1) as nat } else { s.caret };
            TextBoxState { text: s.text.update(caret as int, ' '), caret, ..s }
        },
        Message::CursorRight => TextBoxState { caret: (s.caret + 1) % s.width, ..s },
        Message::CursorLeft => TextBoxState {
            caret: if s.caret == 0 { (s.width - 1) as nat } else { (s.caret - 1) as nat },
            ..s
        },
    }
}

/// A text field: `width` cells, blank at first, with a caret on one of them.
pub struct TextBox {
    width: usize,
    carret_idx: usize,
    chars: Vec<char>,
    text: String,
    has_focus: bool,
}

impl TextBox {
    /// The field's state.
    pub closed spec fn state(&self) -> TextBoxState {
        TextBoxState {
            width: self.width as nat,
            caret: self.carret_idx as nat,
            text: self.chars@,
            focused: self.has_focus,
        }
    }
}

/// The states a text field can be in: as many characters as cells, and the
/// caret on a cell (on the first, for a field of no cells).
pub open spec fn textbox_wf(s: TextBoxState) -> bool {
    &&& s.text.len() == s.width
    &&& (s.caret < s.width || s.caret == 0)
}

impl TextBox {
    #[verifier::type_invariant]
    closed spec fn inv(self) -> bool {
        &&& textbox_wf(self.state())
        &&& self.text@ == self.chars@
        &&& self.width <= usize::MAX
    }

    /// A blank, unfocused field of `width` cells, the caret on the first.
    pub fn new(width: usize) -> (r: TextBox)
        ensures
            r.state() == (TextBoxState {
                width: width as nat,
                caret: 0,
                text: Seq::new(width as nat, |i: int| ' '),
                focused: false,
            }),
    {
        let mut chars: Vec<char> = Vec::new();
        let mut i: usize = 0;
        while i < width
            invariant
                i <= width,
                chars@ == Seq::new(i as nat, |j: int| ' '),
            decreases width - i,
        {
            chars.push(' ');
            proof {
                assert(chars@ =~= Seq::new((i + 1) as nat, |j: int| ' '));
            }
            i = i + 1;
        }
        let text = string_of(chars.as_slice());
        TextBox { width, carret_idx: 0, chars, text, has_focus: false }
    }

    /// The field's characters.
    pub fn text(&self) -> (r: &str)
        ensures
            r@ == self.state().text,
    {
        proof {
            use_type_invariant(self);
        }
        self.text.as_str()
    }

    /// Applies an edit. It asks nothing of the application.
    pub fn update(&mut self, msg: Message) -> (r: Vec<Task<()>>)
        requires
            old(self).state().width > 0,
        ensures
            final(self).state() == edited(old(self).state(), msg),
            r@.len() == 0,
    {
        proof {
            use_type_invariant(&*self);
        }
        match msg {
            Message::EnterChar(c, _) => {
                let caret = if self.carret_idx < self.width - 1 {
                    self.carret_idx + 1
                } else {
                    self.carret_idx
                };
                self.write(self.carret_idx, c, caret);
            },
            Message::Del => {
                self.write(self.carret_idx, ' ', self.carret_idx);
            },
            Message::DelBack => {
                let caret = if self.carret_idx > 0 {
                    self.carret_idx - 1
                } else {
                    self.carret_idx
                };
                self.write(caret, ' ', caret);
            },
            Message::CursorRight => {
                self.carret_idx = (self.carret_idx + 1) % self.width;
            },
            Message::CursorLeft => {
                if self.carret_idx == 0 {
                    self.carret_idx = self.width - 1;
                } else {
                    self.carret_idx = self.carret_idx - 1;
                }
            },
        }
        Vec::new()
    }

    /// Puts `c` in cell `at` and the caret on cell `caret`.
    fn write(&mut self, at: usize, c: char, caret: usize)
        requires
            at < old(self).state().width,
            caret < old(self).state().width,
        ensures
            final(self).state() == (TextBoxState {
                text: old(self).state().text.update(at as int, c),
                caret: caret as nat,
                ..old(self).state()
            }),
    {
        proof {
            use_type_invariant(&*self);
        }
        let mut chars: Vec<char> = Vec::new();
        let mut i: usize = 0;
        while i < self.chars.len()
            invariant
                i <= self.chars.len(),
                at < self.chars.len(),
                chars@ == self.chars@.update(at as int, c).subrange(0, i as int),
            decreases self.chars.len() - i,
        {
            chars.push(if i == at { c } else { self.chars[i] });
            proof {
                assert(chars@ =~= self.chars@.update(at as int, c).subrange(0, i + 1));
            }
            i = i + 1;
        }
        proof {
            assert(chars@ =~= self.chars@.update(at as int, c));
        }
        let text = string_of(chars.as_slice());
        *self = TextBox { width: self.width, carret_idx: caret, chars, text, has_focus: self.has_focus };
    }

    /// The number of cells.
    pub fn width(&self) -> (r: usize)
        ensures
            r == self.state().width,
    {
        self.width
    }

    /// A view of the field at `pos`.
    pub fn view(&self, pos: Pos) -> (r: TextBoxView)
        ensures
            r@ == view_of(self.state(), pos),
            textbox_view_wf(r@),
    {
        proof {
            use_type_invariant(self);
        }
        TextBoxView::new(pos, self.carret_idx, &self.chars, self.has_focus)
    }
}

impl Focusable for TextBox {
    open spec fn focused(&self) -> bool {
        self.state().focused
    }

    fn has_focus(&self) -> (r: bool) {
        self.has_focus
    }

    fn focus(&mut self) {
        proof {
            use_type_invariant(&*self);
        }
        self.has_focus = true;
    }

    fn defocus(&mut self) {
        proof {
            use_type_invariant(&*self);
        }
        self.has_focus = false;
    }

    /// A field is one stop of the focus: a step moves onto it or off it.
    fn next_focus(&mut self) {
        proof {
            use_type_invariant(&*self);
        }
        self.has_focus = !self.has_focus;
    }

    fn prev_focus(&mut self) {
        proof {
            use_type_invariant(&*self);
        }
        self.has_focus = !self.has_focus;
    }
}

/// The view at `pos` of a field in state `s`.
pub open spec fn view_of(s: TextBoxState, pos: Pos) -> TextBoxViewState {
    TextBoxViewState { pos, caret: s.caret, text: shown_text(s.text), focused: s.focused }
}

/// A text field as it is shown: blanks drawn as `-`.
pub open spec fn shown_text(text: Seq<char>) -> Seq<char> {
    text.map_values(|c: char| if c == ' ' { '-' } else { c })
}

/// A text field's view, as values.
pub struct TextBoxViewState {
    pub pos: Pos,
    pub caret: nat,
    pub text: Seq<char>,
    pub focused: bool,
}

/// The views that can occur: the caret on a cell, or on the first of none.
pub open spec fn textbox_view_wf(s: TextBoxViewState) -> bool {
    s.caret < s.text.len() || s.caret == 0
}

/// A text field drawn at a place.
pub struct TextBoxView {
    pos: Pos,
    chars: Vec<char>,
    text: String,
    has_focus: bool,
    carret_idx: usize,
}

impl View for TextBoxView {
    type V = TextBoxViewState;

    closed spec fn view(&self) -> TextBoxViewState {
        TextBoxViewState {
            pos: self.pos,
            caret: self.carret_idx as nat,
            text: self.chars@,
            focused: self.has_focus,
        }
    }
}

/// What an unfocused field draws: its text, plainly. What a focused one draws:
/// the text before the caret highlighted, the cell under the caret inverted,
/// and the rest highlighted, each piece at its own column.
pub open spec fn textbox_draws(s: TextBoxViewState) -> Seq<DrawView> {
    if !s.focused {
        seq![DrawView { pos: s.pos, text: s.text, style: None }]
    } else {
        seq![
            DrawView {
                pos: s.pos,
                text: s.text.subrange(0, s.caret as int),
                style: Some(Style::Highlight),
            },
            DrawView {
                pos: pos_add(s.pos, Pos { r: 0, c: (s.caret % 0x10000) as u16 }),
                text: s.text.subrange(s.caret as int, s.caret + 1 as int),
                style: Some(Style::Invert),
            },
            DrawView {
                pos: pos_add(s.pos, Pos { r: 0, c: ((s.caret + 1) % 0x10000) as u16 }),
                text: s.text.subrange(s.caret + 1 as int, s.text.len() as int),
                style: Some(Style::Highlight),
            },
        ]
    }
}

/// The widget event's edit of a focused field: characters, the arrow keys
/// and the two delete keys. An unfocused field answers nothing.
pub open spec fn textbox_messages(focused: bool, e: Event) -> Seq<Message> {
    if !focused {
        seq![]
    } else {
        match e {
            Event::Char(c, m) => seq![Message::EnterChar(c, m)],
            Event::Left => seq![Message::CursorLeft],
            Event::Right => seq![Message::CursorRight],
            Event::Del => seq![Message::Del],
            Event::DelBack => seq![Message::DelBack],
            _ => seq![],
        }
    }
}

impl TextBoxView {
    #[verifier::type_invariant]
    closed spec fn inv(self) -> bool {
        &&& textbox_view_wf(self@)
        &&& self.text@ == self.chars@
    }

    fn new(pos: Pos, carret_idx: usize, text: &Vec<char>, has_focus: bool) -> (r: TextBoxView)
        requires
            carret_idx < text.len() || carret_idx == 0,
        ensures
            r@ == (TextBoxViewState {
                pos,
                caret: carret_idx as nat,
                text: shown_text(text@),
                focused: has_focus,
            }),
            textbox_view_wf(r@),
    {
        let mut chars: Vec<char> = Vec::new();
        let mut i: usize = 0;
        while i < text.len()
            invariant
                i <= text.len(),
                chars@ == shown_text(text@.subrange(0, i as int)),
            decreases text.len() - i,
        {
            let c = text[i];
            chars.push(if c == ' ' { '-' } else { c });
            proof {
                assert(text@.subrange(0, i + 1) =~= text@.subrange(0, i as int).push(c));
                assert(chars@ =~= shown_text(text@.subrange(0, i + 1)));
            }
            i = i + 1;
        }
        proof {
            assert(text@.subrange(0, text.len() as int) =~= text@);
        }
        let shown = string_of(chars.as_slice());
        TextBoxView { pos, chars, text: shown, has_focus, carret_idx }
    }

    /// The edits that an event asks of the field.
    pub fn on_event(&self, e: Event) -> (r: Vec<Message>)
        ensures
            r@ == textbox_messages(self@.focused, e),
    {
        let mut msgs: Vec<Message> = Vec::new();
        if !self.has_focus {
            proof {
                assert(msgs@ =~= textbox_messages(self@.focused, e));
            }
            return msgs;
        }
        match e {
            Event::Char(c, m) => msgs.push(Message::EnterChar(c, m)),
            Event::Left => msgs.push(Message::CursorLeft),
            Event::Right => msgs.push(Message::CursorRight),
            Event::Del => msgs.push(Message::Del),
            Event::DelBack => msgs.push(Message::DelBack),
            _ => {},
        }
        proof {
            assert(msgs@ =~= textbox_messages(self@.focused, e));
        }
        msgs
    }

    /// The pieces of text the field draws.
    pub fn draws(&self) -> (r: Vec<Draw>)
        requires
            self@.focused ==> self@.caret < self@.text.len(),
        ensures
            draws_view(r@) == textbox_draws(self@),
    {
        proof {
            use_type_invariant(self);
        }
        let mut r: Vec<Draw> = Vec::new();
        if self.has_focus {
            let caret = self.carret_idx;
            let len = self.chars.len();
            let col = (caret % 0x10000) as u16;
            r.push(Draw { pos: self.pos, text: substring(&self.chars, 0, caret), style: Some(Style::Highlight) });
            r.push(Draw {
                pos: self.pos + Pos { r: 0, c: col },
                text: substring(&self.chars, caret, caret + 1),
                style: Some(Style::Invert),
            });
            r.push(Draw {
                pos: self.pos + Pos { r: 0, c: col.wrapping_add(1) },
                text: substring(&self.chars, caret + 1, len),
                style: Some(Style::Highlight),
            });
        } else {
            r.push(Draw { pos: self.pos, text: self.text.clone(), style: None });
        }
        proof {
            assert(draws_view(r@) =~= textbox_draws(self@));
        }
        r
    }

    pub fn draw<R: Renderer>(&self, renderer: &mut R)
        requires
            self@.focused ==> self@.caret < self@.text.len(),
    {
        let d = self.draws();
        render_all(renderer, &d);
    }
}

/// A blank, unfocused field of `width` cells.
pub fn textbox(width: usize) -> (r: TextBox)
    ensures
        r.state() == (TextBoxState {
            width: width as nat,
            caret: 0,
            text: Seq::new(width as nat, |i: int| ' '),
            focused: false,
        }),
{
    TextBox::new(width)
}

} // verus!
