//! A push button that sends a fixed message when activated.

use vstd::prelude::*;
use crate::interaction::{draws_view, render_all, Draw, DrawView, Event, Renderer};
use crate::pos::Pos;
use crate::widget::{framed, Focusable};

verus! {

/// A button: its caption and the message it sends.
pub struct Button<M> {
    text: String,
    on_press: M,
    pub has_focus: bool,
}

/// An unfocused button showing `text` that sends `on_press`.
pub fn button<M: Copy>(text: &str, on_press: M) -> (r: Button<M>)
    ensures
        r.caption() == text@,
        r.message() == on_press,
        !r.focused(),
{
    Button { text: text.to_owned(), on_press, has_focus: false }
}

impl<M: Copy> Button<M> {
    pub closed spec fn caption(&self) -> Seq<char> {
        self.text@
    }

    pub closed spec fn message(&self) -> M {
        self.on_press
    }

    /// A view of the button at `pos`.
    pub fn view(&self, pos: Pos) -> (r: ButtonView<M>)
        ensures
            r.caption() == self.caption(),
            r.message() == self.message(),
            r.spec_pos() == pos,
            r.focused() == Focusable::focused(self),
    {
        ButtonView { text: self.text.clone(), on_press: self.on_press, pos, has_focus: self.has_focus }
    }
}

impl<M> Focusable for Button<M> {
    closed spec fn focused(&self) -> bool {
        self.has_focus
    }

    fn has_focus(&self) -> (r: bool) {
        self.has_focus
    }

    fn focus(&mut self) {
        self.has_focus = true;
    }

    fn defocus(&mut self) {
        self.has_focus = false;
    }

    /// A button is one stop of the focus: a step moves onto it or off it.
    fn next_focus(&mut self) {
        self.has_focus = !self.has_focus;
    }

    fn prev_focus(&mut self) {
        self.has_focus = !self.has_focus;
    }
}

/// A button drawn at a place.
pub struct ButtonView<M> {
    text: String,
    on_press: M,
    pos: Pos,
    has_focus: bool,
}

impl<M: Copy> ButtonView<M> {
    pub closed spec fn caption(&self) -> Seq<char> {
        self.text@
    }

    pub closed spec fn message(&self) -> M {
        self.on_press
    }

    pub closed spec fn spec_pos(&self) -> Pos {
        self.pos
    }

    pub closed spec fn focused(&self) -> bool {
        self.has_focus
    }

    /// Activating a focused button sends its message; nothing else does.
    pub fn on_event(&self, e: Event) -> (r: Vec<M>)
        ensures
            r@ == (if e == Event::Activate && self.focused() {
                seq![self.message()]
            } else {
                Seq::<M>::empty()
            }),
    {
        let mut msgs: Vec<M> = Vec::new();
        match e {
            Event::Activate => {
                if self.has_focus {
                    msgs.push(self.on_press);
                }
            },
            _ => {},
        }
        proof {
            if e == Event::Activate && self.focused() {
                assert(msgs@ =~= seq![self.message()]);
            } else {
                assert(msgs@ =~= Seq::<M>::empty());
            }
        }
        msgs
    }

    /// The caption in brackets when focused, between blanks when not.
    pub fn draws(&self) -> (r: Vec<Draw>)
        ensures
            draws_view(r@) == seq![
                DrawView {
                    pos: self.spec_pos(),
                    text: if self.focused() {
                        seq!['['] + self.caption() + seq![']']
                    } else {
                        seq![' '] + self.caption() + seq![' ']
                    },
                    style: None,
                },
            ],
    {
        let text = if self.has_focus {
            framed('[', self.text.as_str(), ']')
        } else {
            framed(' ', self.text.as_str(), ' ')
        };
        let mut r: Vec<Draw> = Vec::new();
        r.push(Draw { pos: self.pos, text, style: None });
        proof {
            assert(draws_view(r@) =~= seq![
                DrawView {
                    pos: self.spec_pos(),
                    text: if self.focused() {
                        seq!['['] + self.caption() + seq![']']
                    } else {
                        seq![' '] + self.caption() + seq![' ']
                    },
                    style: None,
                },
            ]);
        }
        r
    }

    pub fn draw<R: Renderer>(&self, renderer: &mut R) {
        let d = self.draws();
        render_all(renderer, &d);
    }
}

} // verus!
