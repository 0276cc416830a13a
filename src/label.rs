//! A fixed piece of text.

use vstd::prelude::*;
use crate::interaction::{render_all, Draw, DrawView, Event, Renderer, draws_view};
use crate::pos::Pos;

verus! {

/// Text shown at a fixed place; it takes no input.
pub struct Label {
    pos: Pos,
    text: String,
}

/// A label at `pos` showing `text`.
pub fn label(pos: Pos, text: &str) -> (r: Label)
    ensures
        r.spec_pos() == pos,
        r.spec_text() == text@,
{
    Label { pos, text: text.to_owned() }
}

impl Label {
    pub closed spec fn spec_pos(self) -> Pos {
        self.pos
    }

    pub closed spec fn spec_text(self) -> Seq<char> {
        self.text@
    }

    /// The label's text, drawn plainly at its place.
    pub fn draws(&self) -> (r: Vec<Draw>)
        ensures
            draws_view(r@) == seq![DrawView { pos: self.spec_pos(), text: self.spec_text(), style: None }],
    {
        let mut r: Vec<Draw> = Vec::new();
        r.push(Draw { pos: self.pos, text: self.text.clone(), style: None });
        proof {
            assert(draws_view(r@) =~= seq![DrawView { pos: self.spec_pos(), text: self.spec_text(), style: None }]);
        }
        r
    }

    pub fn draw<R: Renderer>(&self, renderer: &mut R) {
        let d = self.draws();
        render_all(renderer, &d);
    }

    /// A label answers no event.
    pub fn on_event(&self, e: Event) -> (r: Vec<()>)
        ensures
            r@.len() == 0,
    {
        Vec::new()
    }
}

} // verus!
