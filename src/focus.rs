//! A chain of focusable widgets that the focus walks through in order.

use vstd::prelude::*;
use crate::widget::Focusable;

verus! {

/// Focusable children in order, and which of them holds the focus, if any.
/// The focus moves through a child's own tree before it moves on to the next
/// child.
pub struct FocusChain<F> {
    pub focus_idx: Option<usize>,
    pub focusables: Vec<F>,
}

/// Whether `idx` names a child of a chain of `len` children.
pub open spec fn holds_child(idx: Option<usize>, len: nat) -> bool {
    idx is Some && idx->0 < len
}

impl<F: Focusable> FocusChain<F> {
    /// An empty chain without focus.
    pub fn new() -> (r: FocusChain<F>)
        ensures
            r.focus_idx is None,
            r.focusables@.len() == 0,
    {
        FocusChain { focus_idx: None, focusables: Vec::new() }
    }

    /// Appends a child at the end of the chain.
    pub fn push(&mut self, focusable: F)
        ensures
            final(self).focusables@ == old(self).focusables@.push(focusable),
            final(self).focus_idx == old(self).focus_idx,
    {
        self.focusables.push(focusable);
    }

    /// Takes the focus from every child, and from the chain.
    pub fn defocus_all(&mut self)
        ensures
            final(self).focusables@.len() == old(self).focusables@.len(),
            forall|j: int| 0 <= j < final(self).focusables@.len() ==> !(#[trigger] final(self).focusables@[j].focused()),
            final(self).focus_idx is None,
    {
        let mut i: usize = 0;
        while i < self.focusables.len()
            invariant
                i <= self.focusables@.len(),
                self.focusables@.len() == old(self).focusables@.len(),
                forall|j: int| 0 <= j < i ==> !(#[trigger] self.focusables@[j].focused()),
            decreases self.focusables@.len() - i,
        {
            self.focusables[i].defocus();
            i = i + 1;
        }
        self.focus_idx = None;
    }

    /// Takes the focus from every child (which matters where a child is
    /// shared with its owner), then removes them all.
    pub fn clear(&mut self)
        ensures
            final(self).focusables@.len() == 0,
            final(self).focus_idx is None,
    {
        self.defocus_all();
        self.focusables.clear();
    }

    /// Moves the focus one step forward: through the focused child's tree
    /// first, then into the next child's, and off the chain after the last.
    /// From no focus, it enters the first child.
    pub fn advance(&mut self)
        ensures
            final(self).focusables@.len() == old(self).focusables@.len(),
            old(self).focusables@.len() == 0 ==> final(self).focus_idx is None,
            !holds_child(old(self).focus_idx, old(self).focusables@.len())
                && old(self).focusables@.len() > 0 ==> {
                &&& final(self).focus_idx == Some(0usize)
                &&& forall|j: int| 0 < j < old(self).focusables@.len()
                    ==> final(self).focusables@[j] == old(self).focusables@[j]
            },
            holds_child(old(self).focus_idx, old(self).focusables@.len()) ==> {
                let i = old(self).focus_idx->0 as int;
                let n = old(self).focusables@.len();
                &&& final(self).focusables@[i].focused() ==> final(self).focus_idx == Some(i as usize)
                &&& !final(self).focusables@[i].focused() && i == n - 1 ==> final(self).focus_idx is None
                &&& !final(self).focusables@[i].focused() && i < n - 1
                    ==> final(self).focus_idx == Some((i + 1) as usize)
                &&& forall|j: int| 0 <= j < n && j != i && j != i + 1
                    ==> final(self).focusables@[j] == old(self).focusables@[j]
                &&& final(self).focusables@[i].focused() && i + 1 < n
                    ==> final(self).focusables@[i + 1] == old(self).focusables@[i + 1]
            },
    {
        let len = self.focusables.len();
        match self.focus_idx {
            Some(idx) if idx < len => {
                self.focusables[idx].next_focus();
                if self.focusables[idx].has_focus() {
                    self.focus_idx = Some(idx);
                } else if idx == len - 1 {
                    self.focus_idx = None;
                } else {
                    self.focusables[idx + 1].next_focus();
                    self.focus_idx = Some(idx + 1);
                }
            },
            _ => {
                if len == 0 {
                    self.focus_idx = None;
                } else {
                    self.focusables[0].next_focus();
                    self.focus_idx = Some(0);
                }
            },
        }
    }

    /// Moves the focus one step backward: through the focused child's tree
    /// first, then into the previous child's, and off the chain before the
    /// first. From no focus, it enters the last child.
    pub fn retreat(&mut self)
        ensures
            final(self).focusables@.len() == old(self).focusables@.len(),
            old(self).focusables@.len() == 0 ==> final(self).focus_idx is None,
            !holds_child(old(self).focus_idx, old(self).focusables@.len())
                && old(self).focusables@.len() > 0 ==> {
                let n = old(self).focusables@.len();
                &&& final(self).focus_idx == Some((n - 1) as usize)
                &&& forall|j: int| 0 <= j < n - 1 ==> final(self).focusables@[j] == old(self).focusables@[j]
            },
            holds_child(old(self).focus_idx, old(self).focusables@.len()) ==> {
                let i = old(self).focus_idx->0 as int;
                let n = old(self).focusables@.len();
                &&& final(self).focusables@[i].focused() ==> final(self).focus_idx == Some(i as usize)
                &&& !final(self).focusables@[i].focused() && i == 0 ==> final(self).focus_idx is None
                &&& !final(self).focusables@[i].focused() && i > 0
                    ==> final(self).focus_idx == Some((i - 1) as usize)
                &&& forall|j: int| 0 <= j < n && j != i && j != i - 1
                    ==> final(self).focusables@[j] == old(self).focusables@[j]
                &&& final(self).focusables@[i].focused() && i > 0
                    ==> final(self).focusables@[i - 1] == old(self).focusables@[i - 1]
            },
    {
        let len = self.focusables.len();
        match self.focus_idx {
            Some(idx) if idx < len => {
                self.focusables[idx].prev_focus();
                if self.focusables[idx].has_focus() {
                    self.focus_idx = Some(idx);
                } else if idx == 0 {
                    self.focus_idx = None;
                } else {
                    self.focusables[idx - 1].prev_focus();
                    self.focus_idx = Some(idx - 1);
                }
            },
            _ => {
                if len == 0 {
                    self.focus_idx = None;
                } else {
                    self.focusables[len - 1].prev_focus();
                    self.focus_idx = Some(len - 1);
                }
            },
        }
    }
}

impl<F: Focusable> Focusable for FocusChain<F> {
    open spec fn focused(&self) -> bool {
        self.focus_idx is Some
    }

    fn has_focus(&self) -> (r: bool) {
        self.focus_idx.is_some()
    }

    /// Takes the focus from every child.
    fn defocus(&mut self) {
        self.defocus_all();
    }

    /// Starts over at the first widget of the tree.
    fn focus(&mut self) {
        self.focus_idx = None;
        self.advance();
    }

    fn next_focus(&mut self) {
        self.advance();
    }

    fn prev_focus(&mut self) {
        self.retreat();
    }
}

} // verus!
