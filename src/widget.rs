//! What every widget shares: focus, the tasks that an update hands to the
//! application, and building text from characters.

use vstd::prelude::*;

verus! {

/// A widget that can hold the input focus, directly or through a child.
pub trait Focusable {
    /// Whether this widget, or one of its children, has the focus.
    spec fn focused(&self) -> bool;

    fn has_focus(&self) -> (r: bool)
        ensures
            r == self.focused(),
    ;

    fn focus(&mut self);

    fn defocus(&mut self)
        ensures
            !final(self).focused(),
    ;

    /// Moves the focus one step forward through the widget's tree.
    fn next_focus(&mut self);

    /// Moves the focus one step backward through the widget's tree.
    fn prev_focus(&mut self);
}

/// What a widget's update asks of the application loop.
#[derive(Debug)]
pub enum Task<T> {
    /// End the application.
    Quit,
    /// A task for the application itself.
    App(T),
}

/// Carries out the application's tasks.
pub trait TaskProcessor<AppTask> {
    fn process(&mut self, task: &AppTask);
}

/// Relies on `String`'s `FromIterator<char>`: the string of these characters,
/// in order.
#[verifier::external_body]
pub(crate) fn string_of(chars: &[char]) -> (r: String)
    ensures
        r@ == chars@,
{
    chars.iter().collect()
}

/// `s` between two characters.
pub(crate) fn framed(open: char, s: &str, close: char) -> (r: String)
    ensures
        r@ == seq![open] + s@ + seq![close],
{
    let n = s.unicode_len();
    let mut chars: Vec<char> = Vec::new();
    chars.push(open);
    let mut i: usize = 0;
    while i < n
        invariant
            i <= n == s@.len(),
            chars@ == seq![open] + s@.subrange(0, i as int),
        decreases n - i,
    {
        chars.push(s.get_char(i));
        proof {
            assert(s@.subrange(0, i + 1) =~= s@.subrange(0, i as int).push(s@[i as int]));
            assert(chars@ =~= seq![open] + s@.subrange(0, i + 1));
        }
        i = i + 1;
    }
    chars.push(close);
    proof {
        assert(s@.subrange(0, n as int) =~= s@);
        assert(chars@ =~= seq![open] + s@ + seq![close]);
    }
    string_of(chars.as_slice())
}

/// The characters of `v` from `lo` up to `hi`, as a string.
pub(crate) fn substring(v: &Vec<char>, lo: usize, hi: usize) -> (r: String)
    requires
        lo <= hi <= v.len(),
    ensures
        r@ == v@.subrange(lo as int, hi as int),
{
    let mut part: Vec<char> = Vec::new();
    let mut i: usize = lo;
    while i < hi
        invariant
            lo <= i <= hi <= v.len(),
            part@ == v@.subrange(lo as int, i as int),
        decreases hi - i,
    {
        part.push(v[i]);
        proof {
            assert(v@.subrange(lo as int, i + 1) =~= v@.subrange(lo as int, i as int).push(v@[i as int]));
        }
        i = i + 1;
    }
    string_of(part.as_slice())
}

} // verus!
