use vstd::prelude::*;
use vstd::string::StrSliceExecFns;

verus! {

/// Relies on String::push: appends exactly the one character.
#[verifier::external_body]
fn push_char(s: &mut String, c: char)
    ensures
        final(s)@ == old(s)@.push(c),
{
    s.push(c);
}

/// Relies on String::pop: removes and returns the final character, and
/// leaves an empty string unchanged.
#[verifier::external_body]
fn pop_char(s: &mut String) -> (r: Option<char>)
    ensures
        old(s)@.len() == 0 ==> r is None && final(s)@ == old(s)@,
        old(s)@.len() > 0 ==> r == Some(old(s)@.last()) && final(s)@ == old(s)@.drop_last(),
{
    s.pop()
}

/// The modal save dialog's editable state: the destination path typed so
/// far, with the cursor always at the end of the typed text.
#[derive(Debug)]
pub struct SaveDialogState {
    input: String,
}

impl SaveDialogState {
    /// The path buffer's contents.
    pub closed spec fn spec_input(&self) -> Seq<char> {
        self.input@
    }

    pub fn new() -> (s: SaveDialogState)
        ensures
            s.spec_input() == Seq::<char>::empty(),
    {
        SaveDialogState { input: String::new() }
    }

    /// Appends one typed character to the path buffer.
    pub fn add_char(&mut self, c: char)
        ensures
            final(self).spec_input() == old(self).spec_input().push(c),
    {
        push_char(&mut self.input, c);
    }

    /// Removes the last typed character; a no-op on an empty buffer.
    pub fn delete_char(&mut self)
        ensures
            final(self).spec_input() == (if old(self).spec_input().len() == 0 {
                old(self).spec_input()
            } else {
                old(self).spec_input().drop_last()
            }),
    {
        let _ = pop_char(&mut self.input);
    }

    /// The destination path typed so far.
    pub fn input(&self) -> (r: &str)
        ensures
            r@ == self.spec_input(),
    {
        self.input.as_str()
    }

    /// The cursor column within the typed text: always at its end.
    pub fn cursor(&self) -> (r: usize)
        ensures
            r == self.spec_input().len(),
    {
        self.input.as_str().unicode_len()
    }
}

impl Default for SaveDialogState {
    /// A dialog freshly opened: an empty path buffer.
    fn default() -> (s: Self)
        ensures
            s.spec_input() == Seq::<char>::empty(),
    {
        SaveDialogState { input: String::new() }
    }
}

/// Scroll position of a selectable list screen.
#[derive(Clone, Copy, Debug, PartialEq, Eq, Structural)]
pub struct ScrollListState {
    pub selected: usize,
    pub offset: usize,
}

impl ScrollListState {
    pub fn new() -> (s: ScrollListState)
        ensures
            s.selected == 0,
            s.offset == 0,
    {
        ScrollListState { selected: 0, offset: 0 }
    }
}

} // verus!
