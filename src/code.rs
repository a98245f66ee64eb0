//! A piece of emitted source text.
use vstd::prelude::*;

verus! {

/// Emitted source text, grown by appending other pieces.
pub struct Code {
    text: String,
}

impl View for Code {
    type V = Seq<char>;

    closed spec fn view(&self) -> Seq<char> {
        self.text@
    }
}

impl Code {
    pub fn new(text: String) -> (r: Code)
        ensures
            r@ == text@,
    {
        Code { text }
    }

    /// The text held.
    pub fn as_str(&self) -> (r: &str)
        ensures
            r@ == self@,
    {
        self.text.as_str()
    }

    /// The text held, as an owned string.
    pub fn into_string(self) -> (r: String)
        ensures
            r@ == self@,
    {
        self.text
    }

    /// Appends the text of `value`.
    pub fn push_str(&mut self, value: &Code)
        ensures
            final(self)@ == old(self)@ + value@,
    {
        self.text.append(value.text.as_str());
    }
}

} // verus!
