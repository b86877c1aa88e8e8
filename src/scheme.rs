//! The deep-link scheme: a value set once, at setup, and read afterwards.

use vstd::prelude::*;

verus! {

/// Whether a cell holding `held` accepts a value: only while it is empty.
pub open spec fn accepts_set(held: Option<Seq<char>>) -> bool {
    held is None
}

/// What a cell holding `held` holds after an attempt to set it to `value`:
/// the first value set stays.
pub open spec fn after_set(held: Option<Seq<char>>, value: Seq<char>) -> Option<Seq<char>> {
    match held {
        Some(v) => Some(v),
        None => Some(value),
    }
}

/// A write-once cell for the deep-link scheme.
pub struct SchemeCell {
    value: Option<String>,
}

impl View for SchemeCell {
    type V = Option<Seq<char>>;

    closed spec fn view(&self) -> Option<Seq<char>> {
        match self.value {
            Some(s) => Some(s@),
            None => None,
        }
    }
}

impl SchemeCell {
    /// A cell that holds nothing yet.
    pub fn new() -> (c: SchemeCell)
        ensures
            c@ is None,
    {
        SchemeCell { value: None }
    }

    /// Sets the scheme. The first call succeeds; every later one is refused
    /// and hands its value back, leaving the cell as it was.
    pub fn set(&mut self, scheme: String) -> (r: Result<(), String>)
        ensures
            r is Ok <==> accepts_set(old(self)@),
            r is Err ==> r->Err_0@ == scheme@,
            final(self)@ == after_set(old(self)@, scheme@),
    {
        if self.value.is_some() {
            Err(scheme)
        } else {
            self.value = Some(scheme);
            Ok(())
        }
    }

    /// Whether the scheme has been set.
    pub fn is_set(&self) -> (r: bool)
        ensures
            r == self@ is Some,
    {
        self.value.is_some()
    }

    /// The scheme, once set.
    pub fn get(&self) -> (r: Option<&String>)
        ensures
            match r {
                Some(s) => self@ == Some(s@),
                None => self@ is None,
            },
    {
        self.value.as_ref()
    }
}

/// Once a scheme is set it can be read back, and a second attempt to set it
/// is refused and changes nothing.
pub proof fn lemma_scheme_set_once(first: Seq<char>, second: Seq<char>)
    ensures
        accepts_set(None),
        after_set(None, first) == Some(first),
        !accepts_set(after_set(None, first)),
        after_set(after_set(None, first), second) == Some(first),
{
}

} // verus!
