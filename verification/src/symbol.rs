//! Names for functions and methods.

use vstd::prelude::*;

verus! {

/// The name of a registered function or of a method on a host value.
///
/// A symbol is an ordinary owned string; it is compared by its characters.
#[derive(Debug)]
pub struct Symbol {
    name: String,
}

impl View for Symbol {
    type V = Seq<char>;

    closed spec fn view(&self) -> Seq<char> {
        self.name@
    }
}

impl Symbol {
    /// Wraps an owned string as a symbol.
    pub fn new(name: String) -> (s: Symbol)
        ensures
            s@ == name@,
    {
        Symbol { name }
    }

    /// Builds a symbol from a string slice.
    pub fn from(name: &str) -> (s: Symbol)
        ensures
            s@ == name@,
    {
        Symbol { name: name.to_owned() }
    }

    /// Returns the symbol's characters.
    pub fn as_str(&self) -> (r: &str)
        ensures
            r@ == self@,
    {
        self.name.as_str()
    }

    /// Returns true if the two symbols spell the same name.
    pub fn same_name(&self, other: &Symbol) -> (r: bool)
        ensures
            r == (self@ == other@),
    {
        self.name == other.name
    }
}

impl Clone for Symbol {
    fn clone(&self) -> (r: Self)
        ensures
            r@ == self@,
    {
        Symbol { name: self.name.clone() }
    }
}

} // verus!
