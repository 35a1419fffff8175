//! Identifiers of the declaration model.
//!
//! An identifier is a plain byte string: the name of a type, a variant,
//! a field, a generic parameter or a sub-type tag.  Identifiers are
//! compared by content alone.

use vstd::prelude::*;

verus! {

/// An identifier, held as the bytes of its name.
#[derive(Debug)]
pub struct Ident {
    /// The bytes of the name.
    pub bytes: Vec<u8>,
}

impl View for Ident {
    type V = Seq<u8>;

    open spec fn view(&self) -> Seq<u8> {
        self.bytes@
    }
}

impl Ident {
    /// Builds an identifier from the bytes of its name.
    pub fn new(bytes: Vec<u8>) -> (r: Ident)
        ensures
            r@ == bytes@,
    {
        Ident { bytes }
    }

    /// Compares two identifiers by content.
    pub fn eq_ident(&self, other: &Ident) -> (r: bool)
        ensures
            r == (self@ == other@),
    {
        if self.bytes.len() != other.bytes.len() {
            return false;
        }
        let n = self.bytes.len();
        let mut i: usize = 0;
        while i < n
            invariant
                i <= n,
                n == self@.len(),
                n == other@.len(),
                forall|j: int| 0 <= j < i ==> self@[j] == other@[j],
            decreases n - i,
        {
            if self.bytes[i] != other.bytes[i] {
                return false;
            }
            i = i + 1;
        }
        assert(self@ =~= other@);
        true
    }

    /// Returns a copy of this identifier.
    pub fn duplicate(&self) -> (r: Ident)
        ensures
            r@ == self@,
    {
        let mut bytes: Vec<u8> = Vec::new();
        let mut i: usize = 0;
        while i < self.bytes.len()
            invariant
                i <= self@.len(),
                bytes@ == self@.subrange(0, i as int),
            decreases self@.len() - i,
        {
            bytes.push(self.bytes[i]);
            i = i + 1;
        }
        assert(bytes@ =~= self@);
        Ident { bytes }
    }
}

/// True when an identifier named `s` occurs in the list `l`.
pub open spec fn idents_have(l: Seq<Ident>, s: Seq<u8>) -> bool {
    exists|i: int| 0 <= i < l.len() && l[i]@ == s
}

/// Tests whether `name` occurs among `names`.
pub fn contains_ident(names: &Vec<Ident>, name: &Ident) -> (r: bool)
    ensures
        r == idents_have(names@, name@),
{
    let mut i: usize = 0;
    while i < names.len()
        invariant
            i <= names@.len(),
            forall|j: int| 0 <= j < i ==> names@[j]@ != name@,
        decreases names@.len() - i,
    {
        if names[i].eq_ident(name) {
            assert(names@[i as int]@ == name@);
            return true;
        }
        i = i + 1;
    }
    false
}

} // verus!
