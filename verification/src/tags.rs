//! The tag parser.
//!
//! A variant's tag annotation lists the sub-types the variant belongs
//! to, as a strict alternating token sequence: identifier, comma,
//! identifier, and so on, starting with an identifier.  A trailing comma
//! is permitted and the empty list is valid.  Any other token, or the
//! right kind of token in the wrong position, fails the parse at that
//! token's position.

use vstd::prelude::*;
use crate::ast::TagToken;
use crate::ident::Ident;

verus! {

/// The token kind the parser wanted at a failing position.
#[derive(Clone, Copy, PartialEq, Eq, Structural, Debug)]
pub enum Expected {
    /// An identifier was expected.
    Identifier,
    /// A comma was expected.
    CommaTok,
}

/// A tag parse failure: the offending token's position and the token
/// kind that was expected there.
#[derive(Debug)]
pub struct TagError {
    /// The offending token's index in its annotation's token list.
    pub index: usize,
    /// The token kind expected at that index.
    pub expected: Expected,
}

/// The token kind the alternating grammar demands at index `i`.
pub open spec fn expected_at(i: int) -> Expected {
    if i % 2 == 0 {
        Expected::Identifier
    } else {
        Expected::CommaTok
    }
}

/// True when the token at index `i` is of the kind the grammar demands:
/// an identifier at even positions, a comma at odd positions.
pub open spec fn tag_ok_at(ts: Seq<TagToken>, i: int) -> bool {
    if i % 2 == 0 {
        ts[i] is Ident
    } else {
        ts[i] is Comma
    }
}

/// True when the whole token list follows the alternating grammar.
pub open spec fn tags_wf(ts: Seq<TagToken>) -> bool {
    forall|i: int| 0 <= i < ts.len() ==> #[trigger] tag_ok_at(ts, i)
}

/// How many identifiers a well-formed list of `n` tokens carries: the
/// tokens at even positions.
pub open spec fn tag_count(n: int) -> int {
    (n + 1) / 2
}

/// The name of the `k`-th identifier of a well-formed token list.
pub open spec fn tag_name_at(ts: Seq<TagToken>, k: int) -> Seq<u8> {
    ts[2 * k]->Ident_0@
}

/// Parses a tag annotation's token list into the listed sub-type names.
///
/// Success and failure are exact: the parse succeeds if and only if the
/// tokens alternate as the grammar demands, and a failure names the
/// first offending token's position and the token kind expected there.
pub fn parse_tags(ts: &Vec<TagToken>) -> (r: Result<Vec<Ident>, TagError>)
    ensures
        match r {
            Ok(ids) => {
                &&& tags_wf(ts@)
                &&& ids@.len() == tag_count(ts@.len() as int)
                &&& forall|k: int| 0 <= k < ids@.len() ==> (#[trigger] ids@[k])@ == tag_name_at(ts@, k)
            },
            Err(e) => {
                &&& !tags_wf(ts@)
                &&& 0 <= e.index < ts@.len()
                &&& !tag_ok_at(ts@, e.index as int)
                &&& forall|i: int| 0 <= i < e.index ==> #[trigger] tag_ok_at(ts@, i)
                &&& e.expected == expected_at(e.index as int)
            },
        },
{
    let mut ids: Vec<Ident> = Vec::new();
    let mut i: usize = 0;
    while i < ts.len()
        invariant
            i <= ts@.len(),
            forall|j: int| 0 <= j < i ==> #[trigger] tag_ok_at(ts@, j),
            ids@.len() == tag_count(i as int),
            forall|k: int| 0 <= k < ids@.len() ==> (#[trigger] ids@[k])@ == tag_name_at(ts@, k),
        decreases ts@.len() - i,
    {
        if i % 2 == 0 {
            match &ts[i] {
                TagToken::Ident(name) => {
                    ids.push(name.duplicate());
                },
                _ => {
                    assert(!tag_ok_at(ts@, i as int));
                    return Err(TagError { index: i, expected: Expected::Identifier });
                },
            }
        } else {
            match &ts[i] {
                TagToken::Comma => {},
                _ => {
                    assert(!tag_ok_at(ts@, i as int));
                    return Err(TagError { index: i, expected: Expected::CommaTok });
                },
            }
        }
        i = i + 1;
    }
    Ok(ids)
}

} // verus!
