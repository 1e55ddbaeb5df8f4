//! Text view of string collections.
//!
//! Contracts in this crate compare widget contents by their text, not by
//! `String` identity, so collections of strings are viewed as sequences of
//! character sequences.

use vstd::prelude::*;

verus! {

/// The texts of a sequence of strings: each entry replaced by its characters.
pub open spec fn texts(strings: Seq<String>) -> Seq<Seq<char>> {
    Seq::new(strings.len(), |i: int| strings[i]@)
}

/// Appending a string appends its text.
pub proof fn lemma_texts_push(strings: Seq<String>, s: String)
    ensures
        texts(strings.push(s)) == texts(strings).push(s@),
{
    assert(texts(strings.push(s)) =~= texts(strings).push(s@));
}

} // verus!
