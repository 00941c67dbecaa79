//! ISBNs as people write them, and as the providers want them.

use vstd::prelude::*;
use vstd::string::{StrSliceExecFns, StringExecFns};

verus! {

/// Whether a character is written between the parts of an ISBN.
pub open spec fn is_separator(c: char) -> bool {
    c == '-'
}

/// An ISBN without the separators between its parts.
pub open spec fn without_separators(isbn: Seq<char>) -> Seq<char> {
    isbn.filter(|c: char| !is_separator(c))
}

/// Takes the separators out of an ISBN.
pub fn strip_separators(isbn: &str) -> (r: String)
    ensures
        r@ == without_separators(isbn@),
{
    let len = isbn.unicode_len();
    let mut out = String::new();
    let mut i: usize = 0;
    proof {
        reveal(Seq::filter);
        assert(isbn@.take(0) =~= Seq::<char>::empty());
    }
    while i < len
        invariant
            i <= len,
            len == isbn@.len(),
            out@ == without_separators(isbn@.take(i as int)),
        decreases len - i,
    {
        let c = isbn.get_char(i);
        proof {
            reveal(Seq::filter);
            assert(isbn@.take(i + 1).drop_last() =~= isbn@.take(i as int));
            assert(isbn@.take(i + 1).last() == c);
        }
        if c != '-' {
            let one = isbn.substring_char(i, i + 1);
            assert(one@ =~= seq![c]);
            out.append(one);
            assert(out@ =~= without_separators(isbn@.take(i as int)).push(c));
        }
        i += 1;
    }
    assert(isbn@.take(len as int) =~= isbn@);
    out
}

} // verus!
