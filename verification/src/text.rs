//! Text primitives shared by the breed tables: comparison, case folding and
//! the derivation of display names from identifiers.

use vstd::prelude::*;
use vstd::utf8::{encode_utf8, encode_utf8_decode_utf8};

verus! {

/// The lower-case form of a text, as `str::to_lowercase` gives it.
pub uninterp spec fn lowercase_of(text: Seq<char>) -> Seq<char>;

/// The title-case form of a text, as `to_title_case` of the `inflector` crate
/// gives it.
pub uninterp spec fn title_case_of(text: Seq<char>) -> Seq<char>;

/// `text` with every occurrence of `from` exchanged for `to`.
pub open spec fn with_replaced(text: Seq<char>, from: char, to: char) -> Seq<char> {
    Seq::new(text.len(), |i: int| if text[i] == from { to } else { text[i] })
}

/// `str::to_lowercase` folds a string to lower case by the rules of Unicode,
/// which know no locale. The claim made here is only that the result is a
/// fixed function of the characters of `text`, named [`lowercase_of`]; what
/// that function is on a given text is not stated.
pub assume_specification[ str::to_lowercase ](text: &str) -> (lowered: String)
    ensures
        lowered@ == lowercase_of(text@),
;

/// `inflector::cases::titlecase::to_title_case` walks through its argument
/// once, starts a word wherever a capital letter follows a small one or a
/// separator was passed, and writes the words with a space between them and
/// a capital at the start of each. The claim made here is only that the
/// result is a fixed function of the characters of the argument, named
/// [`title_case_of`]; what that function is on a given text is not stated.
pub assume_specification[ inflector::cases::titlecase::to_title_case ](
    non_title_case_string: &str,
) -> (title: String)
    ensures
        title@ == title_case_of(non_title_case_string@),
;

/// `str::replace` with a `char` as the pattern: the result holds the
/// characters of `text` in order, with `to` in the place of every character
/// that equals `from`.
#[verifier::external_body]
pub(crate) fn replace_char(text: &str, from: char, to: char) -> (replaced: String)
    ensures
        replaced@ == with_replaced(text@, from, to),
{
    text.replace(from, to.encode_utf8(&mut [0u8; 4]))
}

/// Whether two strings hold the same characters.
pub fn same_text(a: &str, b: &str) -> (same: bool)
    ensures
        same == (a@ == b@),
{
    let x = a.as_bytes();
    let y = b.as_bytes();
    proof {
        // Two texts with the same bytes are the same text: decoding gives
        // each of them back.
        encode_utf8_decode_utf8(a@);
        encode_utf8_decode_utf8(b@);
    }
    if x.len() != y.len() {
        return false;
    }
    let mut i: usize = 0;
    while i < x.len()
        invariant
            i <= x.len(),
            x.len() == y.len(),
            x@ == encode_utf8(a@),
            y@ == encode_utf8(b@),
            forall|j: int| 0 <= j < i ==> x@[j] == y@[j],
        decreases x.len() - i,
    {
        if x[i] != y[i] {
            return false;
        }
        i += 1;
    }
    assert(x@ =~= y@);
    true
}

} // verus!
