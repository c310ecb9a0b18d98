//! Small verified helpers on strings, stated over their character sequences.

use vstd::prelude::*;
use vstd::utf8::encode_utf8;
use vstd::utf8::encode_utf8_decode_utf8;

verus! {

/// `String::push` of std appends one character to the end of the string and
/// leaves what was there untouched.
pub assume_specification[ String::push ](s: &mut String, c: char)
    ensures
        final(s)@ == old(s)@.push(c),
;

/// A text is a single output unit when it is exactly one character long
/// (`"i"`, `"ā"`, but neither `"ai"` nor the empty text).
pub open spec fn is_single_unit(text: Seq<char>) -> bool {
    text.len() == 1
}

/// The text without its last character; the empty text stays empty.
pub open spec fn stem(text: Seq<char>) -> Seq<char> {
    if text.len() > 0 {
        text.drop_last()
    } else {
        text
    }
}

/// Two texts with the same encoding are the same text.
pub proof fn lemma_encoding_is_injective(a: Seq<char>, b: Seq<char>)
    requires
        encode_utf8(a) == encode_utf8(b),
    ensures
        a == b,
{
    encode_utf8_decode_utf8(a);
    encode_utf8_decode_utf8(b);
}

/// Whether two string slices hold the same characters.
pub fn str_eq(a: &str, b: &str) -> (same: bool)
    ensures
        same == (a@ == b@),
{
    let x = a.as_bytes();
    let y = b.as_bytes();
    if x.len() != y.len() {
        return false;
    }
    let n: usize = x.len();
    let mut i: usize = 0;
    while i < n
        invariant
            i <= n,
            n == x@.len(),
            n == y@.len(),
            x@ == encode_utf8(a@),
            y@ == encode_utf8(b@),
            forall|j: int| 0 <= j < i ==> x@[j] == y@[j],
        decreases n - i,
    {
        if x[i] != y[i] {
            return false;
        }
        i += 1;
    }
    proof {
        assert(x@ =~= y@);
        lemma_encoding_is_injective(a@, b@);
    }
    true
}

/// The characters of a string slice, in order.
pub fn chars_of(text: &str) -> (chars: Vec<char>)
    ensures
        chars@ == text@,
{
    let mut chars: Vec<char> = Vec::new();
    for c in it: text.chars()
        invariant
            chars@ == it.seq().take(it.index()),
    {
        chars.push(c);
    }
    chars
}

/// Whether a string slice is a single output unit.
pub fn has_single_unit(text: &str) -> (single: bool)
    ensures
        single == is_single_unit(text@),
{
    text.unicode_len() == 1
}

/// The slice without its last character; the empty slice stays empty.
pub fn stem_of(text: &str) -> (head: &str)
    ensures
        head@ == stem(text@),
{
    let n: usize = text.unicode_len();
    if n == 0 {
        text
    } else {
        text.substring_char(0, n - 1)
    }
}

} // verus!
