//! Character-level string helpers: equality, and the whitespace
//! normalization applied to flavor text fetched from the species API.

use vstd::prelude::*;
use vstd::string::StrSliceExecFns;

verus! {

/// The normalized form of a text: every line-feed and every form-feed
/// character becomes exactly one space; no other character is altered.
pub open spec fn normalized(s: Seq<char>) -> Seq<char> {
    s.map(|i: int, c: char| if c == '\n' || c == '\u{000c}' { ' ' } else { c })
}

/// Normalization touches only line feeds and form feeds: the result has the
/// same length, and every other character is kept as it is.
pub proof fn lemma_normalized_pointwise(s: Seq<char>)
    ensures
        normalized(s).len() == s.len(),
        forall|i: int| 0 <= i < s.len() && (s[i] == '\n' || s[i] == '\u{000c}')
            ==> #[trigger] normalized(s)[i] == ' ',
        forall|i: int| 0 <= i < s.len() && s[i] != '\n' && s[i] != '\u{000c}'
            ==> #[trigger] normalized(s)[i] == s[i],
{
}

/// Character-by-character string equality.
pub fn str_eq(a: &str, b: &str) -> (r: bool)
    ensures
        r == (a@ == b@),
{
    let a_len = a.unicode_len();
    let b_len = b.unicode_len();
    if a_len != b_len {
        return false;
    }
    let mut i: usize = 0;
    while i < a_len
        invariant
            a_len == a@.len(),
            b_len == b@.len(),
            a_len == b_len,
            i <= a_len,
            forall|j: int| 0 <= j < i ==> a@[j] == b@[j],
        decreases a_len - i,
    {
        if a.get_char(i) != b.get_char(i) {
            return false;
        }
        i += 1;
    }
    proof {
        assert(a@ =~= b@);
    }
    true
}

/// Relies on String::push: appends exactly one character to the string.
#[verifier::external_body]
fn push_char(s: &mut String, c: char)
    ensures
        final(s)@ == old(s)@.push(c),
{
    s.push(c);
}

/// Replaces every line-feed and every form-feed character with a single
/// space, leaving all other characters untouched.
pub fn normalize_text(text: &str) -> (r: String)
    ensures
        r@ == normalized(text@),
{
    let len = text.unicode_len();
    let mut out = String::new();
    let mut i: usize = 0;
    while i < len
        invariant
            len == text@.len(),
            i <= len,
            out@ =~= normalized(text@).take(i as int),
        decreases len - i,
    {
        let c = text.get_char(i);
        let kept = if c == '\n' || c == '\u{000c}' {
            ' '
        } else {
            c
        };
        push_char(&mut out, kept);
        i += 1;
    }
    proof {
        assert(out@ =~= normalized(text@));
    }
    out
}

} // verus!
