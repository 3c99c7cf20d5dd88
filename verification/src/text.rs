//! Texts: the operations of std on strings that the library relies on, with
//! what it takes each of them to do.
//!
//! The functions marked `external_body` call std; Verus takes their contracts
//! as given.

use vstd::prelude::*;

verus! {

/// Equality of string slices, as std's `==` on `str` decides it: the two
/// hold the same characters in the same order.
#[verifier::external_body]
pub(crate) fn same_text(a: &str, b: &str) -> (r: bool)
    ensures
        r == (a@ == b@),
{
    a == b
}

/// What `str::to_lowercase` makes of a text.
pub uninterp spec fn lowercase_text(text: Seq<char>) -> Seq<char>;

/// Calls `str::to_lowercase`.  The contract only names the result.
#[verifier::external_body]
pub(crate) fn lowercase(text: &str) -> (r: String)
    ensures
        r@ == lowercase_text(text@),
{
    text.to_lowercase()
}

/// Whether the text `a` stands before the text `b` in the dictionary: at the
/// first place where they differ `a` has the lower character, or `a` ends
/// there and `b` goes on.
pub open spec fn text_lt(a: Seq<char>, b: Seq<char>) -> bool
    decreases a.len(),
{
    if a.len() == 0 {
        b.len() > 0
    } else if b.len() == 0 {
        false
    } else if a[0] == b[0] {
        text_lt(a.skip(1), b.skip(1))
    } else {
        (a[0] as int) < (b[0] as int)
    }
}

/// The order of string slices as std's `<` on `str` decides it: by the first
/// character that differs, lower code point first, and a text before each
/// text that it begins.
#[verifier::external_body]
pub(crate) fn text_before(a: &str, b: &str) -> (r: bool)
    ensures
        r == text_lt(a@, b@),
{
    a < b
}

/// What stands before a text that stands before a third stands before the
/// third.
pub proof fn lemma_text_lt_transitive(a: Seq<char>, b: Seq<char>, c: Seq<char>)
    requires
        text_lt(a, b),
        text_lt(b, c),
    ensures
        text_lt(a, c),
    decreases a.len(),
{
    if a.len() > 0 && a[0] == b[0] && b[0] == c[0] {
        lemma_text_lt_transitive(a.skip(1), b.skip(1), c.skip(1));
    }
}

/// Of two texts that differ one stands before the other.
pub proof fn lemma_text_lt_total(a: Seq<char>, b: Seq<char>)
    ensures
        text_lt(a, b) || text_lt(b, a) || a == b,
    decreases a.len(),
{
    if a.len() == 0 || b.len() == 0 {
        if a.len() == 0 && b.len() == 0 {
            assert(a =~= b);
        }
    } else if a[0] == b[0] {
        lemma_text_lt_total(a.skip(1), b.skip(1));
        if a.skip(1) == b.skip(1) {
            assert(a =~= seq![a[0]] + a.skip(1));
            assert(b =~= seq![b[0]] + b.skip(1));
        }
    }
}

/// Appends a character with `String::push`: the text is the old text with
/// the character at its end.
#[verifier::external_body]
pub(crate) fn push_char(text: &mut String, c: char)
    ensures
        final(text)@ == old(text)@.push(c),
{
    text.push(c);
}

/// Removes the last character with `String::pop`: the text is the old text
/// without its last character, and an empty text stays empty.
#[verifier::external_body]
pub(crate) fn pop_char(text: &mut String)
    ensures
        final(text)@ == without_last(old(text)@),
{
    text.pop();
}

/// A text without its last character; the empty text itself.
pub open spec fn without_last(text: Seq<char>) -> Seq<char> {
    if text.len() > 0 {
        text.drop_last()
    } else {
        text
    }
}

/// The text that std's formatting writes for a sign, a whole number, a
/// point and a number of hundredths in two digits.
pub uninterp spec fn decimal_text(sign: Seq<char>, whole: u64, hundredths: u64) -> Seq<char>;

/// Writes a decimal number with std's `format!`: the sign as given, the whole
/// part, a point, and the hundredths in two digits.  The contract only names
/// the result.
#[verifier::external_body]
pub(crate) fn write_decimal(sign: &str, whole: u64, hundredths: u64) -> (r: String)
    ensures
        r@ == decimal_text(sign@, whole, hundredths),
{
    format!("{}{}.{:02}", sign, whole, hundredths)
}

} // verus!
