use vstd::prelude::*;

use smol_str::SmolStr;
use vstd::string::StrSliceExecFns;
use vstd::string::StringExecFns;

verus! {

/// smol_str's `SmolStr`, the string type of key text.
#[verifier::external_type_specification]
#[verifier::external_body]
pub struct ExSmolStr(SmolStr);

/// The characters a `SmolStr` holds.
pub uninterp spec fn smol_str_chars(s: SmolStr) -> Seq<char>;

/// `SmolStr::new`: the new string holds a copy of the characters of `text`
/// (the source copies the `&str` into an inline or shared buffer and hands it back by
/// `as_str`).
#[verifier::external_body]
pub(crate) fn smol_str_new(text: &str) -> (s: SmolStr)
    ensures
        smol_str_chars(s) == text@,
{
    SmolStr::new(text)
}

/// The characters that `char::to_lowercase` yields for `c`.
pub uninterp spec fn char_lowercase_chars(c: char) -> Seq<char>;

/// `char::to_lowercase`, collected into a `String`. Its documentation promises one or more
/// characters; which ones the Unicode tables decide, and that is left unsaid here.
#[verifier::external_body]
fn char_lowercase(c: char) -> (r: String)
    ensures
        r@ == char_lowercase_chars(c),
        r@.len() >= 1,
{
    c.to_lowercase().collect()
}

/// The text with every character replaced by its lowercase mapping, in order.
pub open spec fn lowercase_text(text: Seq<char>) -> Seq<char>
    decreases text.len(),
{
    if text.len() == 0 {
        Seq::empty()
    } else {
        lowercase_text(text.drop_last()) + char_lowercase_chars(text.last())
    }
}

/// Lowercases `text` character by character, as `flat_map(char::to_lowercase)` does.
pub fn lowercase(text: &str) -> (r: String)
    ensures
        r@ == lowercase_text(text@),
        r@.len() >= text@.len(),
{
    let n = text.unicode_len();
    let mut r = String::new();
    let mut i: usize = 0;
    while i < n
        invariant
            n == text@.len(),
            i <= n,
            r@ == lowercase_text(text@.subrange(0, i as int)),
            r@.len() >= i,
        decreases n - i,
    {
        let c = text.get_char(i);
        let low = char_lowercase(c);
        r.append(low.as_str());
        proof {
            let pre = text@.subrange(0, (i + 1) as int);
            assert(pre.drop_last() =~= text@.subrange(0, i as int));
            assert(pre.last() == c);
        }
        i = i + 1;
    }
    proof {
        assert(text@.subrange(0, n as int) =~= text@);
    }
    r
}

} // verus!
