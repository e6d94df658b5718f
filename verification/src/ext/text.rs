//! Trusted view of the standard string functions the library calls.
use vstd::prelude::*;

verus! {

/// Whether `c` has the Unicode `White_Space` property, as `char::is_whitespace`
/// defines it.
pub open spec fn is_unicode_whitespace(c: char) -> bool {
    let u = c as u32;
    ||| 0x9 <= u <= 0xD
    ||| u == 0x20
    ||| u == 0x85
    ||| u == 0xA0
    ||| u == 0x1680
    ||| 0x2000 <= u <= 0x200A
    ||| u == 0x2028
    ||| u == 0x2029
    ||| u == 0x202F
    ||| u == 0x205F
    ||| u == 0x3000
}

/// `s` without its leading whitespace.
pub open spec fn trim_start_whitespace(s: Seq<char>) -> Seq<char>
    decreases s.len(),
{
    if s.len() > 0 && is_unicode_whitespace(s[0]) {
        trim_start_whitespace(s.drop_first())
    } else {
        s
    }
}

/// `s` without its trailing whitespace.
pub open spec fn trim_end_whitespace(s: Seq<char>) -> Seq<char>
    decreases s.len(),
{
    if s.len() > 0 && is_unicode_whitespace(s.last()) {
        trim_end_whitespace(s.drop_last())
    } else {
        s
    }
}

/// `s` without leading and trailing whitespace.
pub open spec fn trim_whitespace(s: Seq<char>) -> Seq<char> {
    trim_end_whitespace(trim_start_whitespace(s))
}

/// `str::trim`: the slice without leading and trailing characters of the
/// Unicode `White_Space` property.
#[verifier::external_body]
pub(crate) fn str_trim(s: &str) -> (r: &str)
    ensures
        r@ == trim_whitespace(s@),
{
    s.trim()
}

/// Trimming leaves a string that neither starts nor ends with whitespace
/// as it is.
pub proof fn lemma_trim_no_whitespace(s: Seq<char>)
    requires
        forall|i: int| 0 <= i < s.len() ==> !is_unicode_whitespace(#[trigger] s[i]),
    ensures
        trim_whitespace(s) == s,
{
    if s.len() > 0 {
        assert(!is_unicode_whitespace(s[0]));
        assert(!is_unicode_whitespace(s[s.len() - 1]));
    }
}

} // verus!
