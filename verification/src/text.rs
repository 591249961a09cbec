//! Assembly of one transcript fragment from recognizer segments.
//!
//! The in-process recognizer returns the text of each recognized
//! segment separately; one fragment is their concatenation with
//! leading and trailing whitespace removed.

use vstd::prelude::*;

verus! {

/// Whether a character has the Unicode `White_Space` property.
pub uninterp spec fn is_unicode_space(c: char) -> bool;

/// Relies on char::is_whitespace: whether a character is whitespace
/// depends on the character alone (the Unicode `White_Space`
/// property).
#[verifier::external_body]
fn char_is_space(c: char) -> (r: bool)
    ensures
        r == is_unicode_space(c),
{
    c.is_whitespace()
}

/// The number of whitespace characters at the front of the text.
pub open spec fn leading_spaces(s: Seq<char>) -> int
    decreases s.len(),
{
    if s.len() == 0 || !is_unicode_space(s[0]) {
        0
    } else {
        1 + leading_spaces(s.drop_first())
    }
}

/// The number of whitespace characters at the back of the text.
pub open spec fn trailing_spaces(s: Seq<char>) -> int
    decreases s.len(),
{
    if s.len() == 0 || !is_unicode_space(s.last()) {
        0
    } else {
        1 + trailing_spaces(s.drop_last())
    }
}

/// The text with leading and trailing whitespace removed.
pub open spec fn trim_chars(s: Seq<char>) -> Seq<char> {
    if leading_spaces(s) == s.len() {
        Seq::empty()
    } else {
        s.subrange(leading_spaces(s), s.len() - trailing_spaces(s))
    }
}

proof fn lemma_leading_count(s: Seq<char>, k: int)
    requires
        0 <= k <= s.len(),
        forall|j: int| 0 <= j < k ==> is_unicode_space(s[j]),
        k < s.len() ==> !is_unicode_space(s[k]),
    ensures
        leading_spaces(s) == k,
    decreases k,
{
    if k == 0 {
    } else {
        assert(is_unicode_space(s[0]));
        lemma_leading_count(s.drop_first(), k - 1);
    }
}

proof fn lemma_trailing_count(s: Seq<char>, k: int)
    requires
        0 <= k <= s.len(),
        forall|j: int| s.len() - k <= j < s.len() ==> is_unicode_space(s[j]),
        k < s.len() ==> !is_unicode_space(s[s.len() - k - 1]),
    ensures
        trailing_spaces(s) == k,
    decreases k,
{
    if k == 0 {
    } else {
        assert(is_unicode_space(s.last()));
        lemma_trailing_count(s.drop_last(), k - 1);
    }
}

/// Removes leading and trailing whitespace from a text.
pub fn trim_spaces(s: &str) -> (r: String)
    ensures
        r@ == trim_chars(s@),
{
    let n = s.unicode_len();
    let mut lo: usize = 0;
    while lo < n && char_is_space(s.get_char(lo))
        invariant
            n == s@.len(),
            lo <= n,
            forall|j: int| 0 <= j < lo ==> is_unicode_space(s@[j]),
        decreases n - lo,
    {
        lo += 1;
    }
    let mut hi: usize = n;
    while hi > lo && char_is_space(s.get_char(hi - 1))
        invariant
            n == s@.len(),
            lo <= hi <= n,
            forall|j: int| hi <= j < n ==> is_unicode_space(s@[j]),
        decreases hi,
    {
        hi -= 1;
    }
    proof {
        if lo == n {
            lemma_leading_count(s@, n as int);
            assert(s@.subrange(n as int, n as int) =~= Seq::<char>::empty());
        } else {
            lemma_leading_count(s@, lo as int);
            assert(hi > lo) by {
                if hi == lo {
                    assert(is_unicode_space(s@[lo as int]));
                }
            }
            lemma_trailing_count(s@, n - hi);
        }
    }
    let trimmed = s.substring_char(lo, hi);
    trimmed.to_owned()
}

/// One fragment from the texts of the recognizer's segments: the
/// concatenation in segment order, trimmed of leading and trailing
/// whitespace.
pub fn assemble_fragment(segments: &Vec<String>) -> (r: String)
    ensures
        r@ == trim_chars(segments.deep_view().flatten()),
{
    let mut text = String::new();
    let n = segments.len();
    let mut i: usize = 0;
    proof {
        assert(segments.deep_view().subrange(0, 0).flatten() =~= Seq::<char>::empty());
    }
    while i < n
        invariant
            n == segments.len(),
            i <= n,
            text@ == segments.deep_view().subrange(0, i as int).flatten(),
        decreases n - i,
    {
        let ghost pre = segments.deep_view().subrange(0, i as int);
        text.append(segments[i].as_str());
        proof {
            assert(segments.deep_view()[i as int] == segments@[i as int]@);
            assert(segments.deep_view().subrange(0, i as int + 1) =~= pre.push(
                segments.deep_view()[i as int],
            ));
            pre.lemma_flatten_push(segments.deep_view()[i as int]);
        }
        i += 1;
    }
    proof {
        assert(segments.deep_view().subrange(0, n as int) =~= segments.deep_view());
    }
    trim_spaces(text.as_str())
}

} // verus!
