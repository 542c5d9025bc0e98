//! Whitespace and trimming of text, as the standard library defines them.

use vstd::prelude::*;

verus! {

/// Whether `c` has the Unicode property `White_Space`.
pub open spec fn is_whitespace(c: char) -> bool {
    let n = c as u32;
    ||| 0x09 <= n <= 0x0D
    ||| n == 0x20
    ||| n == 0x85
    ||| n == 0xA0
    ||| n == 0x1680
    ||| 0x2000 <= n <= 0x200A
    ||| n == 0x2028
    ||| n == 0x2029
    ||| n == 0x202F
    ||| n == 0x205F
    ||| n == 0x3000
}

/// `s` without its leading whitespace.
pub open spec fn trim_start(s: Seq<char>) -> Seq<char>
    decreases s.len(),
{
    if s.len() > 0 && is_whitespace(s.first()) {
        trim_start(s.drop_first())
    } else {
        s
    }
}

/// `s` without its trailing whitespace.
pub open spec fn trim_end(s: Seq<char>) -> Seq<char>
    decreases s.len(),
{
    if s.len() > 0 && is_whitespace(s.last()) {
        trim_end(s.drop_last())
    } else {
        s
    }
}

/// `s` without its leading and trailing whitespace.
pub open spec fn trimmed(s: Seq<char>) -> Seq<char> {
    trim_end(trim_start(s))
}

/// Whether `s` consists of whitespace only; the empty text does.
pub open spec fn is_blank(s: Seq<char>) -> bool {
    forall|i: int| 0 <= i < s.len() ==> is_whitespace(#[trigger] s[i])
}

/// `str::trim` returns the text between the first and the last character
/// that is not whitespace, where whitespace is the Unicode property
/// `White_Space`. Nothing is proved of it here: the contract restates the
/// standard library's documentation.
pub assume_specification[ str::trim ](s: &str) -> (r: &str)
    ensures
        r@ == trimmed(s@),
;

/// What is left after trimming the front is a suffix of the text, preceded by
/// whitespace only, and does not start with whitespace.
pub proof fn lemma_trim_start(s: Seq<char>)
    ensures
        trim_start(s).len() <= s.len(),
        trim_start(s) == s.skip(s.len() - trim_start(s).len()),
        is_blank(s.take(s.len() - trim_start(s).len())),
        trim_start(s).len() > 0 ==> !is_whitespace(trim_start(s).first()),
    decreases s.len(),
{
    if s.len() > 0 && is_whitespace(s.first()) {
        let rest = s.drop_first();
        lemma_trim_start(rest);
        let kept = trim_start(rest);
        let cut = s.len() - kept.len();
        assert(rest.skip(rest.len() - kept.len()) == s.skip(cut));
        assert forall|i: int| 0 <= i < cut implies is_whitespace(#[trigger] s.take(cut)[i]) by {
            if i > 0 {
                assert(s.take(cut)[i] == rest.take(cut - 1)[i - 1]);
            }
        }
    } else {
        assert(s.skip(0) == s);
    }
}

/// What is left after trimming the back is a prefix of the text, followed by
/// whitespace only, and does not end with whitespace.
pub proof fn lemma_trim_end(s: Seq<char>)
    ensures
        trim_end(s).len() <= s.len(),
        trim_end(s) == s.take(trim_end(s).len() as int),
        is_blank(s.skip(trim_end(s).len() as int)),
        trim_end(s).len() > 0 ==> !is_whitespace(trim_end(s).last()),
    decreases s.len(),
{
    if s.len() > 0 && is_whitespace(s.last()) {
        let rest = s.drop_last();
        lemma_trim_end(rest);
        let kept = trim_end(rest).len() as int;
        assert(rest.take(kept) == s.take(kept));
        assert forall|i: int| 0 <= i < s.len() - kept implies is_whitespace(
            #[trigger] s.skip(kept)[i],
        ) by {
            if i < rest.len() - kept {
                assert(s.skip(kept)[i] == rest.skip(kept)[i]);
            }
        }
    } else {
        assert(s.take(s.len() as int) == s);
    }
}

/// Trimming leaves nothing exactly when the text is blank.
pub proof fn lemma_trimmed_empty_iff_blank(s: Seq<char>)
    ensures
        trimmed(s).len() == 0 <==> is_blank(s),
{
    lemma_trim_start(s);
    let front = trim_start(s);
    lemma_trim_end(front);
    let cut = s.len() - front.len();
    if trimmed(s).len() == 0 {
        assert(front.skip(0) == front);
        assert forall|i: int| 0 <= i < s.len() implies is_whitespace(#[trigger] s[i]) by {
            if i < cut {
                assert(s[i] == s.take(cut)[i]);
            } else {
                assert(s[i] == front[i - cut]);
            }
        }
    }
    if is_blank(s) {
        if front.len() > 0 {
            assert(front.first() == s[cut]);
        }
    }
}

} // verus!
