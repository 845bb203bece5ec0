//! Character classes and whitespace trimming, as the standard library
//! defines them.

use vstd::prelude::*;

verus! {

/// Whether the character is a letter or a number in the sense of Unicode:
/// what `char::is_alphanumeric` returns.
pub uninterp spec fn alphanumeric(c: char) -> bool;

/// Whether the character is white space in the sense of Unicode: what
/// `char::is_whitespace` returns, by which `str::trim` tells what to remove.
pub uninterp spec fn whitespace(c: char) -> bool;

/// `char::is_alphanumeric` consults tables of the Unicode character database.
/// Its result depends on the character alone and goes by the name
/// `alphanumeric`; nothing else is claimed of it.
pub assume_specification[ char::is_alphanumeric ](c: char) -> (b: bool)
    ensures
        b == alphanumeric(c),
;

/// The punctuation characters of ASCII: the four ranges `!` to `/`, `:` to
/// `@`, `[` to `` ` `` and `{` to `~`.
pub open spec fn ascii_punctuation(c: char) -> bool {
    ||| '!' <= c <= '/'
    ||| ':' <= c <= '@'
    ||| '[' <= c <= '`'
    ||| '{' <= c <= '~'
}

/// `char::is_ascii_punctuation` is documented as membership in the four
/// ranges that `ascii_punctuation` lists.
pub assume_specification[ char::is_ascii_punctuation ](c: &char) -> (b: bool)
    ensures
        b == ascii_punctuation(*c),
;

/// How many characters at the front of `s` are white space.
pub open spec fn leading_whitespace(s: Seq<char>) -> nat
    decreases s.len(),
{
    if s.len() > 0 && whitespace(s.first()) {
        1 + leading_whitespace(s.drop_first())
    } else {
        0
    }
}

/// How many characters at the back of `s` are white space.
pub open spec fn trailing_whitespace(s: Seq<char>) -> nat
    decreases s.len(),
{
    if s.len() > 0 && whitespace(s.last()) {
        1 + trailing_whitespace(s.drop_last())
    } else {
        0
    }
}

/// `s` without the white space at its front and at its back.
pub open spec fn trimmed(s: Seq<char>) -> Seq<char> {
    let start = leading_whitespace(s);
    if start == s.len() {
        Seq::empty()
    } else {
        s.subrange(start as int, s.len() - trailing_whitespace(s))
    }
}

/// `str::trim` returns the slice that is left when leading and trailing
/// white space, in the sense of Unicode, is removed: the view of that slice
/// is `trimmed` of the view of the input, so it neither starts nor ends with
/// white space.
pub assume_specification[ str::trim ](s: &str) -> (r: &str)
    ensures
        r@ == trimmed(s@),
        r@.len() > 0 ==> !whitespace(r@.first()) && !whitespace(r@.last()),
;

/// The leading white space of `s` is a prefix made of white space only, and
/// it ends at a character that is none, or at the end of `s`.
pub proof fn lemma_leading_whitespace(s: Seq<char>)
    ensures
        leading_whitespace(s) <= s.len(),
        forall|i: int| 0 <= i < leading_whitespace(s) ==> whitespace(#[trigger] s[i]),
        leading_whitespace(s) < s.len() ==> !whitespace(s[leading_whitespace(s) as int]),
    decreases s.len(),
{
    if s.len() > 0 && whitespace(s.first()) {
        let rest = s.drop_first();
        lemma_leading_whitespace(rest);
        assert forall|i: int| 0 <= i < leading_whitespace(s) implies whitespace(
            #[trigger] s[i],
        ) by {
            if i > 0 {
                assert(s[i] == rest[i - 1]);
            }
        }
        if leading_whitespace(s) < s.len() {
            assert(s[leading_whitespace(s) as int] == rest[leading_whitespace(rest) as int]);
        }
    }
}

/// The trailing white space of `s` is a suffix made of white space only, and
/// the character before it, if there is one, is none.
pub proof fn lemma_trailing_whitespace(s: Seq<char>)
    ensures
        trailing_whitespace(s) <= s.len(),
        forall|i: int|
            s.len() - trailing_whitespace(s) <= i < s.len() ==> whitespace(#[trigger] s[i]),
        trailing_whitespace(s) < s.len() ==> !whitespace(
            s[s.len() - trailing_whitespace(s) - 1],
        ),
    decreases s.len(),
{
    if s.len() > 0 && whitespace(s.last()) {
        let rest = s.drop_last();
        lemma_trailing_whitespace(rest);
        assert forall|i: int|
            s.len() - trailing_whitespace(s) <= i < s.len() implies whitespace(
            #[trigger] s[i],
        ) by {
            if i < s.len() - 1 {
                assert(s[i] == rest[i]);
            }
        }
        if trailing_whitespace(s) < s.len() {
            assert(s[s.len() - trailing_whitespace(s) - 1] == rest[rest.len()
                - trailing_whitespace(rest) - 1]);
        }
    }
}

/// A text that neither starts nor ends with white space is its own trimmed
/// form.
pub proof fn lemma_trimmed_of_clean(s: Seq<char>)
    requires
        s.len() > 0 ==> !whitespace(s.first()) && !whitespace(s.last()),
    ensures
        trimmed(s) == s,
{
    if s.len() > 0 {
        assert(s.subrange(0, s.len() as int) =~= s);
    }
}

/// What `trimmed` returns is a stretch of the input between two runs of
/// white space, and it neither starts nor ends with white space.
pub proof fn lemma_trimmed_shape(s: Seq<char>)
    ensures
        trimmed(s).len() <= s.len(),
        trimmed(s).len() > 0 ==> !whitespace(trimmed(s).first()) && !whitespace(
            trimmed(s).last(),
        ),
        trimmed(s).len() > 0 ==> leading_whitespace(s) + trimmed(s).len() + trailing_whitespace(s)
            == s.len(),
        trimmed(s).len() == 0 ==> forall|i: int| 0 <= i < s.len() ==> whitespace(#[trigger] s[i]),
{
    lemma_leading_whitespace(s);
    lemma_trailing_whitespace(s);
    let start = leading_whitespace(s);
    let back = trailing_whitespace(s);
    if start < s.len() {
        // The character at `start` is no white space, so the trailing run
        // stops behind it.
        assert(start + back < s.len() + 1) by {
            if start + back > s.len() {
                assert(whitespace(s[start as int]));
            }
        }
        if start + back == s.len() {
            assert(whitespace(s[start as int]));
        }
    }
}

/// Trimming a second time changes nothing.
pub proof fn lemma_trimmed_idempotent(s: Seq<char>)
    ensures
        trimmed(trimmed(s)) == trimmed(s),
{
    lemma_trimmed_shape(s);
    lemma_trimmed_of_clean(trimmed(s));
}

} // verus!
