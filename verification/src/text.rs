//! Character classes and small text scanners used by the specifier grammar.
use vstd::prelude::*;

verus! {

/// Unicode `White_Space`: the characters that the `\s` class of a regular
/// expression matches, and that `\S` excludes.
pub open spec fn is_white_space(c: char) -> bool {
    ||| ('\t' <= c && c <= '\r')
    ||| c == ' '
    ||| c == '\u{85}'
    ||| c == '\u{a0}'
    ||| c == '\u{1680}'
    ||| ('\u{2000}' <= c && c <= '\u{200a}')
    ||| c == '\u{2028}'
    ||| c == '\u{2029}'
    ||| c == '\u{202f}'
    ||| c == '\u{205f}'
    ||| c == '\u{3000}'
}

/// Whether `c` is Unicode white space.
pub(crate) fn white_space(c: char) -> (b: bool)
    ensures
        b == is_white_space(c),
{
    ('\t' <= c && c <= '\r') || c == ' ' || c == '\u{85}' || c == '\u{a0}' || c == '\u{1680}'
        || ('\u{2000}' <= c && c <= '\u{200a}') || c == '\u{2028}' || c == '\u{2029}' || c
        == '\u{202f}' || c == '\u{205f}' || c == '\u{3000}'
}

/// Nonempty text none of whose characters is white space (what `\S+` matches).
pub open spec fn is_non_blank_word(t: Seq<char>) -> bool {
    &&& t.len() > 0
    &&& forall|i: int| 0 <= i < t.len() ==> !is_white_space(#[trigger] t[i])
}

/// Membership of a character in the Unicode decimal digit class
/// (general category `Nd`), which the `\d` class of a regular expression
/// matches.
pub uninterp spec fn unicode_decimal_digit(c: char) -> bool;

/// Asks the `regex` crate whether `c` is matched by `\d` (Unicode `Nd`).
/// The contract claims that the answer is the same for the same character,
/// and, as the crate documents, that the ASCII digits are in the class.
#[verifier::external_body]
fn decimal_digit_class(c: char) -> (b: bool)
    ensures
        b == unicode_decimal_digit(c),
        ('0' <= c && c <= '9') ==> b,
{
    let mut buf = [0u8; 4];
    regex::Regex::new(r"^\d$").unwrap().is_match(c.encode_utf8(&mut buf))
}

/// Nonempty text made of Unicode decimal digits (what `\d+` matches).
pub open spec fn is_unicode_digit_run(t: Seq<char>) -> bool {
    &&& t.len() > 0
    &&& forall|i: int| 0 <= i < t.len() ==> unicode_decimal_digit(#[trigger] t[i])
}

/// An ASCII decimal digit.
pub open spec fn is_ascii_digit(c: char) -> bool {
    '0' <= c && c <= '9'
}

/// Text made of ASCII decimal digits only.
pub open spec fn all_ascii_digits(t: Seq<char>) -> bool {
    forall|i: int| 0 <= i < t.len() ==> is_ascii_digit(#[trigger] t[i])
}

/// The value of a run of ASCII decimal digits, most significant first.
pub open spec fn decimal_value(t: Seq<char>) -> nat
    decreases t.len(),
{
    if t.len() == 0 {
        0
    } else {
        decimal_value(t.drop_last()) * 10 + ((t.last() as int) - ('0' as int)) as nat
    }
}

/// The characters of `s`, in order.
pub(crate) fn chars_of(s: &str) -> (v: Vec<char>)
    ensures
        v@ == s@,
{
    let n = s.unicode_len();
    let mut v: Vec<char> = Vec::new();
    let mut i: usize = 0;
    while i < n
        invariant
            n == s@.len(),
            i <= n,
            v@ == s@.take(i as int),
        decreases n - i,
    {
        let c = s.get_char(i);
        v.push(c);
        i += 1;
        assert(v@ =~= s@.take(i as int));
    }
    assert(v@ =~= s@);
    v
}

/// Whether `v` starts with `word`.
pub(crate) fn starts_with_word(v: &Vec<char>, word: &str) -> (b: bool)
    ensures
        b == (word@.len() <= v@.len() && v@.take(word@.len() as int) == word@),
{
    let n = word.unicode_len();
    if n > v.len() {
        return false;
    }
    let mut i: usize = 0;
    while i < n
        invariant
            n == word@.len(),
            n <= v@.len(),
            i <= n,
            forall|j: int| 0 <= j < i ==> v@[j] == word@[j],
        decreases n - i,
    {
        if v[i] != word.get_char(i) {
            assert(v@.take(n as int)[i as int] != word@[i as int]);
            return false;
        }
        i += 1;
    }
    assert(v@.take(n as int) =~= word@);
    true
}

/// Whether no character of `v` from position `from` on is white space, and
/// there is at least one.
pub(crate) fn non_blank_from(v: &Vec<char>, from: usize) -> (b: bool)
    requires
        from <= v@.len(),
    ensures
        b == is_non_blank_word(v@.skip(from as int)),
{
    if from == v.len() {
        return false;
    }
    let mut i: usize = from;
    while i < v.len()
        invariant
            from <= i <= v@.len(),
            forall|j: int| from <= j < i ==> !is_white_space(#[trigger] v@[j]),
        decreases v@.len() - i,
    {
        if white_space(v[i]) {
            assert(v@.skip(from as int)[i - from] == v@[i as int]);
            return false;
        }
        i += 1;
    }
    assert forall|j: int| 0 <= j < v@.skip(from as int).len() implies !is_white_space(
        #[trigger] v@.skip(from as int)[j],
    ) by {
        assert(v@.skip(from as int)[j] == v@[from + j]);
    }
    true
}

/// Whether every character of `v` from position `from` on is a Unicode
/// decimal digit, and there is at least one.
pub(crate) fn digit_run_from(v: &Vec<char>, from: usize) -> (b: bool)
    requires
        from <= v@.len(),
    ensures
        b == is_unicode_digit_run(v@.skip(from as int)),
        from < v@.len() && all_ascii_digits(v@.skip(from as int)) ==> b,
{
    if from == v.len() {
        return false;
    }
    let mut i: usize = from;
    while i < v.len()
        invariant
            from <= i <= v@.len(),
            forall|j: int| from <= j < i ==> unicode_decimal_digit(#[trigger] v@[j]),
        decreases v@.len() - i,
    {
        if !decimal_digit_class(v[i]) {
            assert(v@.skip(from as int)[i - from] == v@[i as int]);
            assert(!is_ascii_digit(v@.skip(from as int)[i - from]));
            return false;
        }
        i += 1;
    }
    assert forall|j: int| 0 <= j < v@.skip(from as int).len() implies unicode_decimal_digit(
        #[trigger] v@.skip(from as int)[j],
    ) by {
        assert(v@.skip(from as int)[j] == v@[from + j]);
    }
    true
}

} // verus!
