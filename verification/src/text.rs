//! Text as sequences of characters: search, trimming, case, decimal digits.

use vstd::prelude::*;
use vstd::string::{StrSliceExecFns, StringExecFns};

verus! {

/// Whether a character is Unicode white space, as `char::is_whitespace`
/// defines it.
pub uninterp spec fn whitespace(c: char) -> bool;

/// Calls `char::is_whitespace`. Trusted: the result says whether the
/// character has the Unicode property White_Space, a function of the
/// character alone.
#[verifier::external_body]
pub(crate) fn is_whitespace(c: char) -> (b: bool)
    ensures
        b == whitespace(c),
{
    c.is_whitespace()
}

/// The position of the first character at or after `from` that is no white
/// space, or the length of the text where there is none.
pub open spec fn skip_whitespace(text: Seq<char>, from: int) -> int
    decreases text.len() - from,
{
    if from < 0 || from >= text.len() {
        text.len() as int
    } else if !whitespace(text[from]) {
        from
    } else {
        skip_whitespace(text, from + 1)
    }
}

/// The position behind the last character before `upto` that is no white
/// space, or `low` where there is none at or after `low`.
pub open spec fn drop_whitespace(text: Seq<char>, low: int, upto: int) -> int
    decreases upto - low,
{
    if upto <= low || upto > text.len() {
        low
    } else if !whitespace(text[upto - 1]) {
        upto
    } else {
        drop_whitespace(text, low, upto - 1)
    }
}

/// The text without leading and trailing white space.
pub open spec fn trimmed(text: Seq<char>) -> Seq<char> {
    let start = skip_whitespace(text, 0);
    let end = drop_whitespace(text, start, text.len() as int);
    text.subrange(start, end)
}

/// The bounds of the part of `chars[from..upto]` that is left when leading
/// and trailing white space is gone.
pub fn trim_bounds(chars: &Vec<char>, from: usize, upto: usize) -> (bounds: (usize, usize))
    requires
        from <= upto <= chars.len(),
    ensures
        from <= bounds.0 <= bounds.1 <= upto,
        chars@.subrange(bounds.0 as int, bounds.1 as int) == trimmed(
            chars@.subrange(from as int, upto as int),
        ),
{
    let ghost part = chars@.subrange(from as int, upto as int);
    let mut start = from;
    while start < upto && is_whitespace(chars[start])
        invariant
            from <= start <= upto <= chars.len(),
            part == chars@.subrange(from as int, upto as int),
            skip_whitespace(part, 0) == skip_whitespace(part, start - from),
        decreases upto - start,
    {
        assert(part[start - from] == chars@[start as int]);
        start += 1;
    }
    assert(skip_whitespace(part, 0) == start - from) by {
        if start < upto {
            assert(part[start - from] == chars@[start as int]);
        }
    }
    let mut end = upto;
    while end > start && is_whitespace(chars[end - 1])
        invariant
            from <= start <= end <= upto <= chars.len(),
            part == chars@.subrange(from as int, upto as int),
            drop_whitespace(part, start - from, part.len() as int) == drop_whitespace(
                part,
                start - from,
                end - from,
            ),
        decreases end - start,
    {
        assert(part[end - 1 - from] == chars@[end - 1]);
        end -= 1;
    }
    assert(drop_whitespace(part, start - from, part.len() as int) == end - from) by {
        if end > start {
            assert(part[end - 1 - from] == chars@[end - 1]);
        }
    }
    assert(chars@.subrange(start as int, end as int) =~= part.subrange(
        start - from,
        end - from,
    ));
    (start, end)
}

/// `prefix` stands at the start of `text`.
pub open spec fn has_prefix(text: Seq<char>, prefix: Seq<char>) -> bool {
    prefix.len() <= text.len() && text.subrange(0, prefix.len() as int) == prefix
}

/// Whether `prefix` stands in `chars` at `from`, within `chars[from..upto]`.
pub fn starts_with_at(chars: &Vec<char>, from: usize, upto: usize, prefix: &Vec<char>) -> (b: bool)
    requires
        from <= upto <= chars.len(),
    ensures
        b == has_prefix(chars@.subrange(from as int, upto as int), prefix@),
{
    if prefix.len() > upto - from {
        return false;
    }
    let ghost part = chars@.subrange(from as int, upto as int);
    let mut j: usize = 0;
    while j < prefix.len()
        invariant
            j <= prefix.len(),
            from <= upto <= chars.len(),
            prefix.len() <= upto - from,
            part == chars@.subrange(from as int, upto as int),
            forall|k: int| 0 <= k < j ==> part[k] == prefix@[k],
        decreases prefix.len() - j,
    {
        if chars[from + j] != prefix[j] {
            assert(part.subrange(0, prefix.len() as int)[j as int] == part[j as int]);
            return false;
        }
        j += 1;
    }
    assert(part.subrange(0, prefix.len() as int) =~= prefix@);
    true
}

/// The text of `chars[from..upto]`.
pub fn string_of(source: &str, chars: &Vec<char>, from: usize, upto: usize) -> (text: String)
    requires
        source@ == chars@,
        from <= upto <= chars.len(),
    ensures
        text@ == chars@.subrange(from as int, upto as int),
{
    source.substring_char(from, upto).to_owned()
}

/// The UTF-8 bytes of a text.
pub open spec fn utf8(text: Seq<char>) -> Seq<u8> {
    vstd::utf8::encode_utf8(text)
}

/// `needle` occurs in `hay` starting at position `i`.
pub open spec fn occurs_at(needle: Seq<char>, hay: Seq<char>, i: int) -> bool {
    &&& 0 <= i
    &&& i + needle.len() <= hay.len()
    &&& hay.subrange(i, i + needle.len()) == needle
}

/// `needle` occurs somewhere in `hay` as a contiguous run of characters.
pub open spec fn is_substring(needle: Seq<char>, hay: Seq<char>) -> bool {
    exists|i: int| occurs_at(needle, hay, i)
}

/// A text that stands between two others occurs in the whole.
pub proof fn lemma_middle_is_substring(before: Seq<char>, middle: Seq<char>, after: Seq<char>)
    ensures
        is_substring(middle, before + middle + after),
{
    let whole = before + middle + after;
    let i = before.len() as int;
    assert(whole.subrange(i, i + middle.len()) =~= middle);
    assert(occurs_at(middle, whole, i));
}

/// The Unicode lowercase form of a string, as `str::to_lowercase` defines it.
pub uninterp spec fn lowercase_of(s: Seq<char>) -> Seq<char>;

/// Calls `str::to_lowercase`. Trusted: the result is the lowercase
/// equivalent of the input, a function of the input alone.
#[verifier::external_body]
pub(crate) fn lowercase(s: &str) -> (lower: String)
    ensures
        lower@ == lowercase_of(s@),
{
    s.to_lowercase()
}

/// The Unicode uppercase form of a string, as `str::to_uppercase` defines it.
pub uninterp spec fn uppercase_of(s: Seq<char>) -> Seq<char>;

/// Calls `str::to_uppercase`. Trusted: the result is the uppercase
/// equivalent of the input, a function of the input alone.
#[verifier::external_body]
pub(crate) fn uppercase(s: &str) -> (upper: String)
    ensures
        upper@ == uppercase_of(s@),
{
    s.to_uppercase()
}

/// Calls `String::from_utf8`. Trusted: the call succeeds exactly on bytes
/// that are valid UTF-8, and the string then has those bytes.
#[verifier::external_body]
pub(crate) fn string_from_utf8(bytes: Vec<u8>) -> (text: Option<String>)
    ensures
        match text {
            Some(t) => vstd::utf8::valid_utf8(bytes@) && utf8(t@) == bytes@,
            None => !vstd::utf8::valid_utf8(bytes@),
        },
{
    String::from_utf8(bytes).ok()
}

/// Whether a text holds nothing but white space.
pub fn is_blank(text: &str) -> (blank: bool)
    ensures
        blank == (trimmed(text@).len() == 0),
{
    let chars = chars_of(text);
    let (start, end) = trim_bounds(&chars, 0, chars.len());
    assert(chars@.subrange(0, chars.len() as int) =~= chars@);
    start == end
}

/// The characters of `s`, in order.
pub fn chars_of(s: &str) -> (v: Vec<char>)
    ensures
        v@ == s@,
{
    let mut v: Vec<char> = Vec::new();
    for c in it: s.chars()
        invariant
            v@ == it.seq().take(it.index() as int),
            it.seq() == s@,
    {
        v.push(c);
    }
    v
}

/// The characters of the lowercase form of `s`.
pub fn lowercase_chars(s: &str) -> (v: Vec<char>)
    ensures
        v@ == lowercase_of(s@),
{
    let lower = lowercase(s);
    chars_of(lower.as_str())
}

/// Whether `needle` occurs in `hay` at position `i`.
pub fn matches_at(hay: &Vec<char>, needle: &Vec<char>, i: usize) -> (b: bool)
    requires
        i + needle.len() <= hay.len(),
    ensures
        b == occurs_at(needle@, hay@, i as int),
{
    let mut j: usize = 0;
    while j < needle.len()
        invariant
            j <= needle.len(),
            i + needle.len() <= hay.len(),
            forall|k: int| 0 <= k < j ==> hay@[i + k] == needle@[k],
        decreases needle.len() - j,
    {
        if hay[i + j] != needle[j] {
            proof {
                let sub = hay@.subrange(i as int, i + needle.len());
                assert(sub[j as int] == hay@[i + j]);
            }
            return false;
        }
        j += 1;
    }
    assert(hay@.subrange(i as int, i + needle.len()) =~= needle@);
    true
}

/// Whether `needle` occurs anywhere in `hay`.
pub fn contains_chars(hay: &Vec<char>, needle: &Vec<char>) -> (b: bool)
    ensures
        b == is_substring(needle@, hay@),
{
    if needle.len() > hay.len() {
        return false;
    }
    let last: usize = hay.len() - needle.len();
    let mut i: usize = 0;
    while i < last
        invariant
            last == hay.len() - needle.len(),
            needle.len() <= hay.len(),
            i <= last,
            forall|k: int| 0 <= k < i ==> !occurs_at(needle@, hay@, k),
        decreases last - i,
    {
        if matches_at(hay, needle, i) {
            return true;
        }
        i += 1;
    }
    matches_at(hay, needle, last)
}

/// Whether `needle` occurs anywhere in `hay`.
pub fn contains(hay: &str, needle: &str) -> (b: bool)
    ensures
        b == is_substring(needle@, hay@),
{
    let h = chars_of(hay);
    let n = chars_of(needle);
    contains_chars(&h, &n)
}

/// Whether two strings hold the same characters.
pub fn str_eq(a: &str, b: &str) -> (same: bool)
    ensures
        same == (a@ == b@),
{
    let x = a.as_bytes();
    let y = b.as_bytes();
    proof {
        vstd::utf8::encode_utf8_decode_utf8(a@);
        vstd::utf8::encode_utf8_decode_utf8(b@);
    }
    if x.len() != y.len() {
        return false;
    }
    let mut i: usize = 0;
    while i < x.len()
        invariant
            i <= x.len(),
            x.len() == y.len(),
            x@ == vstd::utf8::encode_utf8(a@),
            y@ == vstd::utf8::encode_utf8(b@),
            forall|k: int| 0 <= k < i ==> x@[k] == y@[k],
        decreases x.len() - i,
    {
        if x[i] != y[i] {
            return false;
        }
        i += 1;
    }
    assert(x@ =~= y@);
    true
}

/// The decimal digit of a value below 10.
pub open spec fn digit_char(d: int) -> char {
    "0123456789"@[d]
}

/// Decimal text of a number, without sign or leading zeros.
pub open spec fn decimal(n: nat) -> Seq<char>
    decreases n,
{
    if n < 10 {
        seq![digit_char(n as int)]
    } else {
        decimal(n / 10).push(digit_char((n % 10) as int))
    }
}

/// The one-character text of a decimal digit.
fn digit_str(d: usize) -> (s: &'static str)
    requires
        d < 10,
    ensures
        s@ == seq![digit_char(d as int)],
{
    proof {
        reveal_strlit("0123456789");
        reveal_strlit("0");
        reveal_strlit("1");
        reveal_strlit("2");
        reveal_strlit("3");
        reveal_strlit("4");
        reveal_strlit("5");
        reveal_strlit("6");
        reveal_strlit("7");
        reveal_strlit("8");
        reveal_strlit("9");
    }
    let s = match d {
        0 => "0",
        1 => "1",
        2 => "2",
        3 => "3",
        4 => "4",
        5 => "5",
        6 => "6",
        7 => "7",
        8 => "8",
        _ => "9",
    };
    assert(s@ =~= seq![digit_char(d as int)]);
    s
}

/// Decimal text of `n`.
pub fn decimal_string(n: usize) -> (s: String)
    ensures
        s@ == decimal(n as nat),
    decreases n,
{
    if n < 10 {
        digit_str(n).to_owned()
    } else {
        let mut s = decimal_string(n / 10);
        s.append(digit_str(n % 10));
        s
    }
}

/// Appends the UTF-8 bytes of `text` to `buf`.
pub fn absorb_str(buf: &mut Vec<u8>, text: &str)
    ensures
        final(buf)@ == old(buf)@ + utf8(text@),
{
    buf.extend_from_slice(text.as_bytes());
}

/// `a` followed by `b` followed by `c`.
pub fn concat3(a: &str, b: &str, c: &str) -> (s: String)
    ensures
        s@ == a@ + b@ + c@,
{
    let mut s = a.to_owned();
    s.append(b);
    s.append(c);
    s
}

} // verus!
