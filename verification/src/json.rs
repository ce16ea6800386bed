//! JSON text: reading members of a document and writing canonical pieces.

use vstd::prelude::*;
use vstd::string::StringExecFns;

verus! {

/// The JSON string literal for a text, quotes and escapes included, as
/// `serde_json` writes it.
pub uninterp spec fn json_quoted(text: Seq<char>) -> Seq<char>;

/// Calls `serde_json::to_string` on a string slice. Trusted: the result is
/// the JSON string literal of the text, a function of the text alone.
#[verifier::external_body]
pub(crate) fn quote(text: &str) -> (literal: String)
    ensures
        literal@ == json_quoted(text@),
{
    serde_json::to_string(text).unwrap_or_default()
}

/// Why a text is no JSON document, in the words of `serde_json`, or nothing
/// where it is one.
pub uninterp spec fn json_parse_error(doc: Seq<char>) -> Option<Seq<char>>;

/// The string that member `key` of the JSON document `doc` holds, or
/// nothing where `doc` has no such member or it holds no string.
pub uninterp spec fn json_member_text(doc: Seq<char>, key: Seq<char>) -> Option<Seq<char>>;

/// The JSON text of member `key` of the JSON object `doc`, or nothing where
/// `doc` is no object or has no such member.
pub uninterp spec fn json_member_raw(doc: Seq<char>, key: Seq<char>) -> Option<Seq<char>>;

/// The JSON texts of the items of the JSON array `doc`, in order, or nothing
/// where `doc` is no array.
pub uninterp spec fn json_array_items(doc: Seq<char>) -> Option<Seq<Seq<char>>>;

/// The number of members of the JSON object `doc`, or nothing where `doc`
/// is no object.
pub uninterp spec fn json_object_len(doc: Seq<char>) -> Option<nat>;

/// Calls `serde_json::from_str` for a `Value`. Trusted: the result is the
/// parser's complaint about the text, a function of the text alone, or
/// nothing where the text parses.
#[verifier::external_body]
pub(crate) fn parse_error(doc: &str) -> (complaint: Option<String>)
    ensures
        match complaint {
            Some(e) => json_parse_error(doc@) == Some(e@),
            None => json_parse_error(doc@) is None,
        },
{
    serde_json::from_str::<serde_json::Value>(doc).err().map(|e| e.to_string())
}

/// Calls `serde_json::from_str`, indexes the value by `key` and calls
/// `Value::as_str`. Trusted: the result is the string that the member holds,
/// a function of the two texts alone, and nothing where the text does not
/// parse, has no such member, or the member holds no string.
#[verifier::external_body]
pub(crate) fn member_text(doc: &str, key: &str) -> (text: Option<String>)
    ensures
        match text {
            Some(t) => json_member_text(doc@, key@) == Some(t@),
            None => json_member_text(doc@, key@) is None,
        },
{
    let value = serde_json::from_str::<serde_json::Value>(doc).ok()?;
    value[key].as_str().map(|s| s.to_owned())
}

/// Calls `serde_json::from_str`, `Value::get` with `key`, and `to_string` on
/// what it finds. Trusted: the result is the JSON text of the member, a
/// function of the two texts alone, and nothing where the text does not
/// parse or is no object with such a member.
#[verifier::external_body]
pub(crate) fn member_raw(doc: &str, key: &str) -> (text: Option<String>)
    ensures
        match text {
            Some(t) => json_member_raw(doc@, key@) == Some(t@),
            None => json_member_raw(doc@, key@) is None,
        },
{
    let value = serde_json::from_str::<serde_json::Value>(doc).ok()?;
    value.as_object()?.get(key).map(|v| v.to_string())
}

/// Calls `serde_json::from_str`, `Value::as_array`, and `to_string` on each
/// item. Trusted: the result is the JSON texts of the items in order, a
/// function of the text alone, and nothing where the text does not parse or
/// is no array.
#[verifier::external_body]
pub(crate) fn array_items(doc: &str) -> (items: Option<Vec<String>>)
    ensures
        match items {
            Some(v) => json_array_items(doc@) == Some(v.deep_view()),
            None => json_array_items(doc@) is None,
        },
{
    let value = serde_json::from_str::<serde_json::Value>(doc).ok()?;
    Some(value.as_array()?.iter().map(|v| v.to_string()).collect())
}

/// Calls `serde_json::from_str`, `Value::as_object` and `Map::len`.
/// Trusted: the result is the number of members, a function of the text
/// alone, and nothing where the text does not parse or is no object.
#[verifier::external_body]
pub(crate) fn object_len(doc: &str) -> (len: Option<usize>)
    ensures
        match len {
            Some(n) => json_object_len(doc@) == Some(n as nat),
            None => json_object_len(doc@) is None,
        },
{
    let value = serde_json::from_str::<serde_json::Value>(doc).ok()?;
    Some(value.as_object()?.len())
}

/// The JSON text of member `key` of `doc` as indexing gives it: `null` where
/// there is no such member.
pub open spec fn json_index(doc: Seq<char>, key: Seq<char>) -> Seq<char> {
    match json_member_raw(doc, key) {
        Some(text) => text,
        None => "null"@,
    }
}

/// The JSON text of member `key` of `doc`, `null` where there is none.
pub fn index_raw(doc: &str, key: &str) -> (text: String)
    ensures
        text@ == json_index(doc@, key@),
{
    match member_raw(doc, key) {
        Some(text) => text,
        None => "null".to_owned(),
    }
}

/// The literals of the first `n` items, separated by commas.
pub open spec fn json_items(items: Seq<Seq<char>>, n: int) -> Seq<char>
    decreases n,
{
    if n <= 0 {
        Seq::<char>::empty()
    } else if n == 1 {
        json_quoted(items[0])
    } else {
        json_items(items, n - 1) + ","@ + json_quoted(items[n - 1])
    }
}

/// The JSON array of the string literals of `items`.
pub open spec fn json_string_array(items: Seq<Seq<char>>) -> Seq<char> {
    "["@ + json_items(items, items.len() as int) + "]"@
}

/// `true` or `false`.
pub open spec fn json_bool(b: bool) -> Seq<char> {
    if b {
        "true"@
    } else {
        "false"@
    }
}

/// Appends the JSON array of the string literals of `items` to `out`.
pub fn push_string_array(out: &mut String, items: &Vec<String>)
    ensures
        final(out)@ == old(out)@ + json_string_array(items.deep_view()),
{
    let ghost start = out@;
    let ghost views = items.deep_view();
    out.append("[");
    let mut i: usize = 0;
    while i < items.len()
        invariant
            i <= items.len(),
            views == items.deep_view(),
            out@ == start + "["@ + json_items(views, i as int),
        decreases items.len() - i,
    {
        if i > 0 {
            out.append(",");
        }
        let literal = quote(items[i].as_str());
        assert(views[i as int] == items[i as int]@);
        out.append(literal.as_str());
        i += 1;
        assert(out@ =~= start + "["@ + json_items(views, i as int));
    }
    out.append("]");
    assert(out@ =~= start + json_string_array(views));
}

/// Appends `true` or `false` to `out`.
pub fn push_bool(out: &mut String, b: bool)
    ensures
        final(out)@ == old(out)@ + json_bool(b),
{
    if b {
        out.append("true");
    } else {
        out.append("false");
    }
}

} // verus!
