//! Finding a JSON object in the free-form text of a model.
//!
//! The JSON itself is read by `serde_json`; this module decides which parts of the text are
//! handed to it.

use serde_json::Value;
use vstd::prelude::*;
#[allow(unused_imports)]
use vstd::string::StrSliceExecFns;

verus! {

#[verifier::external_type_specification]
#[verifier::external_body]
pub struct ExValue(serde_json::Value);

/// What `serde_json::from_str` makes of a text: the value, or nothing if the text is not one
/// JSON document.
pub uninterp spec fn parsed_json(text: Seq<char>) -> Option<serde_json::Value>;

/// The members of a JSON object by name; nothing for a value of any other kind.
pub uninterp spec fn json_members(value: serde_json::Value) -> Option<
    Map<Seq<char>, serde_json::Value>,
>;

/// The text of a JSON string; nothing for a value of any other kind.
pub uninterp spec fn json_text(value: serde_json::Value) -> Option<Seq<char>>;

/// Whether the text runs from an opening to a closing brace.
pub open spec fn is_braced(s: Seq<char>) -> bool {
    s.len() > 0 && s.first() == '{' && s.last() == '}'
}

/// `serde_json::from_str::<Value>`: the same text always gives the same value, or always an
/// error, of which nothing is kept. A text that runs from an opening to a closing brace and
/// parses is one object: nothing shorter that starts and ends so parses, because the object is
/// not complete, and nothing longer, because something follows it.
#[verifier::external_body]
pub(crate) fn parse_json(text: &str) -> (r: Option<Value>)
    ensures
        r == parsed_json(text@),
        r is Some && is_braced(text@) ==> forall|other: Seq<char>|
            is_braced(other) && other != text@ && (other.is_prefix_of(text@)
                || text@.is_prefix_of(other)) ==> #[trigger] parsed_json(other) is None,
{
    serde_json::from_str::<Value>(text).ok()
}

/// `serde_json::Value::is_object`: whether the value is an object, that is, has members.
pub assume_specification[ serde_json::Value::is_object ](value: &serde_json::Value) -> (r: bool)
    ensures
        r == (json_members(*value) is Some),
;

/// `serde_json::Value::as_str`: the text of a string, and nothing for any other value.
pub assume_specification[ serde_json::Value::as_str ](value: &serde_json::Value) -> (r: Option<&str>)
    ensures
        match r {
            Some(text) => json_text(*value) == Some(text@),
            None => json_text(*value) is None,
        },
;

/// The member `key` of a value: nothing if the value is no object or has no such member.
pub open spec fn json_member(value: Value, key: Seq<char>) -> Option<Value> {
    match json_members(value) {
        Some(members) => if members.contains_key(key) {
            Some(members[key])
        } else {
            None
        },
        None => None,
    }
}

/// `serde_json::Value::get` with a string: a copy of the member of that name, if the value is
/// an object that has one.
#[verifier::external_body]
pub(crate) fn get_member(value: &Value, key: &str) -> (r: Option<Value>)
    ensures
        r == json_member(*value, key@),
{
    value.get(key).cloned()
}

/// The characters with the Unicode property White_Space.
pub open spec fn white_space(c: char) -> bool {
    ||| '\u{9}' <= c <= '\u{d}'
    ||| c == '\u{20}'
    ||| c == '\u{85}'
    ||| c == '\u{a0}'
    ||| c == '\u{1680}'
    ||| '\u{2000}' <= c <= '\u{200a}'
    ||| c == '\u{2028}'
    ||| c == '\u{2029}'
    ||| c == '\u{202f}'
    ||| c == '\u{205f}'
    ||| c == '\u{3000}'
}

/// The JSON object that a text denotes, if it denotes one.
pub open spec fn object_of(s: Seq<char>) -> Option<Value> {
    match parsed_json(s) {
        Some(value) => if json_members(value) is Some {
            Some(value)
        } else {
            None
        },
        None => None,
    }
}

/// Whether the text from `i` up to `j` starts with an opening brace, ends with a closing one, and
/// denotes an object.
pub open spec fn is_object_between(s: Seq<char>, i: int, j: int) -> bool {
    &&& 0 <= i < j <= s.len()
    &&& s[i] == '{'
    &&& s[j - 1] == '}'
    &&& object_of(s.subrange(i, j)) is Some
}

/// Whether the object from `i` up to `j` is the first in the text: every other one starts later.
pub open spec fn is_first_between(s: Seq<char>, i: int, j: int) -> bool {
    &&& is_object_between(s, i, j)
    &&& forall|k: int, l: int| #[trigger]
        is_object_between(s, k, l) ==> i < k || (i == k && j == l)
}

/// Whether `found` is the first object in the text, or nothing where there is none.
pub open spec fn is_first_object(s: Seq<char>, found: Option<Value>) -> bool {
    match found {
        Some(value) => exists|i: int, j: int| #[trigger]
            is_first_between(s, i, j) && object_of(s.subrange(i, j)) == Some(value),
        None => forall|i: int, j: int| !#[trigger] is_object_between(s, i, j),
    }
}

/// Whether a character has the Unicode property White_Space.
pub fn is_white_space(c: char) -> (r: bool)
    ensures
        r == white_space(c),
{
    ('\u{9}' <= c && c <= '\u{d}') || c == '\u{20}' || c == '\u{85}' || c == '\u{a0}' || c
        == '\u{1680}' || ('\u{2000}' <= c && c <= '\u{200a}') || c == '\u{2028}' || c == '\u{2029}'
        || c == '\u{202f}' || c == '\u{205f}' || c == '\u{3000}'
}

/// The characters of a text.
fn chars_of(text: &str) -> (r: Vec<char>)
    ensures
        r@ == text@,
{
    let mut chars: Vec<char> = Vec::new();
    for c in it: text.chars()
        invariant
            chars@ == it.seq().take(it.index()),
            it.seq() == text@,
    {
        chars.push(c);
    }
    chars
}

/// The range of a text that is left when white space is trimmed from both ends; the end of the
/// text if nothing is left.
pub fn trimmed_range(chars: &[char]) -> (r: (usize, usize))
    ensures
        r.0 <= r.1 <= chars@.len(),
        forall|k: int| 0 <= k < r.0 ==> white_space(#[trigger] chars@[k]),
        forall|k: int| r.1 <= k < chars@.len() ==> white_space(#[trigger] chars@[k]),
        r.0 < r.1 ==> !white_space(chars@[r.0 as int]) && !white_space(chars@[r.1 - 1]),
        r.0 == r.1 ==> r.0 == chars@.len(),
{
    let len: usize = chars.len();
    let mut start: usize = 0;
    while start < len && is_white_space(chars[start])
        invariant
            start <= len == chars@.len(),
            forall|k: int| 0 <= k < start ==> white_space(#[trigger] chars@[k]),
        decreases len - start,
    {
        start = start + 1;
    }
    let mut end: usize = len;
    while end > start && is_white_space(chars[end - 1])
        invariant
            start <= end <= len == chars@.len(),
            start < len ==> start < end && !white_space(chars@[start as int]),
            forall|k: int| end <= k < len ==> white_space(#[trigger] chars@[k]),
        decreases end - start,
    {
        end = end - 1;
    }
    (start, end)
}

/// Keeps what was parsed if it is an object.
pub fn object_only(parsed: Option<Value>) -> (r: Option<Value>)
    ensures
        r == (match parsed {
            Some(value) => if json_members(value) is Some {
                Some(value)
            } else {
                None
            },
            None => None,
        }),
{
    match parsed {
        Some(value) => if value.is_object() {
            Some(value)
        } else {
            None
        },
        None => None,
    }
}

/// An object found in the text is the first one, if none starts before it.
proof fn lemma_found(s: Seq<char>, i: int, j: int)
    requires
        is_object_between(s, i, j),
        forall|k: int, l: int| k < i ==> !#[trigger] is_object_between(s, k, l),
        forall|other: Seq<char>|
            is_braced(other) && other != s.subrange(i, j) && (other.is_prefix_of(s.subrange(i, j))
                || s.subrange(i, j).is_prefix_of(other)) ==> #[trigger] parsed_json(other) is None,
    ensures
        is_first_object(s, object_of(s.subrange(i, j))),
{
    let found = s.subrange(i, j);
    assert forall|k: int, l: int| #[trigger] is_object_between(s, k, l) implies i < k || (i == k
        && j == l) by {
        if k == i && l != j {
            let other = s.subrange(i, l);
            assert(other.len() != found.len());
            assert(l < j ==> other == found.subrange(0, other.len() as int));
            assert(l > j ==> found == other.subrange(0, found.len() as int));
            assert(parsed_json(other) is None);
        }
    }
    assert(is_first_between(s, i, j));
}

/// Extract the first balanced JSON object from free-form text.
///
/// Braces inside the strings of an object do not count.
pub fn extract_first_json_object(text: &str) -> (r: Option<Value>)
    ensures
        is_first_object(text@, r),
{
    let chars: Vec<char> = chars_of(text);
    let len: usize = chars.len();
    let (from, to): (usize, usize) = trimmed_range(&chars);
    if from < to && chars[from] == '{' && chars[to - 1] == '}' {
        let whole: Option<Value> = object_only(parse_json(text.substring_char(from, to)));
        if whole.is_some() {
            proof {
                lemma_found(text@, from as int, to as int);
            }
            return whole;
        }
    }
    let mut start: usize = 0;
    while start < len
        invariant
            chars@ == text@,
            start <= len == chars@.len(),
            forall|k: int, l: int| k < start ==> !#[trigger] is_object_between(text@, k, l),
        decreases len - start,
    {
        if chars[start] == '{' {
            let mut end: usize = start + 1;
            while end < len
                invariant
                    chars@ == text@,
                    start < end <= len == chars@.len(),
                    chars@[start as int] == '{',
                    forall|k: int, l: int|
                        k < start ==> !#[trigger] is_object_between(text@, k, l),
                    forall|l: int|
                        l <= end ==> !#[trigger] is_object_between(text@, start as int, l),
                decreases len - end,
            {
                end = end + 1;
                if chars[end - 1] == '}' {
                    let candidate: &str = text.substring_char(start, end);
                    let found: Option<Value> = object_only(parse_json(candidate));
                    if found.is_some() {
                        proof {
                            lemma_found(text@, start as int, end as int);
                        }
                        return found;
                    }
                }
            }
        }
        start = start + 1;
    }
    None
}

/// The object in the reply of a model, if there is one.
pub fn parse_json_response(raw: &str) -> (r: Option<Value>)
    ensures
        is_first_object(raw@, r),
{
    if raw.is_empty() {
        return None;
    }
    extract_first_json_object(raw)
}

/// Law: a text has only one first object.
pub proof fn law_first_object_unique(s: Seq<char>, found: Option<Value>, again: Option<Value>)
    requires
        is_first_object(s, found),
        is_first_object(s, again),
    ensures
        found == again,
{
    if found is Some {
        let (i, j) = choose|i: int, j: int| #[trigger]
            is_first_between(s, i, j) && object_of(s.subrange(i, j)) == found;
        assert(is_object_between(s, i, j));
        if again is Some {
            let (k, l) = choose|k: int, l: int| #[trigger]
                is_first_between(s, k, l) && object_of(s.subrange(k, l)) == again;
            assert(is_object_between(s, k, l));
        }
    } else if again is Some {
        let (k, l) = choose|k: int, l: int| #[trigger]
            is_first_between(s, k, l) && object_of(s.subrange(k, l)) == again;
        assert(is_object_between(s, k, l));
    }
}

/// Law: whatever is found is an object.
pub proof fn law_found_is_object(s: Seq<char>, found: Option<Value>)
    requires
        is_first_object(s, found),
    ensures
        found matches Some(value) ==> json_members(value) is Some,
{
}

/// Law: without an opening brace there is no object.
pub proof fn law_no_brace_no_object(s: Seq<char>, found: Option<Value>)
    requires
        !s.contains('{'),
        is_first_object(s, found),
    ensures
        found is None,
{
    if found is Some {
        let (i, j) = choose|i: int, j: int| #[trigger]
            is_first_between(s, i, j) && object_of(s.subrange(i, j)) == found;
        assert(s[i] == '{');
    }
}

/// Law: an object in the midst of prose is found, whatever follows it and whatever without an
/// opening brace precedes it.
pub proof fn law_object_in_prose(
    before: Seq<char>,
    s: Seq<char>,
    after: Seq<char>,
    found: Option<Value>,
)
    requires
        !before.contains('{'),
        is_braced(s),
        object_of(s) is Some,
        is_first_object(before + s + after, found),
    ensures
        found == object_of(s),
{
    let text = before + s + after;
    let (start, end) = (before.len() as int, (before.len() + s.len()) as int);
    assert(text.subrange(start, end) == s);
    assert(text[start] == s[0] && text[end - 1] == s[s.len() - 1]);
    assert(is_object_between(text, start, end));
    let (i, j) = choose|i: int, j: int| #[trigger]
        is_first_between(text, i, j) && object_of(text.subrange(i, j)) == found;
    if i < start {
        assert(before[i] == '{');
    }
}

/// Law: white space around an object that makes up the whole text is ignored.
pub proof fn law_white_space_around_object(
    before: Seq<char>,
    s: Seq<char>,
    after: Seq<char>,
    found: Option<Value>,
)
    requires
        forall|i: int| 0 <= i < before.len() ==> #[trigger] white_space(before[i]),
        forall|i: int| 0 <= i < after.len() ==> #[trigger] white_space(after[i]),
        is_braced(s),
        object_of(s) is Some,
        is_first_object(before + s + after, found),
    ensures
        found == object_of(s),
{
    if before.contains('{') {
        let i = choose|i: int| 0 <= i < before.len() && before[i] == '{';
        assert(white_space(before[i]));
    }
    law_object_in_prose(before, s, after, found);
}

/// Law: what is found is a part of the text that starts with an opening and ends with a closing
/// brace and that the parser reads as an object; no other such part starts before it or at the
/// same place. Nothing is found only where there is no such part. Neither the length of the part
/// nor what stands around it matters.
pub proof fn law_first_object_in_text(s: Seq<char>, found: Option<Value>)
    requires
        is_first_object(s, found),
    ensures
        found matches Some(value) ==> json_members(value) is Some && exists|i: int, j: int|
            #![trigger parsed_json(s.subrange(i, j))]
            {
                &&& 0 <= i < j <= s.len()
                &&& s[i] == '{'
                &&& s[j - 1] == '}'
                &&& parsed_json(s.subrange(i, j)) == Some(value)
                &&& forall|k: int, l: int|
                    #![trigger parsed_json(s.subrange(k, l))]
                    0 <= k < l <= s.len() && s[k] == '{' && s[l - 1] == '}' && (parsed_json(
                        s.subrange(k, l),
                    ) matches Some(other) && json_members(other) is Some) ==> i < k || (i == k && j
                        == l)
            },
        found is None ==> forall|i: int, j: int|
            #![trigger parsed_json(s.subrange(i, j))]
            0 <= i < j <= s.len() && s[i] == '{' && s[j - 1] == '}' ==> !(parsed_json(
                s.subrange(i, j),
            ) matches Some(value) && json_members(value) is Some),
{
    if found is Some {
        let (i, j) = choose|i: int, j: int| #[trigger]
            is_first_between(s, i, j) && object_of(s.subrange(i, j)) == found;
        assert(parsed_json(s.subrange(i, j)) == found);
        assert forall|k: int, l: int|
            #![trigger parsed_json(s.subrange(k, l))]
            0 <= k < l <= s.len() && s[k] == '{' && s[l - 1] == '}' && (parsed_json(
                s.subrange(k, l),
            ) matches Some(other) && json_members(other) is Some) implies i < k || (i == k && j
            == l) by {
            assert(is_object_between(s, k, l));
        }
    } else {
        assert forall|i: int, j: int|
            #![trigger parsed_json(s.subrange(i, j))]
            0 <= i < j <= s.len() && s[i] == '{' && s[j - 1] == '}' implies !(parsed_json(
            s.subrange(i, j),
        ) matches Some(value) && json_members(value) is Some) by {
            assert(!is_object_between(s, i, j));
        }
    }
}

/// Law: a text from an opening to a closing brace that the parser reads as an object is found,
/// however long it is, whatever follows it and whatever without an opening brace precedes it.
pub proof fn law_parsed_object_is_found(
    before: Seq<char>,
    s: Seq<char>,
    after: Seq<char>,
    value: Value,
    found: Option<Value>,
)
    requires
        forall|i: int| 0 <= i < before.len() ==> before[i] != '{',
        s.len() > 0,
        s[0] == '{',
        s[s.len() - 1] == '}',
        parsed_json(s) == Some(value),
        json_members(value) is Some,
        is_first_object(before + s + after, found),
    ensures
        found == Some(value),
{
    law_object_in_prose(before, s, after, found);
}

/// Law: an object is preferred to those inside it: nothing that is found lies within a part of
/// the text that the parser reads as an object.
pub proof fn law_outer_object_is_found(
    s: Seq<char>,
    outer: (int, int),
    inner: (int, int),
    value: Value,
    found: Option<Value>,
)
    requires
        0 <= outer.0 < inner.0 < inner.1 <= outer.1 <= s.len(),
        s[outer.0] == '{',
        s[outer.1 - 1] == '}',
        parsed_json(s.subrange(outer.0, outer.1)) == Some(value),
        json_members(value) is Some,
        is_first_object(s, found),
    ensures
        found is Some,
        !is_first_between(s, inner.0, inner.1),
{
    assert(is_object_between(s, outer.0, outer.1));
}

/// Law: white space is the code points with the Unicode property White_Space.
pub proof fn law_white_space_code_points(c: char)
    ensures
        white_space(c) <==> (9 <= c as u32 <= 13 || c as u32 == 32 || c as u32 == 133 || c as u32
            == 160 || c as u32 == 5760 || 8192 <= c as u32 <= 8202 || c as u32 == 8232 || c as u32
            == 8233 || c as u32 == 8239 || c as u32 == 8287 || c as u32 == 12288),
{
}

} // verus!
