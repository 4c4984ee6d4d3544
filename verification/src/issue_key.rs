use vstd::prelude::*;
use vstd::string::StrSliceExecFns;
use crate::numbers::{decimal, parse_i32, parse_i32_chars, push_decimal, lemma_parse_decimal};
use crate::text::{chars_of, first_index_of, string_from_chars};

verus! {

/// The parts of an issue key such as `PROJ-123`: the text before the first
/// `-`, and the `i32` that the text after it denotes.
pub open spec fn issue_key_parts(key: Seq<char>) -> Option<(Seq<char>, i32)> {
    match first_index_of(key, '-') {
        None => None,
        Some(i) => match parse_i32(key.subrange(i + 1, key.len() as int)) {
            None => None,
            Some(n) => Some((key.subrange(0, i), n)),
        },
    }
}

/// The display key of the issue numbered `seq` in the project `project_key`.
pub open spec fn display_key_of(project_key: Seq<char>, seq: int) -> Seq<char> {
    project_key + seq!['-'] + decimal(seq)
}

/// Parses `PROJECTKEY-123` into the project key prefix and the numeric sequence.
pub fn parse_issue_key(key: &str) -> (r: Option<(&str, i32)>)
    ensures
        match r {
            Some(parts) => issue_key_parts(key@) == Some((parts.0@, parts.1)),
            None => issue_key_parts(key@) is None,
        },
{
    let v = chars_of(key);
    match crate::text::find_char(&v, '-') {
        None => None,
        Some(i) => match parse_i32_chars(&v, i + 1) {
            None => None,
            Some(n) => Some((key.substring_char(0, i), n)),
        },
    }
}

/// Formats the display key `PROJECTKEY-123`.
pub fn display_key(project_key: &str, seq: i32) -> (r: String)
    ensures
        r@ == display_key_of(project_key@, seq as int),
{
    let mut v = chars_of(project_key);
    v.push('-');
    push_decimal(seq, &mut v);
    string_from_chars(v.as_slice())
}

/// A display key reads back as the project key and number it was made from,
/// provided the project key holds no `-`.
pub proof fn lemma_issue_key_roundtrip(project_key: Seq<char>, seq: i32)
    requires
        !project_key.contains('-'),
    ensures
        issue_key_parts(display_key_of(project_key, seq as int)) == Some((project_key, seq)),
{
    let s = display_key_of(project_key, seq as int);
    let k = project_key.len() as int;
    assert(s[k] == '-');
    assert forall|j: int| 0 <= j < k implies s[j] != '-' by {
        assert(s[j] == project_key[j]);
    }
    let i = choose|i: int| 0 <= i < s.len() && s[i] == '-' && forall|j: int| 0 <= j < i ==> s[j] != '-';
    assert(i == k) by {
        if i < k {
            assert(s[i] != '-');
        }
        if i > k {
            assert(s[k] != '-');
        }
    }
    assert(first_index_of(s, '-') == Some(k));
    assert(s.subrange(k + 1, s.len() as int) =~= decimal(seq as int));
    assert(s.subrange(0, k) =~= project_key);
    lemma_parse_decimal(seq);
}

} // verus!
