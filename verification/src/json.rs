//! Reading and writing the JSON texts of the API and of the real-time
//! protocol. `serde_json` parses texts, reads values at JSON Pointers and
//! writes string literals; the shape of the objects written is built here.

use vstd::prelude::*;
use vstd::string::StringExecFns;

verus! {

/// The kind of a JSON value.
#[derive(Debug, Clone, Copy, PartialEq, Eq, Structural)]
pub enum JsonKind {
    Null,
    Bool,
    Number,
    String,
    Array,
    Object,
}

/// The text of the error `serde_json::from_str::<serde_json::Value>` gives
/// for a text, `None` where the text is JSON.
pub uninterp spec fn json_parse_error(text: Seq<char>) -> Option<Seq<char>>;

/// The string at a JSON Pointer of a JSON text (`Value::pointer`, then
/// `as_str`): `None` where nothing is there or it is not a string.
pub uninterp spec fn json_string_at(text: Seq<char>, pointer: Seq<char>) -> Option<Seq<char>>;

/// The unsigned integer at a JSON Pointer of a JSON text (`Value::pointer`,
/// then `as_u64`).
pub uninterp spec fn json_u64_at(text: Seq<char>, pointer: Seq<char>) -> Option<u64>;

/// The JSON text of the value at a JSON Pointer of a JSON text
/// (`Value::pointer`, then `Display`).
pub uninterp spec fn json_text_at(text: Seq<char>, pointer: Seq<char>) -> Option<Seq<char>>;

/// The kind of the value at a JSON Pointer of a JSON text (`Value::pointer`,
/// then its variant).
pub uninterp spec fn json_kind_at(text: Seq<char>, pointer: Seq<char>) -> Option<JsonKind>;

/// The JSON string literal of a text as `serde_json` writes it: the text in
/// double quotes, with quotes, backslashes and control characters escaped.
pub uninterp spec fn json_quoted(text: Seq<char>) -> Seq<char>;

/// Reads the string at `pointer` of a JSON text with `serde_json`. Claimed:
/// `Err` with the parse error where the text is not JSON (named
/// `json_parse_error`), else the string named `json_string_at`.
#[verifier::external_body]
pub(crate) fn read_json_string(text: &str, pointer: &str) -> (r: Result<Option<String>, String>)
    ensures
        match r {
            Err(e) => json_parse_error(text@) == Some(e@),
            Ok(v) => json_parse_error(text@) is None && json_string_at(text@, pointer@) == match v {
                Some(s) => Some(s@),
                None => None::<Seq<char>>,
            },
        },
{
    match serde_json::from_str::<serde_json::Value>(text) {
        Ok(json) => Ok(json.pointer(pointer).and_then(|v| v.as_str()).map(|s| s.to_string())),
        Err(e) => Err(e.to_string()),
    }
}

/// Reads the unsigned integer at `pointer` of a JSON text with `serde_json`.
/// Claimed: `Err` with the parse error where the text is not JSON, else the
/// number named `json_u64_at`.
#[verifier::external_body]
pub(crate) fn read_json_u64(text: &str, pointer: &str) -> (r: Result<Option<u64>, String>)
    ensures
        match r {
            Err(e) => json_parse_error(text@) == Some(e@),
            Ok(v) => json_parse_error(text@) is None && json_u64_at(text@, pointer@) == v,
        },
{
    match serde_json::from_str::<serde_json::Value>(text) {
        Ok(json) => Ok(json.pointer(pointer).and_then(|v| v.as_u64())),
        Err(e) => Err(e.to_string()),
    }
}

/// Reads the JSON text of the value at `pointer` of a JSON text with
/// `serde_json`. Claimed: `Err` with the parse error where the text is not
/// JSON, else the text named `json_text_at`.
#[verifier::external_body]
pub(crate) fn read_json_text(text: &str, pointer: &str) -> (r: Result<Option<String>, String>)
    ensures
        match r {
            Err(e) => json_parse_error(text@) == Some(e@),
            Ok(v) => json_parse_error(text@) is None && json_text_at(text@, pointer@) == match v {
                Some(s) => Some(s@),
                None => None::<Seq<char>>,
            },
        },
{
    match serde_json::from_str::<serde_json::Value>(text) {
        Ok(json) => Ok(json.pointer(pointer).map(|v| v.to_string())),
        Err(e) => Err(e.to_string()),
    }
}

/// Reads the kind of the value at `pointer` of a JSON text with
/// `serde_json`. Claimed: `Err` with the parse error where the text is not
/// JSON, else the kind named `json_kind_at`.
#[verifier::external_body]
pub(crate) fn read_json_kind(text: &str, pointer: &str) -> (r: Result<Option<JsonKind>, String>)
    ensures
        match r {
            Err(e) => json_parse_error(text@) == Some(e@),
            Ok(v) => json_parse_error(text@) is None && json_kind_at(text@, pointer@) == v,
        },
{
    match serde_json::from_str::<serde_json::Value>(text) {
        Ok(json) => Ok(json.pointer(pointer).map(|v| match v {
            serde_json::Value::Null => JsonKind::Null,
            serde_json::Value::Bool(_) => JsonKind::Bool,
            serde_json::Value::Number(_) => JsonKind::Number,
            serde_json::Value::String(_) => JsonKind::String,
            serde_json::Value::Array(_) => JsonKind::Array,
            serde_json::Value::Object(_) => JsonKind::Object,
        })),
        Err(e) => Err(e.to_string()),
    }
}

/// Writes a text as a JSON string literal with `serde_json`. Claimed: the
/// literal is named `json_quoted` of the text.
#[verifier::external_body]
pub(crate) fn write_json_string(text: &str) -> (r: String)
    ensures
        r@ == json_quoted(text@),
{
    serde_json::Value::String(text.to_string()).to_string()
}

/// A member of a JSON object: the quoted key, a colon and the value's text.
pub open spec fn json_member(key: Seq<char>, value: Seq<char>) -> Seq<char> {
    json_quoted(key) + seq![':'] + value
}

/// The members of a JSON object, separated by commas, in order.
pub open spec fn json_members(members: Seq<(Seq<char>, Seq<char>)>) -> Seq<char>
    decreases members.len(),
{
    if members.len() == 0 {
        Seq::empty()
    } else if members.len() == 1 {
        json_member(members[0].0, members[0].1)
    } else {
        json_members(members.drop_last()) + seq![','] + json_member(
            members.last().0,
            members.last().1,
        )
    }
}

/// The JSON text of the object with the given members (keys and the JSON
/// texts of their values), in order, written without spaces.
pub open spec fn json_object_text(members: Seq<(Seq<char>, Seq<char>)>) -> Seq<char> {
    seq!['{'] + json_members(members) + seq!['}']
}

/// The views of key and value texts.
pub open spec fn member_views(members: Seq<(String, String)>) -> Seq<(Seq<char>, Seq<char>)> {
    members.map_values(|m: (String, String)| (m.0@, m.1@))
}

/// Writes the JSON object with the given members: each key is written as a
/// JSON string, each value is a JSON text already written.
pub fn json_object(members: &Vec<(String, String)>) -> (r: String)
    ensures
        r@ == json_object_text(member_views(members@)),
{
    let ghost ms = member_views(members@);
    let mut out = String::from_str("{");
    proof {
        reveal_strlit("{");
        assert(ms.take(0) =~= Seq::<(Seq<char>, Seq<char>)>::empty());
    }
    let mut i: usize = 0;
    while i < members.len()
        invariant
            ms == member_views(members@),
            i <= members@.len(),
            out@ == seq!['{'] + json_members(ms.take(i as int)),
        decreases members@.len() - i,
    {
        if i > 0 {
            out.append(",");
            proof {
                reveal_strlit(",");
            }
        }
        let key = write_json_string(members[i].0.as_str());
        out.append(key.as_str());
        out.append(":");
        out.append(members[i].1.as_str());
        proof {
            reveal_strlit(":");
            let t = ms.take(i + 1);
            assert(t.drop_last() =~= ms.take(i as int));
            assert(t.last() == (members@[i as int].0@, members@[i as int].1@));
            if i == 0 {
                assert(t.len() == 1);
            }
            assert(out@ =~= seq!['{'] + json_members(t));
        }
        i += 1;
    }
    out.append("}");
    proof {
        reveal_strlit("}");
        assert(ms.take(members@.len() as int) =~= ms);
    }
    out
}

/// The JSON text of member `key` of a JSON text (at the JSON Pointer
/// `/key`), where present; or the error of reading a text that is not JSON.
pub fn member_text(text: &str, key: &str) -> (r: Result<Option<String>, String>)
    ensures
        match r {
            Err(e) => json_parse_error(text@) == Some(e@),
            Ok(v) => json_parse_error(text@) is None && json_text_at(text@, seq!['/'] + key@)
                == match v {
                Some(s) => Some(s@),
                None => None::<Seq<char>>,
            },
        },
{
    let mut pointer = String::from_str("/");
    pointer.append(key);
    proof {
        reveal_strlit("/");
        assert(pointer@ =~= seq!['/'] + key@);
    }
    let r = read_json_text(text, pointer.as_str());
    r
}

} // verus!
