//! JSON as far as the gateway needs it: string arrays and flat objects on the way
//! out, one flat object on the way in.

use vstd::prelude::*;
use vstd::string::*;

verus! {

/// A decoded JSON object: each member's name, with its text where the member's
/// value is a JSON string and `None` where it is anything else.
pub type Members = Vec<(String, Option<String>)>;

/// The mathematical form of `Members`.
pub type MembersView = Seq<(Seq<char>, Option<Seq<char>>)>;

/// The JSON string literal, quotes and escapes included, that `serde_json` writes
/// for `text`.
pub uninterp spec fn json_string(text: Seq<char>) -> Seq<char>;

/// What `serde_json` reads from `bytes` as a single JSON object: `None` where the
/// bytes are no JSON text or the text is no object, else the object's members.
pub uninterp spec fn object_members(bytes: Seq<u8>) -> Option<MembersView>;

/// `parts` with a comma between neighbours.
pub open spec fn comma_separated(parts: Seq<Seq<char>>) -> Seq<char>
    decreases parts.len(),
{
    if parts.len() == 0 {
        Seq::empty()
    } else if parts.len() == 1 {
        parts[0]
    } else {
        comma_separated(parts.drop_last()) + seq![','] + parts.last()
    }
}

/// The compact JSON array whose elements are spelled by `parts`.
pub open spec fn array(parts: Seq<Seq<char>>) -> Seq<char> {
    seq!['['] + comma_separated(parts) + seq![']']
}

/// The compact JSON array whose elements are the string literals of `items`.
pub open spec fn string_array(items: Seq<Seq<char>>) -> Seq<char> {
    array(items.map_values(|s: Seq<char>| json_string(s)))
}

/// The text of the first member named `name`, where that member is a string.
pub open spec fn member_text(members: MembersView, name: Seq<char>) -> Option<Seq<char>>
    decreases members.len(),
{
    if members.len() == 0 {
        None
    } else if members[0].0 == name {
        members[0].1
    } else {
        member_text(members.drop_first(), name)
    }
}

/// The error of `serde_json`. It is carried from the parser to its caller and
/// never looked into.
#[verifier::external_type_specification]
#[verifier::external_body]
pub struct ExJsonError(serde_json::Error);

/// Writes `text` as a JSON string through `serde_json`'s `Display` for
/// `Value::String`. The contract gives the literal its name, `json_string`.
#[verifier::external_body]
pub(crate) fn quote(text: &str) -> (literal: String)
    ensures
        literal@ == json_string(text@),
{
    serde_json::Value::String(text.to_owned()).to_string()
}

/// Reads `bytes` with `serde_json::from_slice` as a JSON object and hands out its
/// members, keeping the text of those that are strings. The contract says that the
/// call succeeds exactly where `object_members` is defined, with those members.
#[verifier::external_body]
pub(crate) fn parse_object(bytes: &[u8]) -> (parsed: Result<Members, serde_json::Error>)
    ensures
        parsed is Ok <==> object_members(bytes@) is Some,
        parsed matches Ok(members) ==> Some(members.deep_view()) == object_members(bytes@),
{
    let object: serde_json::Map<String, serde_json::Value> = serde_json::from_slice(bytes)?;
    Ok(object.into_iter().map(|(name, value)| (name, match value {
        serde_json::Value::String(text) => Some(text),
        serde_json::Value::Null => None,
        serde_json::Value::Bool(_) => None,
        serde_json::Value::Number(_) => None,
        serde_json::Value::Array(_) => None,
        serde_json::Value::Object(_) => None,
    })).collect())
}

/// The members of the JSON object that `bytes` spell, or `None` where they spell
/// none.
pub fn read_object(bytes: &[u8]) -> (members: Option<Members>)
    ensures
        members.deep_view() == object_members(bytes@),
{
    match parse_object(bytes) {
        Ok(members) => Some(members),
        Err(_) => None,
    }
}

/// Looks up the string member `name`.
pub fn string_member(members: &Members, name: &str) -> (text: Option<String>)
    ensures
        text.deep_view() == member_text(members.deep_view(), name@),
{
    let mut i: usize = 0;
    assert(members.deep_view().skip(0) =~= members.deep_view());
    while i < members.len()
        invariant
            i <= members.len(),
            members.deep_view().len() == members.len(),
            member_text(members.deep_view(), name@) == member_text(
                members.deep_view().skip(i as int),
                name@,
            ),
        decreases members.len() - i,
    {
        proof {
            let rest = members.deep_view().skip(i as int);
            assert(rest[0] == members.deep_view()[i as int]);
            assert(rest.drop_first() =~= members.deep_view().skip(i + 1));
        }
        if crate::text::same_text(members[i].0.as_str(), name) {
            return members[i].1.clone();
        }
        i += 1;
    }
    None
}

/// Writes a compact JSON array around elements that are JSON text already.
pub fn write_array(parts: &Vec<String>) -> (out: String)
    ensures
        out@ == array(parts.deep_view()),
{
    let ghost texts = parts.deep_view();
    let mut out = String::from_str("[");
    let mut i: usize = 0;
    proof {
        reveal_strlit("[");
        reveal_strlit(",");
        reveal_strlit("]");
        assert(texts.take(0) =~= Seq::<Seq<char>>::empty());
    }
    while i < parts.len()
        invariant
            i <= parts.len(),
            texts == parts.deep_view(),
            texts.len() == parts.len(),
            out@ == seq!['['] + comma_separated(texts.take(i as int)),
            ","@ == seq![','],
        decreases parts.len() - i,
    {
        proof {
            let before = texts.take(i as int);
            let now = texts.take(i + 1);
            assert(now.drop_last() =~= before);
            assert(now.last() == parts[i as int]@);
        }
        if i > 0 {
            out.append(",");
        }
        out.append(parts[i].as_str());
        i += 1;
        assert(out@ =~= seq!['['] + comma_separated(texts.take(i as int)));
    }
    assert(texts.take(parts.len() as int) =~= texts);
    out.append("]");
    out
}

/// Writes `items` as a compact JSON array of strings.
pub fn write_string_array(items: &Vec<String>) -> (out: String)
    ensures
        out@ == string_array(items.deep_view()),
{
    let mut parts: Vec<String> = Vec::new();
    let mut i: usize = 0;
    while i < items.len()
        invariant
            i <= items.len(),
            parts.len() == i,
            forall|j: int| 0 <= j < i ==> parts[j]@ == json_string(#[trigger] items[j]@),
        decreases items.len() - i,
    {
        parts.push(quote(items[i].as_str()));
        i += 1;
    }
    assert(parts.deep_view() =~= items.deep_view().map_values(|s: Seq<char>| json_string(s)));
    write_array(&parts)
}

} // verus!
