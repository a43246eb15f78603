//! Query strings: decoding into name/value pairs, and lookup by name.

use vstd::prelude::*;

verus! {

/// The name/value pairs that `application/x-www-form-urlencoded` decoding finds in
/// a query string, in the order in which they stand in it.
pub uninterp spec fn form_pairs(query: Seq<char>) -> Seq<(Seq<char>, Seq<char>)>;

/// The value of the first pair named `key`, if there is one.
pub open spec fn first_value(pairs: Seq<(Seq<char>, Seq<char>)>, key: Seq<char>) -> Option<
    Seq<char>,
>
    decreases pairs.len(),
{
    if pairs.len() == 0 {
        None
    } else if pairs[0].0 == key {
        Some(pairs[0].1)
    } else {
        first_value(pairs.drop_first(), key)
    }
}

/// What a request's query string gives for `key`: nothing where the request has no
/// query string, else the first decoded value under that name.
pub open spec fn param(query: Option<Seq<char>>, key: Seq<char>) -> Option<Seq<char>> {
    match query {
        Some(q) => first_value(form_pairs(q), key),
        None => None,
    }
}

/// Decodes a query string with `url::form_urlencoded::parse`, which splits its
/// input at `&`, each piece at its first `=`, and percent-decodes both halves.
/// The contract only gives the decoded pairs their name, `form_pairs`.
#[verifier::external_body]
pub(crate) fn parse_form(query: &str) -> (pairs: Vec<(String, String)>)
    ensures
        pairs.deep_view() == form_pairs(query@),
{
    url::form_urlencoded::parse(query.as_bytes()).into_owned().collect()
}

/// Looks `key` up among decoded pairs; the first pair of that name wins.
pub fn lookup(pairs: &Vec<(String, String)>, key: &str) -> (value: Option<String>)
    ensures
        value.deep_view() == first_value(pairs.deep_view(), key@),
{
    let mut i: usize = 0;
    assert(pairs.deep_view().skip(0) =~= pairs.deep_view());
    while i < pairs.len()
        invariant
            i <= pairs.len(),
            pairs.deep_view().len() == pairs.len(),
            first_value(pairs.deep_view(), key@) == first_value(
                pairs.deep_view().skip(i as int),
                key@,
            ),
        decreases pairs.len() - i,
    {
        proof {
            let rest = pairs.deep_view().skip(i as int);
            assert(rest[0] == pairs.deep_view()[i as int]);
            assert(rest.drop_first() =~= pairs.deep_view().skip(i + 1));
        }
        if crate::text::same_text(pairs[i].0.as_str(), key) {
            return Some(pairs[i].1.clone());
        }
        i += 1;
    }
    None
}

} // verus!
