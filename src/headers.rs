//! Request headers: an ordered list of names with their values, read from a
//! JSON object, and a lookup that ignores ASCII case in names.

use vstd::prelude::*;
use crate::text::{eq_ignore_ascii_case, opt_view, same_ignoring_ascii_case};

verus! {

/// One header: its name and, where the value is a string, the value. A value
/// of any other kind (number, list, object, null) is kept as `None`.
pub struct Header {
    pub name: String,
    pub value: Option<String>,
}

impl View for Header {
    type V = (Seq<char>, Option<Seq<char>>);

    open spec fn view(&self) -> (Seq<char>, Option<Seq<char>>) {
        (self.name@, opt_view(self.value))
    }
}

/// The contents of a header list.
pub open spec fn headers_view(hs: Seq<Header>) -> Seq<(Seq<char>, Option<Seq<char>>)> {
    hs.map_values(|h: Header| h@)
}

/// The contents of an optional header list.
pub open spec fn opt_headers_view(o: Option<Vec<Header>>) -> Option<
    Seq<(Seq<char>, Option<Seq<char>>)>,
> {
    match o {
        Some(v) => Some(headers_view(v@)),
        None => None,
    }
}

/// The entries of the JSON text `text` read as a `serde_json::Value`, in the
/// order in which its object map yields them: `None` where the text is not
/// JSON or its top-level value is not an object.
pub uninterp spec fn json_object_entries(text: Seq<char>) -> Option<
    Seq<(Seq<char>, Option<Seq<char>>)>,
>;

/// Relies on `serde_json::from_str` into a `serde_json::Value`: the parsed
/// object's entries, each string value kept and any other value dropped to
/// `None`, or `None` where the text does not parse or is not an object.
#[verifier::external_body]
fn parse_json_object(text: &str) -> (r: Option<Vec<Header>>)
    ensures
        opt_headers_view(r) == json_object_entries(text@),
{
    match serde_json::from_str::<serde_json::Value>(text) {
        Ok(serde_json::Value::Object(map)) => Some(
            map.into_iter().map(|(name, value)| Header {
                name,
                value: match value {
                    serde_json::Value::String(s) => Some(s),
                    _ => None,
                },
            }).collect(),
        ),
        _ => None,
    }
}

/// The headers carried by the JSON text `text`; none where it is malformed or
/// not an object.
pub open spec fn headers_of_json(text: Seq<char>) -> Seq<(Seq<char>, Option<Seq<char>>)> {
    match json_object_entries(text) {
        Some(entries) => entries,
        None => Seq::empty(),
    }
}

/// Reads the headers out of a JSON object of names and values. Malformed
/// text, or JSON whose top-level value is not an object, gives no headers.
pub fn headers_from_json(text: &str) -> (r: Vec<Header>)
    ensures
        headers_view(r@) == headers_of_json(text@),
{
    match parse_json_object(text) {
        Some(v) => v,
        None => Vec::new(),
    }
}

/// The value of the first header, in list order, whose name equals `key` up
/// to ASCII case and whose value is a string.
pub open spec fn header_value(hs: Seq<(Seq<char>, Option<Seq<char>>)>, key: Seq<char>) -> Option<
    Seq<char>,
>
    decreases hs.len(),
{
    if hs.len() == 0 {
        None
    } else if same_ignoring_ascii_case(hs[0].0, key) && hs[0].1 is Some {
        hs[0].1
    } else {
        header_value(hs.drop_first(), key)
    }
}

/// Looks a header up by name, ignoring ASCII case. Where several names match,
/// the first in list order whose value is a string wins; a matching header
/// whose value is not a string is passed over.
pub fn find_header(headers: &[Header], key: &str) -> (r: Option<String>)
    ensures
        opt_view(r) == header_value(headers_view(headers@), key@),
{
    let ghost hv = headers_view(headers@);
    let mut i: usize = 0;
    assert(hv.skip(0) =~= hv);
    while i < headers.len()
        invariant
            hv == headers_view(headers@),
            i <= headers@.len(),
            header_value(hv, key@) == header_value(hv.skip(i as int), key@),
        decreases headers@.len() - i,
    {
        let h = &headers[i];
        assert(hv.skip(i as int).drop_first() =~= hv.skip(i + 1));
        assert(hv.skip(i as int)[0] == h@);
        if eq_ignore_ascii_case(h.name.as_str(), key) {
            if let Some(v) = &h.value {
                return Some(v.clone());
            }
        }
        i = i + 1;
    }
    assert(hv.skip(i as int) =~= Seq::<(Seq<char>, Option<Seq<char>>)>::empty());
    None
}

} // verus!
