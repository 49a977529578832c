//! Storage encoding of the optional list fields of a check-in.
//!
//! A present list is stored as its JSON text; an absent list is stored as the
//! empty string, never as a null marker. Reading turns the empty string, and
//! any text that does not decode, back into "absent".

use vstd::prelude::*;

verus! {

#[verifier::external_type_specification]
#[verifier::external_body]
pub struct ExJsonError(serde_json::Error);

/// The characters of each string of a list.
pub open spec fn texts(v: Seq<String>) -> Seq<Seq<char>> {
    v.map_values(|s: String| s@)
}

/// The characters of each string of an optional list.
pub open spec fn opt_texts(o: Option<Vec<String>>) -> Option<Seq<Seq<char>>> {
    match o {
        Some(v) => Some(texts(v@)),
        None => None,
    }
}

/// The JSON text that serde_json writes for a list of strings.
pub uninterp spec fn json_text_of(items: Seq<Seq<char>>) -> Seq<char>;

/// The list of strings that serde_json reads from a text, or nothing where
/// the text is not a JSON array of strings.
pub uninterp spec fn json_strings_of(s: Seq<char>) -> Option<Seq<Seq<char>>>;

/// Relies on `serde_json::to_string` for a `Vec<String>`: it writes the JSON
/// array of the strings, which opens with `[`, and never fails (a string's
/// serialization does not fail and the list holds no map).
#[verifier::external_body]
fn json_encode(items: &Vec<String>) -> (r: Result<String, serde_json::Error>)
    ensures
        r is Ok,
        r is Ok ==> r->Ok_0@ == json_text_of(texts(items@)),
        r is Ok ==> r->Ok_0@.len() > 0,
{
    serde_json::to_string(items)
}

/// Relies on `serde_json::from_str` for a `Vec<String>`, errors dropped.
#[verifier::external_body]
fn json_decode(s: &str) -> (r: Option<Vec<String>>)
    ensures
        opt_texts(r) == json_strings_of(s@),
{
    serde_json::from_str::<Vec<String>>(s).ok()
}

/// Stored text of an optional list field.
pub open spec fn encoded_list(o: Option<Seq<Seq<char>>>) -> Seq<char> {
    match o {
        Some(v) => json_text_of(v),
        None => Seq::empty(),
    }
}

/// The optional list that a stored text field reads back as.
pub open spec fn decoded_list(s: Seq<char>) -> Option<Seq<Seq<char>>> {
    if s.len() == 0 {
        None
    } else {
        json_strings_of(s)
    }
}

/// Encodes an optional list field for storage.
pub fn encode_list(items: &Option<Vec<String>>) -> (r: String)
    ensures
        r@ == encoded_list(opt_texts(*items)),
        r@.len() == 0 <==> items is None,
{
    match items {
        Some(v) => match json_encode(v) {
            Ok(s) => s,
            Err(_) => String::new(),
        },
        None => String::new(),
    }
}

/// Decodes a stored list field; the empty string and undecodable text read
/// as absent.
pub fn decode_list(stored: &str) -> (r: Option<Vec<String>>)
    ensures
        opt_texts(r) == decoded_list(stored@),
{
    if stored.is_empty() {
        None
    } else {
        json_decode(stored)
    }
}

} // verus!
