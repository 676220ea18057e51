//! Decoding a response body into artist entries. The JSON work is done
//! by serde_json behind one trusted wrapper; everything downstream of
//! it works on plain values.

use vstd::prelude::*;
use crate::error::Error;
use crate::output::Artist;

verus! {

/// Whether `serde_json::from_str` accepts the text as a JSON document.
/// Parsing is a pure function of the text, so the outcome has a name.
pub uninterp spec fn is_json(body: Seq<char>) -> bool;

/// The (name, playcount) string pairs under the document's
/// `topartists.artist` array, in array order, for a body that parses as
/// JSON; `None` when the document lacks that array or some element
/// lacks the two string fields. The accessors that walk the document
/// depend on the text alone, so this too has a name.
pub uninterp spec fn top_artist_entries(body: Seq<char>) -> Option<Seq<(Seq<char>, Seq<char>)>>;

/// The artists carry exactly the named entries: same count, and the
/// name and play count of each position, in order.
pub open spec fn artists_match(artists: Seq<Artist>, entries: Seq<(Seq<char>, Seq<char>)>) -> bool {
    &&& artists.len() == entries.len()
    &&& forall|i: int|
        #![trigger artists[i]]
        0 <= i < entries.len() ==> artists[i].name@ == entries[i].0 && artists[i].playcount@
            == entries[i].1
}

enum RawFailure {
    NotJson,
    BadShape,
}

/// Relies on `serde_json::from_str` to decide whether the body is JSON,
/// and on `serde_json::Value`'s index, `as_array` and `as_str`
/// accessors for the entries under `topartists.artist`; both are
/// functions of the body text alone.
#[verifier::external_body]
fn decode_top_artists(body: &str) -> (r: Result<Vec<Artist>, RawFailure>)
    ensures
        r is Err <==> !is_json(body@) || top_artist_entries(body@) is None,
        r matches Err(f) ==> (f is NotJson <==> !is_json(body@)),
        r matches Ok(artists) ==> is_json(body@) && (top_artist_entries(body@) matches Some(
            entries,
        ) && artists_match(artists@, entries)),
{
    let doc: serde_json::Value = match serde_json::from_str(body) {
        Ok(v) => v,
        Err(_) => return Err(RawFailure::NotJson),
    };
    let mut out: Vec<Artist> = Vec::new();
    for e in doc["topartists"]["artist"].as_array().ok_or(RawFailure::BadShape)? {
        match (e["name"].as_str(), e["playcount"].as_str()) {
            (Some(n), Some(p)) => out.push(Artist { name: n.to_owned(), playcount: p.to_owned() }),
            _ => return Err(RawFailure::BadShape),
        }
    }
    Ok(out)
}

/// Decodes a response body. A body that is not JSON is a decode error;
/// a JSON body without the expected `topartists.artist` entries is a
/// missing-field error; otherwise the entries come back in array order.
pub fn decode_artists(body: &str) -> (r: Result<Vec<Artist>, Error>)
    ensures
        !is_json(body@) ==> r == Err::<Vec<Artist>, Error>(Error::Decode),
        is_json(body@) && top_artist_entries(body@) is None ==> r == Err::<Vec<Artist>, Error>(
            Error::MissingField,
        ),
        is_json(body@) ==> (top_artist_entries(body@) matches Some(entries) ==> (r matches Ok(
            artists,
        ) && artists_match(artists@, entries))),
{
    match decode_top_artists(body) {
        Ok(artists) => Ok(artists),
        Err(RawFailure::NotJson) => Err(Error::Decode),
        Err(RawFailure::BadShape) => Err(Error::MissingField),
    }
}

} // verus!
