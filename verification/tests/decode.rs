use top_artists::decode::decode_artists;
use top_artists::error::Error;
use top_artists::output::plain_lines;

#[test]
fn malformed_body_is_a_decode_error() {
    let r = decode_artists("this is not json");
    assert_eq!(r, Err(Error::Decode));
    assert_eq!(Error::Decode.message(), "Could not convert response to JSON");
}

#[test]
fn empty_body_is_a_decode_error() {
    assert_eq!(decode_artists(""), Err(Error::Decode));
}

#[test]
fn json_without_topartists_is_a_missing_field_error() {
    assert_eq!(decode_artists("{\"foo\": 1}"), Err(Error::MissingField));
}

#[test]
fn topartists_artist_of_wrong_type_is_a_missing_field_error() {
    let body = "{\"topartists\": {\"artist\": 5}}";
    assert_eq!(decode_artists(body), Err(Error::MissingField));
}

#[test]
fn entry_without_string_fields_is_a_missing_field_error() {
    let body = "{\"topartists\": {\"artist\": [{\"name\": \"A\"}]}}";
    assert_eq!(decode_artists(body), Err(Error::MissingField));
    let numeric = "{\"topartists\": {\"artist\": [{\"name\": \"A\", \"playcount\": 10}]}}";
    assert_eq!(decode_artists(numeric), Err(Error::MissingField));
}

#[test]
fn well_formed_body_yields_the_entries_in_order() {
    let body = "{\"topartists\": {\"artist\": [\
        {\"name\": \"A\", \"playcount\": \"10\", \"url\": \"ignored\"}, \
        {\"name\": \"B\", \"playcount\": \"5\"}, \
        {\"name\": \"C\", \"playcount\": \"2\"}]}}";
    let artists = decode_artists(body).unwrap();
    assert_eq!(artists.len(), 3);
    assert_eq!(artists[0].name, "A");
    assert_eq!(artists[0].playcount, "10");
    assert_eq!(artists[2].name, "C");
    assert_eq!(artists[2].playcount, "2");
    let lines = plain_lines(&artists);
    assert_eq!(lines, vec!["A (10)", "B (5)", "C (2)"]);
}

#[test]
fn empty_artist_array_decodes_to_no_entries() {
    let body = "{\"topartists\": {\"artist\": []}}";
    let artists = decode_artists(body).unwrap();
    assert!(artists.is_empty());
}
