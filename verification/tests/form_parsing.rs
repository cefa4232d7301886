use zfs_unlock::form::form_key_value;

fn key_of(body: &[u8]) -> Option<Vec<u8>> {
    form_key_value(&body.to_vec())
}

/// What the reference form-urlencoded parser extracts for the field `key`.
fn key_of_reference(body: &[u8]) -> Option<Vec<u8>> {
    url::form_urlencoded::parse(body)
        .find_map(|(k, v)| (k == "key").then_some(v.into_owned().into_bytes()))
}

#[test]
fn plain_value_is_extracted_verbatim() {
    assert_eq!(key_of(b"key=correct-pass"), Some(b"correct-pass".to_vec()));
}

#[test]
fn missing_key_field_yields_none() {
    assert_eq!(key_of(b"foo=bar"), None);
    assert_eq!(key_of(b""), None);
    assert_eq!(key_of(b"keys=1"), None);
    assert_eq!(key_of(b"ke=1&y=2"), None);
}

#[test]
fn first_key_field_wins() {
    assert_eq!(key_of(b"a=1&key=first&key=second"), Some(b"first".to_vec()));
}

#[test]
fn key_without_equals_sign_has_empty_value() {
    assert_eq!(key_of(b"key"), Some(Vec::new()));
    assert_eq!(key_of(b"key="), Some(Vec::new()));
}

#[test]
fn plus_decodes_to_space() {
    assert_eq!(key_of(b"key=a+b+c"), Some(b"a b c".to_vec()));
}

#[test]
fn percent_sequences_decode_to_bytes() {
    assert_eq!(key_of(b"key=a%20b%2Bc"), Some(b"a b+c".to_vec()));
    assert_eq!(key_of(b"key=%7E%7e"), Some(b"~~".to_vec()));
}

#[test]
fn percent_encoded_name_still_matches() {
    assert_eq!(key_of(b"%6B%65%79=x"), Some(b"x".to_vec()));
}

#[test]
fn malformed_percent_sequence_stays_literal() {
    assert_eq!(key_of(b"key=%zz"), Some(b"%zz".to_vec()));
    assert_eq!(key_of(b"key=%4"), Some(b"%4".to_vec()));
    assert_eq!(key_of(b"key=%"), Some(b"%".to_vec()));
}

#[test]
fn empty_segments_are_skipped() {
    assert_eq!(key_of(b"&&key=v&&"), Some(b"v".to_vec()));
}

#[test]
fn value_keeps_later_equals_signs() {
    assert_eq!(key_of(b"key=a=b"), Some(b"a=b".to_vec()));
}

#[test]
fn untrimmed_whitespace_is_part_of_the_value() {
    assert_eq!(key_of(b"key=%20pass%20"), Some(b" pass ".to_vec()));
}

#[test]
fn extraction_agrees_with_reference_parser() {
    let bodies: [&[u8]; 12] = [
        b"key=correct-pass",
        b"foo=bar",
        b"a=1&key=first&key=second",
        b"key",
        b"key=",
        b"key=a+b+c",
        b"key=a%20b%2Bc",
        b"%6B%65%79=x",
        b"key=%zz",
        b"&&key=v&&",
        b"key=a=b",
        b"ke%79=%41%6c%69%63%65",
    ];
    for body in bodies {
        assert_eq!(key_of(body), key_of_reference(body), "body {:?}", body);
    }
}
