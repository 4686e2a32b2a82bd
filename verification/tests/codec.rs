use auth_irma::codec::{decode_names, decode_text, encode_names, encode_text, SegmentError};

fn names(list: &[&str]) -> Vec<String> {
    list.iter().map(|s| s.to_string()).collect()
}

#[test]
fn text_is_url_safe_base64_with_padding() {
    assert_eq!(encode_text("https://app.example/done"), "aHR0cHM6Ly9hcHAuZXhhbXBsZS9kb25l");
    assert_eq!(
        encode_text("https://app.example/done?x=1&y=a b/c#f"),
        "aHR0cHM6Ly9hcHAuZXhhbXBsZS9kb25lP3g9MSZ5PWEgYi9jI2Y="
    );
    assert_eq!(encode_text(""), "");
}

#[test]
fn names_are_a_json_array_in_base64() {
    assert_eq!(encode_names(&names(&["email"])).unwrap(), "WyJlbWFpbCJd");
    assert_eq!(encode_names(&names(&["email", "phone"])).unwrap(), "WyJlbWFpbCIsInBob25lIl0=");
}

#[test]
fn text_reads_back() {
    assert_eq!(decode_text("aHR0cHM6Ly9hcHAuZXhhbXBsZS9kb25l").unwrap(), "https://app.example/done");
    for text in ["", "a", "https://x.example/?a=1&b=%20#frag", "~~~???>>>", "caf\u{e9} \u{1f600} /+="] {
        let segment = encode_text(text);
        assert!(!segment.contains('/') && !segment.contains('+') && !segment.contains('?'));
        assert_eq!(decode_text(&segment).unwrap(), text);
    }
}

#[test]
fn names_read_back() {
    assert_eq!(decode_names("WyJlbWFpbCJd").unwrap(), names(&["email"]));
    for list in [names(&[]), names(&["email"]), names(&["a b", "\"quoted\"", "sl/ash", "caf\u{e9}"])] {
        let segment = encode_names(&list).unwrap();
        assert_eq!(decode_names(&segment).unwrap(), list);
    }
}

#[test]
fn malformed_base64_is_a_decode_error() {
    assert!(matches!(decode_text("not base64!"), Err(SegmentError::Decode(_))));
    assert!(matches!(decode_names("not base64!"), Err(SegmentError::Decode(_))));
    assert!(matches!(decode_text("aHR0cHM6Ly9hcHAuZXhhbXBsZS9kb25l+"), Err(SegmentError::Decode(_))));
    assert!(matches!(decode_text("a"), Err(SegmentError::Decode(_))));
}

#[test]
fn bytes_that_are_no_text_are_a_utf8_error() {
    assert!(matches!(decode_text("_w=="), Err(SegmentError::Utf(_))));
}

#[test]
fn other_json_is_a_json_error() {
    assert!(matches!(decode_names("eyJhIjoxfQ=="), Err(SegmentError::Json(_))));
    assert!(matches!(decode_names("_w=="), Err(SegmentError::Json(_))));
    assert!(matches!(decode_names(""), Err(SegmentError::Json(_))));
}

#[test]
fn segment_errors_have_the_message_of_their_cause() {
    let e = decode_text("a").unwrap_err();
    assert!(!e.message().is_empty());
    let e = decode_text("_w==").unwrap_err();
    assert!(e.message().starts_with("invalid utf-8"));
    let e = decode_names("eyJhIjoxfQ==").unwrap_err();
    assert!(e.message().starts_with("invalid type"));
}
