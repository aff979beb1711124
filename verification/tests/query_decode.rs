use kurzlink::query::{decode_query, default_payload};

#[test]
fn plain_field_is_extracted() {
    assert_eq!(decode_query("q=hello"), b"hello");
    assert_eq!(decode_query("q=https://example.org"), b"https://example.org");
}

#[test]
fn percent_and_plus_are_decoded() {
    assert_eq!(decode_query("q=a%20b"), b"a b");
    assert_eq!(decode_query("q=a+b"), b"a b");
    assert_eq!(decode_query("q=%41%62"), b"Ab");
    assert_eq!(decode_query("q=100%25"), b"100%");
}

#[test]
fn field_may_sit_between_other_pairs() {
    assert_eq!(decode_query("a=1&q=x&b=2"), b"x");
    assert_eq!(decode_query("%71=x"), b"x");
}

#[test]
fn surrounding_whitespace_is_trimmed() {
    assert_eq!(decode_query("  q=x  "), b"x");
    assert_eq!(decode_query("q=%20x%20"), b"x");
}

#[test]
fn missing_field_yields_the_default() {
    assert_eq!(decode_query(""), default_payload());
    assert_eq!(decode_query("a=1&b=2"), default_payload());
}

#[test]
fn blank_field_yields_the_default() {
    assert_eq!(decode_query("q="), default_payload());
    assert_eq!(decode_query("q=%20%20"), default_payload());
    assert_eq!(decode_query("q=+"), default_payload());
}

#[test]
fn malformed_escape_yields_the_default() {
    assert_eq!(decode_query("q=%zz"), default_payload());
    assert_eq!(decode_query("q=%4"), default_payload());
    assert_eq!(decode_query("broken%=1&q=x"), default_payload());
}

#[test]
fn repeated_field_yields_the_default() {
    assert_eq!(decode_query("q=x&q=y"), default_payload());
}

#[test]
fn default_payload_is_the_fallback_url() {
    assert_eq!(default_payload(), b"https://www.vetmed.fu-berlin.de/");
}
