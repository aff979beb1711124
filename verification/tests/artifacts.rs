use kurzlink::assets::{asset_handler, pdf, png, svg};
use kurzlink::qr::CodeMatrix;
use kurzlink::query::{decode_query, default_payload};

#[test]
fn svg_request_scenario() {
    let r = asset_handler("/kurzlink.svg", "q=https://example.org");
    assert_eq!(r.status, 200);
    assert_eq!(r.content_type, Some("image/svg+xml; charset=utf-8"));
    assert_eq!(r.cache_control, Some("max-age=3600,private,immutable"));
    let body = String::from_utf8(r.body.clone()).unwrap();
    assert!(body.starts_with("<?xml"));
    assert!(body.contains("<svg"));
}

#[test]
fn identical_requests_are_byte_identical() {
    for path in ["/kurzlink.svg", "/kurzlink.png", "/kurzlink.pdf"] {
        let a = asset_handler(path, "q=https://example.org");
        let b = asset_handler(path, "q=https://example.org");
        assert_eq!(a.status, 200);
        assert_eq!(a.status, b.status);
        assert_eq!(a.content_type, b.content_type);
        assert_eq!(a.cache_control, b.cache_control);
        assert_eq!(a.body, b.body);
    }
}

#[test]
fn missing_query_equals_default_query() {
    let missing = decode_query("");
    let explicit = decode_query("q=https://www.vetmed.fu-berlin.de/");
    assert_eq!(missing, default_payload());
    assert_eq!(missing, explicit);

    let m1 = CodeMatrix::new(&missing).unwrap();
    let m2 = CodeMatrix::new(&explicit).unwrap();
    assert_eq!(m1.width(), m2.width());
    assert_eq!(m1.modules(), m2.modules());

    for path in ["/kurzlink.svg", "/kurzlink.png", "/kurzlink.pdf"] {
        let a = asset_handler(path, "");
        let b = asset_handler(path, "q=https://www.vetmed.fu-berlin.de/");
        assert_eq!(a.status, 200);
        assert_eq!(a.body, b.body);
    }
}

#[test]
fn payload_over_capacity_is_404_not_a_crash() {
    // 2953 bytes is the byte-mode capacity at the fixed error-correction
    // strength; one more must degrade to a 404.
    let over = format!("q={}", "a".repeat(2954));
    let r = asset_handler("/kurzlink.svg", &over);
    assert_eq!(r.status, 404);
    assert!(r.body.is_empty());
    assert!(r.content_type.is_none());
}

#[test]
fn payload_at_capacity_still_encodes() {
    let at = format!("q={}", "a".repeat(2953));
    let r = asset_handler("/kurzlink.svg", &at);
    assert_eq!(r.status, 200);
    assert!(!r.body.is_empty());
}

#[test]
fn matrix_grows_with_payload_length() {
    let mut last = 0;
    for n in [1usize, 10, 50, 200, 800, 2000] {
        let payload = vec![b'a'; n];
        let m = CodeMatrix::new(&payload).unwrap();
        assert!(m.width() >= 21);
        assert!(m.width() >= last);
        assert_eq!(m.modules().len(), m.width() * m.width());
        last = m.width();
    }
}

#[test]
fn matrix_has_the_finder_patterns() {
    let m = CodeMatrix::new(b"https://example.org").unwrap();
    let w = m.width();
    // The three finder patterns put a dark module in these corners.
    assert!(m.module(0, 0));
    assert!(m.module(w - 1, 0));
    assert!(m.module(0, w - 1));
    // The module right inside the top-left finder ring is light.
    assert!(!m.module(1, 1));
}

#[test]
fn each_encoder_produces_an_artifact() {
    let q = "q=https://example.org";
    let s = svg(q).unwrap();
    assert!(!s.is_empty());
    let p = png(q).unwrap();
    // A raster container starts with the fixed signature.
    assert_eq!(&p[..8], &[0x89, b'P', b'N', b'G', b'\r', b'\n', 0x1a, b'\n']);
    let d = pdf(q).unwrap();
    assert_eq!(&d[..5], b"%PDF-");
}
