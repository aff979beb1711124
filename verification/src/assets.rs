//! The content router: maps a request path and raw query string to a
//! response.  Content types come from a fixed extension whitelist; content
//! comes from the generated page, embedded static assets, or one of the
//! three artifact encoders; anything else is a 404 with an empty body.

use vstd::prelude::*;
use vstd::slice::slice_to_vec;

use crate::index_html::INDEX_HTML;
use crate::qr::{
    encode_png, luma_of, pdf_of, png_of, qr_grid_of, render_luma, render_svg, svg_of, svg_to_pdf,
    CodeMatrix,
};
use crate::query::{decode_query, payload_spec, trim_spec};
use vstd::string::StringSliceAdditionalSpecFns;

verus! {

/// The embedded stylesheet that normalizes rendering across engines.
pub const MODERN_NORMALIZE_CSS: &'static str = "*,::before,::after{box-sizing:border-box}\
html{font-family:system-ui,sans-serif;line-height:1.15;-webkit-text-size-adjust:100%;tab-size:4}\
body{margin:0}\
b,strong{font-weight:bolder}\
code,kbd,samp,pre{font-family:ui-monospace,monospace;font-size:1em}\
small{font-size:80%}\
table{border-color:currentcolor}\
button,input,optgroup,select,textarea{font-family:inherit;font-size:100%;line-height:1.15;margin:0}\
legend{padding:0}";

/// The embedded application stylesheet.
pub const STYLE_CSS: &'static str = "body{padding:1rem;background:#111;color:#eee}\
h1{text-align:center}\
form{margin:1rem auto;max-width:40rem}\
input{width:100%}\
.grid{display:flex;justify-content:center;gap:1rem}\
.grid img{width:200px;height:200px;background:#fff}\
.hint{font-size:80%}";

/// The embedded page script: it rewrites the three artifact references
/// whenever the URL field changes.
pub const SCRIPT_JS: &'static str = "(function () {\
var input = document.getElementById('url');\
function update() {\
var q = '?q=' + encodeURIComponent(input.value);\
['svg', 'png', 'pdf'].forEach(function (ext) {\
var a = document.getElementById(ext);\
a.href = './kurzlink.' + ext + q;\
a.firstElementChild.src = './kurzlink.svg' + q;\
});\
}\
input.addEventListener('input', update);\
update();\
})();";

/// The caching policy attached to every successful response: each artifact
/// is a pure function of its query string, so clients may cache it
/// privately for an hour.
pub const CACHE_CONTROL: &'static str = "max-age=3600,private,immutable";

/// An HTTP-style response: a status code, optional content-type and cache
/// headers, and the body bytes.
pub struct HttpResponse {
    /// The status code: 200 for resolved content, 404 otherwise.
    pub status: u16,
    /// The content-type header, absent on a 404.
    pub content_type: Option<&'static str>,
    /// The cache-control header, absent on a 404.
    pub cache_control: Option<&'static str>,
    /// The body bytes, empty on a 404.
    pub body: Vec<u8>,
}

/// Whether `s` ends with `suffix`.
pub open spec fn has_suffix(s: Seq<u8>, suffix: Seq<u8>) -> bool {
    suffix.len() <= s.len() && s.skip(s.len() - suffix.len()) == suffix
}

fn ends_with_bytes(s: &[u8], suffix: &[u8]) -> (r: bool)
    ensures
        r == has_suffix(s@, suffix@),
{
    if suffix.len() > s.len() {
        return false;
    }
    let off = s.len() - suffix.len();
    let mut i: usize = 0;
    while i < suffix.len()
        invariant
            i <= suffix@.len(),
            suffix@.len() <= s@.len(),
            s@.len() <= usize::MAX,
            off == s@.len() - suffix@.len(),
            forall|j: int| 0 <= j < i ==> s@[off + j] == suffix@[j],
        decreases suffix@.len() - i,
    {
        proof {
            assert(off + i < s@.len());
        }
        if s[off + i] != suffix[i] {
            proof {
                assert(s@.skip(off as int)[i as int] == s@[off + i as int]);
            }
            return false;
        }
        i = i + 1;
    }
    proof {
        assert(s@.skip(off as int) =~= suffix@);
    }
    true
}

fn bytes_eq(a: &[u8], b: &[u8]) -> (r: bool)
    ensures
        r == (a@ == b@),
{
    if a.len() != b.len() {
        return false;
    }
    let mut i: usize = 0;
    while i < a.len()
        invariant
            i <= a@.len(),
            a@.len() == b@.len(),
            forall|j: int| 0 <= j < i ==> a@[j] == b@[j],
        decreases a@.len() - i,
    {
        if a[i] != b[i] {
            return false;
        }
        i = i + 1;
    }
    proof {
        assert(a@ =~= b@);
    }
    true
}

/// The content type a request path resolves to, by file-extension suffix
/// over the fixed whitelist; `None` for an unrecognized extension.
pub open spec fn mimetype_spec(p: Seq<u8>) -> Option<Seq<char>> {
    if has_suffix(p, ".css".spec_bytes()) {
        Some("text/css; charset=utf-8"@)
    } else if has_suffix(p, ".html".spec_bytes()) {
        Some("text/html; charset=utf-8"@)
    } else if has_suffix(p, ".js".spec_bytes()) {
        Some("text/javascript; charset=utf-8"@)
    } else if has_suffix(p, ".pdf".spec_bytes()) {
        Some("application/pdf"@)
    } else if has_suffix(p, ".png".spec_bytes()) {
        Some("image/png"@)
    } else if has_suffix(p, ".svg".spec_bytes()) {
        Some("image/svg+xml; charset=utf-8"@)
    } else if has_suffix(p, ".txt".spec_bytes()) {
        Some("text/plain; charset=utf-8"@)
    } else if has_suffix(p, ".ttf".spec_bytes()) {
        Some("font/ttf"@)
    } else {
        None
    }
}

/// The content type for a request path, or `None` if its extension is not
/// whitelisted.  The root path `/` carries no listed extension, but every
/// path the router resolves for it does.
pub fn mimetype(path: &str) -> (r: Option<&'static str>)
    ensures
        match mimetype_spec(path.spec_bytes()) {
            Some(m) => r is Some && r.unwrap()@ == m,
            None => r is None,
        },
{
    let p = path.as_bytes();
    if ends_with_bytes(p, ".css".as_bytes()) {
        Some("text/css; charset=utf-8")
    } else if ends_with_bytes(p, ".html".as_bytes()) {
        Some("text/html; charset=utf-8")
    } else if ends_with_bytes(p, ".js".as_bytes()) {
        Some("text/javascript; charset=utf-8")
    } else if ends_with_bytes(p, ".pdf".as_bytes()) {
        Some("application/pdf")
    } else if ends_with_bytes(p, ".png".as_bytes()) {
        Some("image/png")
    } else if ends_with_bytes(p, ".svg".as_bytes()) {
        Some("image/svg+xml; charset=utf-8")
    } else if ends_with_bytes(p, ".txt".as_bytes()) {
        Some("text/plain; charset=utf-8")
    } else if ends_with_bytes(p, ".ttf".as_bytes()) {
        Some("font/ttf")
    } else {
        None
    }
}

/// The vector artifact for a raw query string: the markup of the payload's
/// module matrix, or `None` if the payload exceeds the format's capacity.
pub open spec fn svg_artifact_spec(q: Seq<u8>) -> Option<Seq<u8>> {
    match qr_grid_of(payload_spec(q)) {
        Some(grid) => Some(svg_of(grid)),
        None => None,
    }
}

/// The raster artifact for a raw query string.
pub open spec fn png_artifact_spec(q: Seq<u8>) -> Option<Seq<u8>> {
    match qr_grid_of(payload_spec(q)) {
        Some(grid) => {
            let (data, width, height) = luma_of(grid);
            png_of(data, width, height)
        },
        None => None,
    }
}

/// The document artifact for a raw query string: the vector markup pushed
/// through the page converter.
pub open spec fn pdf_artifact_spec(q: Seq<u8>) -> Option<Seq<u8>> {
    match qr_grid_of(payload_spec(q)) {
        Some(grid) => pdf_of(svg_of(grid)),
        None => None,
    }
}

/// Renders the vector artifact for a raw query string.
pub fn svg(query: &str) -> (r: Option<Vec<u8>>)
    ensures
        match svg_artifact_spec(query.spec_bytes()) {
            Some(b) => r is Some && r.unwrap()@ == b,
            None => r is None,
        },
{
    let payload = decode_query(query);
    match CodeMatrix::new(payload.as_slice()) {
        None => None,
        Some(cm) => Some(render_svg(&cm)),
    }
}

/// Renders the raster artifact for a raw query string.
pub fn png(query: &str) -> (r: Option<Vec<u8>>)
    ensures
        match png_artifact_spec(query.spec_bytes()) {
            Some(b) => r is Some && r.unwrap()@ == b,
            None => r is None,
        },
{
    let payload = decode_query(query);
    match CodeMatrix::new(payload.as_slice()) {
        None => None,
        Some(cm) => {
            let (data, width, height) = render_luma(&cm);
            encode_png(&data, width, height)
        },
    }
}

/// Renders the document artifact for a raw query string.
pub fn pdf(query: &str) -> (r: Option<Vec<u8>>)
    ensures
        match pdf_artifact_spec(query.spec_bytes()) {
            Some(b) => r is Some && r.unwrap()@ == b,
            None => r is None,
        },
{
    let payload = decode_query(query);
    match CodeMatrix::new(payload.as_slice()) {
        None => None,
        Some(cm) => {
            let markup = render_svg(&cm);
            proof {
                assert(exists|grid: Seq<Seq<bool>>| markup@ == svg_of(grid)) by {
                    assert(markup@ == svg_of(cm@));
                }
            }
            svg_to_pdf(&markup)
        },
    }
}

/// What content a trimmed request path resolves to: the generated page, an
/// embedded static asset, or one of the three artifacts; `None` for an
/// unknown path or a failed encoder.
pub open spec fn content_spec(p: Seq<u8>, q: Seq<u8>) -> Option<Seq<u8>> {
    let pt = trim_spec(p);
    if pt == "/".spec_bytes() || pt == "/index.html".spec_bytes() {
        Some(INDEX_HTML.spec_bytes())
    } else if pt == "/modern-normalize.css".spec_bytes() {
        Some(MODERN_NORMALIZE_CSS.spec_bytes())
    } else if pt == "/style.css".spec_bytes() {
        Some(STYLE_CSS.spec_bytes())
    } else if pt == "/script.js".spec_bytes() {
        Some(SCRIPT_JS.spec_bytes())
    } else if pt == "/kurzlink.svg".spec_bytes() {
        svg_artifact_spec(q)
    } else if pt == "/kurzlink.pdf".spec_bytes() {
        pdf_artifact_spec(q)
    } else if pt == "/kurzlink.png".spec_bytes() {
        png_artifact_spec(q)
    } else {
        None
    }
}

/// Resolves a request path (and its raw query string, for the artifact
/// paths) to content bytes.
pub fn content(path: &str, query: &str) -> (r: Option<Vec<u8>>)
    ensures
        match content_spec(path.spec_bytes(), query.spec_bytes()) {
            Some(b) => r is Some && r.unwrap()@ == b,
            None => r is None,
        },
{
    let pt = crate::query::trim_bytes(path.as_bytes());
    let pts = pt.as_slice();
    if bytes_eq(pts, "/".as_bytes()) || bytes_eq(pts, "/index.html".as_bytes()) {
        Some(slice_to_vec(INDEX_HTML.as_bytes()))
    } else if bytes_eq(pts, "/modern-normalize.css".as_bytes()) {
        Some(slice_to_vec(MODERN_NORMALIZE_CSS.as_bytes()))
    } else if bytes_eq(pts, "/style.css".as_bytes()) {
        Some(slice_to_vec(STYLE_CSS.as_bytes()))
    } else if bytes_eq(pts, "/script.js".as_bytes()) {
        Some(slice_to_vec(SCRIPT_JS.as_bytes()))
    } else if bytes_eq(pts, "/kurzlink.svg".as_bytes()) {
        svg(query)
    } else if bytes_eq(pts, "/kurzlink.pdf".as_bytes()) {
        pdf(query)
    } else if bytes_eq(pts, "/kurzlink.png".as_bytes()) {
        png(query)
    } else {
        None
    }
}

/// The full routing contract: what the response to a request must look
/// like.  An unrecognized extension or unresolved content is a 404 with an
/// empty body and no headers; resolved content is a 200 carrying the
/// whitelisted content type, the caching policy and the content bytes.
pub open spec fn response_matches(r: HttpResponse, p: Seq<u8>, q: Seq<u8>) -> bool {
    match mimetype_spec(p) {
        None => r.status == 404 && r.body@ == Seq::<u8>::empty() && r.content_type is None
            && r.cache_control is None,
        Some(m) => match content_spec(p, q) {
            None => r.status == 404 && r.body@ == Seq::<u8>::empty() && r.content_type is None
                && r.cache_control is None,
            Some(b) => r.status == 200 && r.body@ == b && r.content_type is Some
                && r.content_type.unwrap()@ == m && r.cache_control is Some
                && r.cache_control.unwrap()@ == CACHE_CONTROL@,
        },
    }
}

fn not_found() -> (r: HttpResponse)
    ensures
        r.status == 404 && r.body@ == Seq::<u8>::empty() && r.content_type is None
            && r.cache_control is None,
{
    HttpResponse { status: 404, content_type: None, cache_control: None, body: Vec::new() }
}

/// Serves one request: resolves the content type and the content, attaches
/// the caching header on success, and degrades everything else - unknown
/// path, unknown extension, over-capacity payload, failed encoder - to a
/// 404 with an empty body.
pub fn asset_handler(path: &str, query: &str) -> (r: HttpResponse)
    ensures
        response_matches(r, path.spec_bytes(), query.spec_bytes()),
{
    match mimetype(path) {
        None => not_found(),
        Some(content_type) => match content(path, query) {
            None => not_found(),
            Some(body) => HttpResponse {
                status: 200,
                content_type: Some(content_type),
                cache_control: Some(CACHE_CONTROL),
                body,
            },
        },
    }
}

/// A query with no `q` field decodes to the same payload as the query
/// `q=<default fallback URL>`, so on every artifact path the two requests
/// yield the same module matrix and the same artifact bytes.
pub proof fn lemma_missing_query_equals_default()
    ensures
        payload_spec(Seq::<u8>::empty()) == crate::query::default_payload_spec(),
        payload_spec(seq![113u8, 61u8] + crate::query::default_payload_spec()) == crate::query::default_payload_spec(),
        svg_artifact_spec(Seq::<u8>::empty()) == svg_artifact_spec(
            seq![113u8, 61u8] + crate::query::default_payload_spec(),
        ),
        png_artifact_spec(Seq::<u8>::empty()) == png_artifact_spec(
            seq![113u8, 61u8] + crate::query::default_payload_spec(),
        ),
        pdf_artifact_spec(Seq::<u8>::empty()) == pdf_artifact_spec(
            seq![113u8, 61u8] + crate::query::default_payload_spec(),
        ),
{
    crate::query::lemma_missing_query_equals_default();
}

/// Idempotence of the request pipeline: any two responses to the same
/// request (same path, same query) agree byte for byte - same status, same
/// headers, identical artifact bytes.
pub proof fn lemma_idempotent(r1: HttpResponse, r2: HttpResponse, p: Seq<u8>, q: Seq<u8>)
    requires
        response_matches(r1, p, q),
        response_matches(r2, p, q),
    ensures
        r1.status == r2.status,
        r1.body@ == r2.body@,
        r1.content_type is Some <==> r2.content_type is Some,
        r1.content_type is Some ==> r1.content_type.unwrap()@ == r2.content_type.unwrap()@,
        r1.cache_control is Some <==> r2.cache_control is Some,
        r1.cache_control is Some ==> r1.cache_control.unwrap()@ == r2.cache_control.unwrap()@,
{
}

} // verus!
