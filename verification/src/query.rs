//! The query decoder: extracts the payload field `q` from a raw,
//! form-encoded query string.
//!
//! The grammar is the usual one: pairs separated by `&`, a pair split at its
//! first `=`, keys and values percent-decoded with `+` standing for a space.
//! If the query is malformed (a broken percent escape), the field is missing
//! or repeated, or its value is blank after trimming, the fixed default
//! payload is substituted - decoding never fails outward.

use vstd::prelude::*;
use vstd::slice::{slice_subrange, slice_to_vec};
use vstd::string::StringSliceAdditionalSpecFns;

verus! {

/// ASCII whitespace, as trimming understands it.
pub open spec fn is_ws(b: u8) -> bool {
    b == 9 || b == 10 || b == 11 || b == 12 || b == 13 || b == 32
}

/// `s` without leading whitespace.
pub open spec fn trim_start_spec(s: Seq<u8>) -> Seq<u8>
    decreases s.len(),
{
    if s.len() > 0 && is_ws(s[0]) {
        trim_start_spec(s.skip(1))
    } else {
        s
    }
}

/// `s` without trailing whitespace.
pub open spec fn trim_end_spec(s: Seq<u8>) -> Seq<u8>
    decreases s.len(),
{
    if s.len() > 0 && is_ws(s[s.len() - 1]) {
        trim_end_spec(s.take(s.len() - 1))
    } else {
        s
    }
}

/// `s` without leading and trailing whitespace.
pub open spec fn trim_spec(s: Seq<u8>) -> Seq<u8> {
    trim_end_spec(trim_start_spec(s))
}

fn is_ws_byte(b: u8) -> (r: bool)
    ensures
        r == is_ws(b),
{
    b == 9 || b == 10 || b == 11 || b == 12 || b == 13 || b == 32
}

/// Copies `s` without its leading and trailing whitespace.
pub fn trim_bytes(s: &[u8]) -> (r: Vec<u8>)
    ensures
        r@ == trim_spec(s@),
{
    proof {
        assert(s@.skip(0) =~= s@);
    }
    let mut lo: usize = 0;
    while lo < s.len() && is_ws_byte(s[lo])
        invariant
            lo <= s.len(),
            trim_start_spec(s@) == trim_start_spec(s@.skip(lo as int)),
        decreases s@.len() - lo,
    {
        proof {
            assert(s@.skip(lo as int)[0] == s@[lo as int]);
            assert(s@.skip(lo as int).skip(1) =~= s@.skip(lo as int + 1));
        }
        lo = lo + 1;
    }
    proof {
        if lo < s@.len() {
            assert(s@.skip(lo as int)[0] == s@[lo as int]);
        }
        assert(trim_start_spec(s@) =~= s@.skip(lo as int));
    }
    let ghost t = s@.skip(lo as int);
    proof {
        assert(t.take(s@.len() - lo as int) =~= t);
    }
    let mut hi: usize = s.len();
    while hi > lo && is_ws_byte(s[hi - 1])
        invariant
            lo <= hi <= s.len(),
            t == s@.skip(lo as int),
            trim_end_spec(t) == trim_end_spec(t.take(hi - lo as int)),
        decreases hi,
    {
        proof {
            let u = t.take(hi - lo as int);
            assert(u[u.len() - 1] == s@[hi - 1]);
            assert(u.take(u.len() - 1) =~= t.take(hi - 1 - lo as int));
        }
        hi = hi - 1;
    }
    proof {
        let u = t.take(hi - lo as int);
        if hi > lo {
            assert(u[u.len() - 1] == s@[hi - 1]);
        }
        assert(trim_end_spec(t) =~= u);
        assert(u =~= s@.subrange(lo as int, hi as int));
    }
    slice_to_vec(slice_subrange(s, lo, hi))
}

/// An ASCII hex digit.
pub open spec fn is_hex_digit(b: u8) -> bool {
    (48 <= b && b <= 57) || (65 <= b && b <= 70) || (97 <= b && b <= 102)
}

/// The numeric value of an ASCII hex digit.
pub open spec fn hex_val(b: u8) -> u8 {
    if 48 <= b && b <= 57 {
        (b - 48) as u8
    } else if 65 <= b && b <= 70 {
        (b - 55) as u8
    } else {
        (b - 87) as u8
    }
}

/// Percent-decoding with `+` as space: `%XY` (two hex digits) becomes one
/// byte, `+` becomes a space, everything else passes through.  A `%` not
/// followed by two hex digits makes the whole input malformed (`None`).
pub open spec fn unescape_spec(s: Seq<u8>) -> Option<Seq<u8>>
    decreases s.len(),
{
    if s.len() == 0 {
        Some(Seq::empty())
    } else if s[0] == 37 {  // '%'
        if s.len() >= 3 && is_hex_digit(s[1]) && is_hex_digit(s[2]) {
            match unescape_spec(s.skip(3)) {
                Some(rest) => Some(seq![(hex_val(s[1]) * 16 + hex_val(s[2])) as u8] + rest),
                None => None,
            }
        } else {
            None
        }
    } else if s[0] == 43 {  // '+'
        match unescape_spec(s.skip(1)) {
            Some(rest) => Some(seq![32u8] + rest),
            None => None,
        }
    } else {
        match unescape_spec(s.skip(1)) {
            Some(rest) => Some(seq![s[0]] + rest),
            None => None,
        }
    }
}

fn is_hex_digit_byte(b: u8) -> (r: bool)
    ensures
        r == is_hex_digit(b),
{
    (48 <= b && b <= 57) || (65 <= b && b <= 70) || (97 <= b && b <= 102)
}

fn hex_val_byte(b: u8) -> (r: u8)
    requires
        is_hex_digit(b),
    ensures
        r == hex_val(b),
{
    if 48 <= b && b <= 57 {
        b - 48
    } else if 65 <= b && b <= 70 {
        b - 55
    } else {
        b - 87
    }
}

fn unescape_from(s: &[u8], from: usize) -> (r: Option<Vec<u8>>)
    requires
        from <= s@.len(),
    ensures
        match unescape_spec(s@.skip(from as int)) {
            Some(u) => r is Some && r.unwrap()@ == u,
            None => r is None,
        },
    decreases s@.len() - from,
{
    let ghost t = s@.skip(from as int);
    if from == s.len() {
        proof {
            assert(t =~= Seq::<u8>::empty());
        }
        Some(Vec::new())
    } else {
        proof {
            assert(t[0] == s@[from as int]);
        }
        let b = s[from];
        if b == 37 {
            if s.len() - from >= 3 && is_hex_digit_byte(s[from + 1]) && is_hex_digit_byte(s[from + 2]) {
                proof {
                    assert(t[1] == s@[from as int + 1]);
                    assert(t[2] == s@[from as int + 2]);
                    assert(t.skip(3) =~= s@.skip(from as int + 3));
                }
                match unescape_from(s, from + 3) {
                    Some(mut rest) => {
                        let decoded = hex_val_byte(s[from + 1]) * 16 + hex_val_byte(s[from + 2]);
                        let mut out: Vec<u8> = Vec::new();
                        out.push(decoded);
                        out.append(&mut rest);
                        Some(out)
                    },
                    None => None,
                }
            } else {
                proof {
                    if t.len() >= 3 {
                        assert(t[1] == s@[from as int + 1]);
                        assert(t[2] == s@[from as int + 2]);
                    }
                }
                None
            }
        } else {
            proof {
                assert(t.skip(1) =~= s@.skip(from as int + 1));
            }
            match unescape_from(s, from + 1) {
                Some(mut rest) => {
                    let head = if b == 43 {
                        32
                    } else {
                        b
                    };
                    let mut out: Vec<u8> = Vec::new();
                    out.push(head);
                    out.append(&mut rest);
                    Some(out)
                },
                None => None,
            }
        }
    }
}

/// Index of the first `&` in `s`, or its length.
pub open spec fn pair_end(s: Seq<u8>) -> nat
    decreases s.len(),
{
    if s.len() == 0 {
        0
    } else if s[0] == 38 {  // '&'
        0
    } else {
        1 + pair_end(s.skip(1))
    }
}

/// Length of the key of a pair: everything before the first `=`.
pub open spec fn key_len(p: Seq<u8>) -> nat
    decreases p.len(),
{
    if p.len() == 0 {
        0
    } else if p[0] == 61 {  // '='
        0
    } else {
        1 + key_len(p.skip(1))
    }
}

/// The raw key of a pair.
pub open spec fn key_of(p: Seq<u8>) -> Seq<u8> {
    p.take(key_len(p) as int)
}

/// The raw value of a pair: everything after the first `=`, empty if there
/// is none.
pub open spec fn value_of(p: Seq<u8>) -> Seq<u8> {
    if key_len(p) < p.len() {
        p.skip(key_len(p) as int + 1)
    } else {
        Seq::empty()
    }
}

/// What scanning a query for the field `q` can find.
pub enum QFound {
    /// No pair has the key `q`.
    Missing,
    /// Exactly one pair has the key `q`; this is its decoded value.
    One(Seq<u8>),
    /// More than one pair has the key `q`.
    Several,
}

/// Folds one pair's contribution into what the rest of the query found.
pub open spec fn q_combine(first: Option<Seq<u8>>, rest: QFound) -> QFound {
    match first {
        Option::None => rest,
        Option::Some(v) => match rest {
            QFound::Missing => QFound::One(v),
            QFound::One(_) => QFound::Several,
            QFound::Several => QFound::Several,
        },
    }
}

/// Scans a query string for the field `q`: pairs are separated by `&`, each
/// pair is split at its first `=`, and keys and values are percent-decoded.
/// `None` means the query is malformed (a broken escape somewhere).
pub open spec fn q_scan(s: Seq<u8>) -> Option<QFound>
    decreases s.len(),
{
    let e = pair_end(s);
    let p = s.take(e as int);
    let restf = if e < s.len() {
        q_scan(s.skip(e as int + 1))
    } else {
        Some(QFound::Missing)
    };
    match (unescape_spec(key_of(p)), unescape_spec(value_of(p)), restf) {
        (Some(k), Some(v), Some(rest)) => Some(
            q_combine(
                if k == seq![113u8] {  // "q"
                    Some(v)
                } else {
                    None
                },
                rest,
            ),
        ),
        _ => None,
    }
}

fn pair_end_from(s: &[u8], from: usize) -> (e: usize)
    requires
        from <= s@.len(),
    ensures
        from <= e <= s@.len(),
        e - from == pair_end(s@.skip(from as int)),
    decreases s@.len() - from,
{
    let ghost t = s@.skip(from as int);
    if from == s.len() {
        from
    } else {
        proof {
            assert(t[0] == s@[from as int]);
        }
        if s[from] == 38 {
            from
        } else {
            proof {
                assert(t.skip(1) =~= s@.skip(from as int + 1));
            }
            pair_end_from(s, from + 1)
        }
    }
}

fn key_len_from(p: &[u8], from: usize) -> (k: usize)
    requires
        from <= p@.len(),
    ensures
        from <= k <= p@.len(),
        k - from == key_len(p@.skip(from as int)),
    decreases p@.len() - from,
{
    let ghost t = p@.skip(from as int);
    if from == p.len() {
        from
    } else {
        proof {
            assert(t[0] == p@[from as int]);
        }
        if p[from] == 61 {
            from
        } else {
            proof {
                assert(t.skip(1) =~= p@.skip(from as int + 1));
            }
            key_len_from(p, from + 1)
        }
    }
}

/// The executable counterpart of [`QFound`].
enum QLookup {
    /// No pair has the key `q`.
    Missing,
    /// Exactly one pair has the key `q`; its decoded value.
    One(Vec<u8>),
    /// More than one pair has the key `q`.
    Several,
}

fn q_scan_from(s: &[u8], from: usize) -> (r: Option<QLookup>)
    requires
        from <= s@.len(),
    ensures
        match q_scan(s@.skip(from as int)) {
            Some(QFound::Missing) => r matches Some(QLookup::Missing),
            Some(QFound::One(v)) => r matches Some(QLookup::One(w)) && w@ == v,
            Some(QFound::Several) => r matches Some(QLookup::Several),
            None => r is None,
        },
    decreases s@.len() - from,
{
    let ghost t = s@.skip(from as int);
    let e = pair_end_from(s, from);
    let p: &[u8] = slice_subrange(s, from, e);
    proof {
        assert(p@ =~= t.take(pair_end(t) as int));
    }
    let kl = key_len_from(p, 0);
    proof {
        assert(p@.skip(0) =~= p@);
    }
    let key: &[u8] = slice_subrange(p, 0, kl);
    let val: &[u8] = if kl < p.len() {
        slice_subrange(p, kl + 1, p.len())
    } else {
        slice_subrange(p, 0, 0)
    };
    proof {
        assert(key@ =~= key_of(p@));
        assert(val@ =~= value_of(p@));
        assert(key@.skip(0) =~= key@);
        assert(val@.skip(0) =~= val@);
    }
    let kd = unescape_from(key, 0);
    let vd = unescape_from(val, 0);
    let restv: Option<QLookup> = if e < s.len() {
        proof {
            assert(t.skip(pair_end(t) as int + 1) =~= s@.skip(e as int + 1));
        }
        q_scan_from(s, e + 1)
    } else {
        Some(QLookup::Missing)
    };
    match (kd, vd, restv) {
        (Some(k), Some(v), Some(rest)) => {
            proof {
                if k@.len() == 1 && k@[0] == 113 {
                    assert(k@ =~= seq![113u8]);
                }
            }
            if k.len() == 1 && k[0] == 113 {
                match rest {
                    QLookup::Missing => Some(QLookup::One(v)),
                    QLookup::One(_) => Some(QLookup::Several),
                    QLookup::Several => Some(QLookup::Several),
                }
            } else {
                Some(rest)
            }
        },
        _ => None,
    }
}

/// The fixed fallback payload, substituted whenever the query carries no
/// usable `q` field: `https://www.vetmed.fu-berlin.de/`.
pub open spec fn default_payload_spec() -> Seq<u8> {
    seq![
        104u8, 116, 116, 112, 115, 58, 47, 47, 119, 119, 119, 46, 118, 101, 116, 109, 101, 100,
        46, 102, 117, 45, 98, 101, 114, 108, 105, 110, 46, 100, 101, 47,
    ]
}

/// The payload a raw query string decodes to: the trimmed value of a unique
/// `q` field, or the default payload if the query is malformed, the field is
/// missing or repeated, or its value is blank.
pub open spec fn payload_spec(q: Seq<u8>) -> Seq<u8> {
    match q_scan(trim_spec(q)) {
        Some(QFound::One(v)) => {
            let tv = trim_spec(v);
            if tv.len() == 0 {
                default_payload_spec()
            } else {
                tv
            }
        },
        _ => default_payload_spec(),
    }
}

/// The fixed fallback payload as bytes.
pub fn default_payload() -> (p: Vec<u8>)
    ensures
        p@ == default_payload_spec(),
{
    let mut p: Vec<u8> = Vec::new();
    p.push(104);  // h
    p.push(116);  // t
    p.push(116);  // t
    p.push(112);  // p
    p.push(115);  // s
    p.push(58);  // :
    p.push(47);  // /
    p.push(47);  // /
    p.push(119);  // w
    p.push(119);  // w
    p.push(119);  // w
    p.push(46);  // .
    p.push(118);  // v
    p.push(101);  // e
    p.push(116);  // t
    p.push(109);  // m
    p.push(101);  // e
    p.push(100);  // d
    p.push(46);  // .
    p.push(102);  // f
    p.push(117);  // u
    p.push(45);  // -
    p.push(98);  // b
    p.push(101);  // e
    p.push(114);  // r
    p.push(108);  // l
    p.push(105);  // i
    p.push(110);  // n
    p.push(46);  // .
    p.push(100);  // d
    p.push(101);  // e
    p.push(47);  // /
    proof {
        assert(p@ =~= default_payload_spec());
    }
    p
}

/// A byte that decodes to itself and ends no token: not `%`, `+`, `&`, `=`
/// and not whitespace.
pub open spec fn plain_byte(b: u8) -> bool {
    b != 37 && b != 43 && b != 38 && b != 61 && !is_ws(b)
}

/// Every byte of `s` is plain.
pub open spec fn all_plain(s: Seq<u8>) -> bool {
    forall|i: int| 0 <= i < s.len() ==> plain_byte(#[trigger] s[i])
}

/// Plain bytes decode to themselves.
proof fn lemma_unescape_plain(s: Seq<u8>)
    requires
        all_plain(s),
    ensures
        unescape_spec(s) == Some(s),
    decreases s.len(),
{
    if s.len() == 0 {
        assert(s =~= Seq::<u8>::empty());
    } else {
        assert(plain_byte(s[0]));
        assert forall|i: int| 0 <= i < s.skip(1).len() implies plain_byte(#[trigger] s.skip(1)[i]) by {
            assert(s.skip(1)[i] == s[i + 1]);
        }
        lemma_unescape_plain(s.skip(1));
        assert(seq![s[0]] + s.skip(1) =~= s);
    }
}

/// A sequence of plain bytes holds no pair separator.
proof fn lemma_pair_end_plain(s: Seq<u8>)
    requires
        all_plain(s),
    ensures
        pair_end(s) == s.len(),
    decreases s.len(),
{
    if s.len() > 0 {
        assert(plain_byte(s[0]));
        assert forall|i: int| 0 <= i < s.skip(1).len() implies plain_byte(#[trigger] s.skip(1)[i]) by {
            assert(s.skip(1)[i] == s[i + 1]);
        }
        lemma_pair_end_plain(s.skip(1));
    }
}

/// A sequence of plain bytes needs no trimming.
proof fn lemma_trim_plain(s: Seq<u8>)
    requires
        all_plain(s),
    ensures
        trim_spec(s) == s,
{
    if s.len() > 0 {
        assert(plain_byte(s[0]));
        assert(plain_byte(s[s.len() - 1]));
    }
    assert(trim_start_spec(s) == s);
    assert(trim_end_spec(s) == s);
}

/// The query `q=<value>`, for a non-empty value of plain bytes, decodes to
/// exactly that value; and an empty query decodes to the default payload.
/// The payload is therefore the same whether the field is absent or set to
/// the default, and every artifact derived from it is the same.
pub proof fn lemma_plain_query_roundtrip(v: Seq<u8>)
    requires
        all_plain(v),
        v.len() > 0,
    ensures
        payload_spec(seq![113u8, 61u8] + v) == v,
        payload_spec(Seq::<u8>::empty()) == default_payload_spec(),
{
    let full = seq![113u8, 61u8] + v;
    // The full query needs no trimming: its first byte is `q`, its last is
    // a plain byte of the value.
    assert(full[0] == 113);
    assert(full[full.len() - 1] == v[v.len() - 1]);
    assert(plain_byte(v[v.len() - 1]));
    assert(trim_start_spec(full) == full);
    assert(trim_end_spec(full) == full);
    assert(trim_spec(full) == full);
    // The whole query is a single pair.
    assert(full.skip(1)[0] == 61);
    assert forall|i: int| 0 <= i < full.skip(2).len() implies plain_byte(
        #[trigger] full.skip(2)[i],
    ) by {
        assert(full.skip(2)[i] == v[i]);
    }
    assert(full.skip(2) =~= v);
    assert(full.skip(1).skip(1) =~= v);
    lemma_pair_end_plain(v);
    assert(pair_end(full.skip(1)) == 1 + pair_end(v));
    assert(pair_end(full) == full.len());
    let p = full.take(pair_end(full) as int);
    assert(p =~= full);
    // Its key is `q`, its value is `v`.
    assert(key_len(full.skip(1)) == 0);
    assert(key_len(full) == 1);
    assert(key_of(full) =~= seq![113u8]);
    assert(value_of(full) =~= v);
    assert(all_plain(seq![113u8]));
    lemma_unescape_plain(seq![113u8]);
    lemma_unescape_plain(v);
    assert(q_scan(full) == Some(QFound::One(v)));
    lemma_trim_plain(v);
    // The empty query has no pair with key `q` at all.
    let nothing = Seq::<u8>::empty();
    assert(trim_start_spec(nothing) == nothing);
    assert(trim_end_spec(nothing) == nothing);
    assert(pair_end(nothing) == 0);
    assert(key_len(nothing) == 0);
    assert(key_of(nothing) =~= nothing);
    assert(value_of(nothing) =~= nothing);
    assert(unescape_spec(nothing) == Some(nothing));
    assert(!(nothing == seq![113u8]));
    assert(q_scan(nothing) == Some(QFound::Missing));
}

/// The default payload consists of plain bytes.
proof fn lemma_default_payload_plain()
    ensures
        all_plain(default_payload_spec()),
{
    let dp = default_payload_spec();
    assert forall|i: int| 0 <= i < dp.len() implies plain_byte(#[trigger] dp[i]) by {
        assert(dp.len() == 32);
    }
}

/// A query with no `q` field and the query `q=<default fallback URL>`
/// decode to the same payload: the default.
pub proof fn lemma_missing_query_equals_default()
    ensures
        payload_spec(Seq::<u8>::empty()) == default_payload_spec(),
        payload_spec(seq![113u8, 61u8] + default_payload_spec()) == default_payload_spec(),
{
    lemma_default_payload_plain();
    lemma_plain_query_roundtrip(default_payload_spec());
}

/// Decodes a raw query string into the payload to encode.  Never fails:
/// a malformed, missing, repeated or blank `q` field yields the default.
pub fn decode_query(query: &str) -> (p: Vec<u8>)
    ensures
        p@ == payload_spec(query.spec_bytes()),
{
    let b: &[u8] = query.as_bytes();
    let t = trim_bytes(b);
    proof {
        assert(t@.skip(0) =~= t@);
    }
    match q_scan_from(t.as_slice(), 0) {
        Some(QLookup::One(v)) => {
            let tv = trim_bytes(v.as_slice());
            if tv.len() == 0 {
                default_payload()
            } else {
                tv
            }
        },
        _ => default_payload(),
    }
}

} // verus!
