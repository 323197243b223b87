use vstd::prelude::*;

use crate::header::{has_name, values_of, Headers};
use crate::text::{concat2, decimal, push_decimal};

verus! {

/// The byte ranges that the `headers` crate reads from a `Range` value for a
/// body of `len` bytes, each as its first and last position (`None` where the
/// bound is open), or `None` where the value is no byte-range header.
pub uninterp spec fn range_specs(value: Seq<char>, len: u64) -> Option<Seq<(Option<u64>, Option<u64>)>>;

/// Relies on `headers::Range`: `Header::decode` to read the value and
/// `Range::satisfiable_ranges` to list its ranges for a body of `len` bytes.
#[verifier::external_body]
fn decode_range(value: &str, len: u64) -> (r: Option<Vec<(Option<u64>, Option<u64>)>>)
    ensures
        match r {
            Some(v) => range_specs(value@, len) == Some(v@),
            None => range_specs(value@, len) is None,
        },
{
    let hv = http::HeaderValue::from_str(value).ok()?;
    let range = <headers::Range as headers::Header>::decode(&mut std::iter::once(&hv)).ok()?;
    let mut out = Vec::new();
    for (start, end) in range.satisfiable_ranges(len) {
        let start = if let std::ops::Bound::Included(s) = start { Some(s) } else { None };
        let end = if let std::ops::Bound::Included(e) = end { Some(e) } else { None };
        out.push((start, end));
    }
    Some(out)
}

/// The first and last byte that a range selects from a body of `len` bytes,
/// if it selects any.
pub open spec fn satisfiable(spec: (Option<u64>, Option<u64>), len: u64) -> Option<(u64, u64)> {
    match spec.0 {
        None => None,
        Some(s) => if s >= len {
            None
        } else {
            match spec.1 {
                None => Some((s, (len - 1) as u64)),
                Some(e) => if e < s {
                    None
                } else if e >= len {
                    Some((s, (len - 1) as u64))
                } else {
                    Some((s, e))
                },
            }
        },
    }
}

/// The first range of `specs` that selects some byte.
pub open spec fn first_satisfiable(specs: Seq<(Option<u64>, Option<u64>)>, len: u64) -> Option<(u64, u64)>
    decreases specs.len(),
{
    if specs.len() == 0 {
        None
    } else {
        match satisfiable(specs[0], len) {
            Some(x) => Some(x),
            None => first_satisfiable(specs.drop_first(), len),
        }
    }
}

/// The value of `Content-Range` for bytes `start` to `end` of `len`.
pub open spec fn content_range(start: u64, end: u64, len: u64) -> Seq<char> {
    "bytes "@ + decimal(start as nat) + "-"@ + decimal(end as nat) + "/"@ + decimal(len as nat)
}

fn satisfiable_exec(spec: (Option<u64>, Option<u64>), len: u64) -> (r: Option<(u64, u64)>)
    ensures
        r == satisfiable(spec, len),
{
    match spec.0 {
        None => None,
        Some(s) => if s >= len {
            None
        } else {
            match spec.1 {
                None => Some((s, len - 1)),
                Some(e) => if e < s {
                    None
                } else if e >= len {
                    Some((s, len - 1))
                } else {
                    Some((s, e))
                },
            }
        },
    }
}

/// The first range of `specs` that selects some byte of a body of `len` bytes.
pub fn select_range(specs: &Vec<(Option<u64>, Option<u64>)>, len: u64) -> (r: Option<(u64, u64)>)
    ensures
        r == first_satisfiable(specs@, len),
        r matches Some(x) ==> x.0 <= x.1 < len,
{
    let mut i: usize = 0;
    assert(specs@.subrange(0, specs@.len() as int) =~= specs@);
    while i < specs.len()
        invariant
            0 <= i <= specs.len(),
            first_satisfiable(specs@, len) == first_satisfiable(specs@.subrange(i as int, specs@.len() as int), len),
        decreases specs.len() - i,
    {
        let ghost rest = specs@.subrange(i as int, specs@.len() as int);
        assert(rest.drop_first() =~= specs@.subrange(i + 1, specs@.len() as int));
        assert(rest[0] == specs@[i as int]);
        let r = satisfiable_exec(specs[i], len);
        if r.is_some() {
            return r;
        }
        i += 1;
    }
    None
}

/// Builds the `Content-Range` value for bytes `start` to `end` of `len`.
pub fn content_range_value(start: u64, end: u64, len: u64) -> (r: String)
    ensures
        r@ == content_range(start, end, len),
{
    let mut s = "bytes ".to_owned();
    push_decimal(&mut s, start);
    let mut s = concat2(s.as_str(), "-");
    push_decimal(&mut s, end);
    let mut s = concat2(s.as_str(), "/");
    push_decimal(&mut s, len);
    s
}

/// Bytes `start` to `end`, both included, of `bytes`.
pub fn slice_bytes(bytes: &Vec<u8>, start: usize, end: usize) -> (r: Vec<u8>)
    requires
        start <= end < bytes.len(),
    ensures
        r@ == bytes@.subrange(start as int, end + 1),
{
    let mut out: Vec<u8> = Vec::new();
    let mut i: usize = start;
    while i <= end
        invariant
            start <= i <= end + 1,
            end < bytes.len(),
            out@ == bytes@.subrange(start as int, i as int),
        decreases end + 1 - i,
    {
        out.push(bytes[i]);
        i += 1;
        assert(out@ =~= bytes@.subrange(start as int, i as int));
    }
    out
}

/// A body cut to the range that a request asked for.
#[derive(Debug)]
pub struct RangedBytes {
    pub status: u16,
    pub range_requested: bool,
    pub bytes: Vec<u8>,
    pub content_range: Option<String>,
}

/// What serving `bytes` to a request with headers `h` gives: the whole body
/// with `200` when `h` names no range; the first range that selects some byte
/// with `206` and its `Content-Range`; nothing (a network error) when the
/// range cannot be read or selects no byte.
pub open spec fn ranged_result(h: Seq<(Seq<char>, Seq<char>)>, bytes: Seq<u8>, r: Option<RangedBytes>) -> bool {
    if !has_name(h, "range"@) {
        &&& r is Some
        &&& r->0.status == 200
        &&& !r->0.range_requested
        &&& r->0.bytes@ == bytes
        &&& r->0.content_range is None
    } else {
        match range_specs(values_of(h, "range"@)[0], bytes.len() as u64) {
            None => r is None,
            Some(specs) => match first_satisfiable(specs, bytes.len() as u64) {
                None => r is None,
                Some(x) => {
                    &&& r is Some
                    &&& r->0.status == 206
                    &&& r->0.range_requested
                    &&& r->0.bytes@ == bytes.subrange(x.0 as int, x.1 + 1)
                    &&& r->0.content_range is Some
                    &&& r->0.content_range->0@ == content_range(x.0, x.1, bytes.len() as u64)
                },
            },
        }
    }
}

proof fn lemma_has_name_values(h: Seq<(Seq<char>, Seq<char>)>, name: Seq<char>)
    ensures
        has_name(h, name) <==> values_of(h, name).len() > 0,
    decreases h.len(),
{
    if h.len() > 0 {
        lemma_has_name_values(h.drop_last(), name);
        if has_name(h, name) {
            let i = choose|i: int| 0 <= i < h.len() && crate::text::same_name(#[trigger] h[i].0, name);
            if i < h.len() - 1 {
                assert(h.drop_last()[i] == h[i]);
            }
        }
        if has_name(h.drop_last(), name) {
            let i = choose|i: int| 0 <= i < h.len() - 1 && crate::text::same_name(#[trigger] h.drop_last()[i].0, name);
            assert(h[i] == h.drop_last()[i]);
        }
    }
}

/// Cuts `bytes` to the range that `headers` ask for.
pub fn get_ranged_bytes(headers: &Headers, bytes: Vec<u8>) -> (r: Option<RangedBytes>)
    ensures
        ranged_result(headers@, bytes@, r),
{
    let values = headers.get_all("range");
    proof {
        lemma_has_name_values(headers@, "range"@);
    }
    if values.len() == 0 {
        return Some(RangedBytes { status: 200, range_requested: false, bytes, content_range: None });
    }
    let len = bytes.len() as u64;
    let specs = match decode_range(values[0].as_str(), len) {
        Some(specs) => specs,
        None => return None,
    };
    match select_range(&specs, len) {
        None => None,
        Some((start, end)) => {
            let cut = slice_bytes(&bytes, start as usize, end as usize);
            let cr = content_range_value(start, end, len);
            Some(RangedBytes { status: 206, range_requested: true, bytes: cut, content_range: Some(cr) })
        },
    }
}

} // verus!
