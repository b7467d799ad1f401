//! The row layer: resolving a column-family name against the set of
//! families captured at open time, and decoding raw (key, value) byte
//! pairs into display rows, optionally capped at a row count.

use vstd::prelude::*;

verus! {

use crate::catalog::{Layout, spec_layout, layout_for};
use crate::text::str_eq;

/// A decoded display row: the rendered key and the rendered value.
#[derive(Debug)]
pub struct DecodedRow {
    pub key: String,
    pub value: String,
}

impl View for DecodedRow {
    type V = (Seq<char>, Seq<char>);

    open spec fn view(&self) -> (Seq<char>, Seq<char>) {
        (self.key@, self.value@)
    }
}

/// The requested column-family name is absent from the opened set.
#[derive(Clone, Copy, Debug, PartialEq, Eq, Structural)]
pub enum LookupError {
    FamilyNotOpened,
}

/// A reference into the store scoped to one named family, carrying the
/// decoder pair the catalog resolves for that name.
#[derive(Debug)]
pub struct CfHandle {
    pub name: String,
    pub layout: Layout,
}

/// Whether `name` occurs among the captured family names.
pub open spec fn family_listed(families: Seq<String>, name: Seq<char>) -> bool {
    exists|i: int| 0 <= i < families.len() && families[i]@ == name
}

/// Resolve a family name against the opened set: a handle with the
/// catalog's decoder pair when the name is present, `LookupError`
/// exactly when it is not. An unrecognized layout is not an error —
/// the catalog is total.
pub fn resolve(families: &Vec<String>, name: &str) -> (r: Result<CfHandle, LookupError>)
    ensures
        r is Ok <==> family_listed(families@, name@),
        r matches Ok(h) ==> h.name@ == name@ && h.layout == spec_layout(name@),
        r matches Err(e) ==> e == LookupError::FamilyNotOpened,
{
    let n: usize = families.len();
    let mut i: usize = 0;
    while i < n
        invariant
            n == families@.len(),
            i <= n,
            forall|j: int| 0 <= j < i ==> families@[j]@ != name@,
        decreases n - i,
    {
        if str_eq(families[i].as_str(), name) {
            return Ok(CfHandle { name: name.to_owned(), layout: layout_for(name) });
        }
        i += 1;
    }
    Err(LookupError::FamilyNotOpened)
}

/// What one raw (key, value) pair decodes to under a layout: the key
/// rendered by the key decoder, the value by the value decoder, with the
/// key bytes serving as context for both.
pub open spec fn spec_row(l: Layout, k: Seq<u8>, v: Seq<u8>) -> (Seq<char>, Seq<char>) {
    (l.key.spec_decode(k, k), l.value.spec_decode(k, v))
}

/// The decoded form of a whole sequence of raw pairs, in order.
pub open spec fn spec_rows(l: Layout, pairs: Seq<(Seq<u8>, Seq<u8>)>) -> Seq<
    (Seq<char>, Seq<char>),
> {
    pairs.map_values(|p: (Seq<u8>, Seq<u8>)| spec_row(l, p.0, p.1))
}

/// The byte-sequence view of a vector of raw pairs.
pub open spec fn pairs_view(pairs: Seq<(Vec<u8>, Vec<u8>)>) -> Seq<(Seq<u8>, Seq<u8>)> {
    pairs.map_values(|p: (Vec<u8>, Vec<u8>)| (p.0@, p.1@))
}

/// The view of a vector of decoded rows.
pub open spec fn rows_view(rows: Seq<DecodedRow>) -> Seq<(Seq<char>, Seq<char>)> {
    rows.map_values(|r: DecodedRow| r@)
}

/// Decode one raw (key, value) pair under a layout. Total: every pair
/// yields a row.
pub fn decode_row(l: Layout, key: &[u8], value: &[u8]) -> (r: DecodedRow)
    ensures
        r@ == spec_row(l, key@, value@),
{
    DecodedRow { key: l.key.decode(key, key), value: l.value.decode(key, value) }
}

/// Decode a sequence of raw pairs in order, stopping after `cap` rows:
/// the result is exactly the decoding of the first `min(cap, len)`
/// pairs.
pub fn decode_rows(l: Layout, pairs: &Vec<(Vec<u8>, Vec<u8>)>, cap: usize) -> (r: Vec<DecodedRow>)
    ensures
        rows_view(r@) == spec_rows(l, pairs_view(pairs@)).take(
            if cap as int <= pairs@.len() {
                cap as int
            } else {
                pairs@.len() as int
            },
        ),
{
    let mut out: Vec<DecodedRow> = Vec::new();
    let n: usize = pairs.len();
    let mut i: usize = 0;
    while i < n && i < cap
        invariant
            n == pairs@.len(),
            i <= n,
            i <= cap,
            out@.len() == i,
            forall|j: int| 0 <= j < i ==> out@[j]@ == spec_row(l, pairs@[j].0@, pairs@[j].1@),
        decreases n - i,
    {
        let row = decode_row(l, pairs[i].0.as_slice(), pairs[i].1.as_slice());
        out.push(row);
        i += 1;
    }
    proof {
        let m: int = if cap as int <= pairs@.len() {
            cap as int
        } else {
            pairs@.len() as int
        };
        assert forall|j: int| 0 <= j < m implies rows_view(out@)[j] == spec_rows(
            l,
            pairs_view(pairs@),
        ).take(m)[j] by {
            assert(rows_view(out@)[j] == out@[j]@);
            assert(pairs_view(pairs@)[j] == (pairs@[j].0@, pairs@[j].1@));
            assert(spec_rows(l, pairs_view(pairs@))[j] == spec_row(l, pairs@[j].0@, pairs@[j].1@));
        }
        assert(rows_view(out@) =~= spec_rows(l, pairs_view(pairs@)).take(m));
    }
    out
}

/// A capped scan is a prefix of the uncapped scan: it has exactly `cap`
/// rows, each equal to the corresponding row of the full scan, and it
/// equals the scan of just the first `cap` pairs.
pub proof fn lemma_capped_scan_is_prefix(l: Layout, pairs: Seq<(Seq<u8>, Seq<u8>)>, cap: int)
    requires
        0 <= cap <= pairs.len(),
    ensures
        spec_rows(l, pairs).take(cap).len() == cap,
        forall|i: int| 0 <= i < cap ==> spec_rows(l, pairs).take(cap)[i] == spec_rows(l, pairs)[i],
        spec_rows(l, pairs).take(cap) == spec_rows(l, pairs.take(cap)),
{
    assert(spec_rows(l, pairs).take(cap) =~= spec_rows(l, pairs.take(cap)));
}

/// A scan of an empty family produces no rows.
pub proof fn lemma_empty_scan(l: Layout)
    ensures
        spec_rows(l, Seq::<(Seq<u8>, Seq<u8>)>::empty()) == Seq::<(Seq<char>, Seq<char>)>::empty(),
{
    assert(spec_rows(l, Seq::<(Seq<u8>, Seq<u8>)>::empty()) =~= Seq::<
        (Seq<char>, Seq<char>),
    >::empty());
}

} // verus!
