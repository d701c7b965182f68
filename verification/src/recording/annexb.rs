//! Annex B byte-stream splitting: an H.264 elementary stream is a sequence of
//! NAL units, each introduced by a start code `00 00 01` or `00 00 00 01`.

use vstd::prelude::*;

verus! {

/// A start code (`00 00 01` or `00 00 00 01`) begins at position `i` of `d`.
pub open spec fn start_code_at(d: Seq<u8>, i: int) -> bool {
    &&& 0 <= i
    &&& i + 2 < d.len()
    &&& d[i] == 0
    &&& d[i + 1] == 0
    &&& (d[i + 2] == 1 || (i + 3 < d.len() && d[i + 2] == 0 && d[i + 3] == 1))
}

/// Length of the start code at `i`: 3 for `00 00 01`, 4 for `00 00 00 01`.
pub open spec fn start_code_len(d: Seq<u8>, i: int) -> int {
    if d[i + 2] == 1 { 3 } else { 4 }
}

/// The first position at or after `j` where a start code begins, or the end
/// of the data when there is none.
pub open spec fn next_start_code(d: Seq<u8>, j: int) -> int
    decreases d.len() - j,
{
    if j >= d.len() {
        d.len() as int
    } else if start_code_at(d, j) {
        j
    } else {
        next_start_code(d, j + 1)
    }
}

pub proof fn lemma_next_start_code_bounds(d: Seq<u8>, j: int)
    requires
        0 <= j <= d.len(),
    ensures
        j <= next_start_code(d, j) <= d.len(),
        next_start_code(d, j) == d.len() || start_code_at(d, next_start_code(d, j)),
        forall|k: int| j <= k < next_start_code(d, j) ==> !start_code_at(d, k),
    decreases d.len() - j,
{
    if j < d.len() && !start_code_at(d, j) {
        lemma_next_start_code_bounds(d, j + 1);
    }
}

/// The NAL units found by scanning `d` from position `p`: at each start code,
/// the unit runs from just after it up to the next start code (or the end);
/// empty units are skipped; bytes that begin no start code outside a unit are
/// skipped.
pub open spec fn nal_units_from(d: Seq<u8>, p: int) -> Seq<Seq<u8>>
    decreases d.len() - p,
{
    if p < 0 || p >= d.len() {
        seq![]
    } else if start_code_at(d, p) {
        let s = p + start_code_len(d, p);
        let e = next_start_code(d, s);
        proof {
            lemma_next_start_code_bounds(d, s);
        }
        (if s < e { seq![d.subrange(s, e)] } else { seq![] }) + nal_units_from(d, e)
    } else {
        nal_units_from(d, p + 1)
    }
}

/// All NAL units of an Annex B byte stream, without their start codes.
pub open spec fn nal_units(d: Seq<u8>) -> Seq<Seq<u8>> {
    nal_units_from(d, 0)
}

pub open spec fn slice_views<'a>(s: Seq<&'a [u8]>) -> Seq<Seq<u8>> {
    s.map_values(|x: &'a [u8]| x@)
}

/// Split Annex B byte stream into individual NAL units (without start codes).
pub fn split_annex_b<'a>(data: &'a [u8]) -> (nals: Vec<&'a [u8]>)
    ensures
        slice_views(nals@) == nal_units(data@),
        forall|k: int| 0 <= k < nals@.len() ==> nals@[k]@.len() > 0,
{
    let mut nals: Vec<&'a [u8]> = Vec::new();
    let mut i: usize = 0;
    let ghost d = data@;

    while i < data.len()
        invariant
            d == data@,
            i <= d.len(),
            slice_views(nals@) + nal_units_from(d, i as int) == nal_units(d),
            forall|k: int| 0 <= k < nals@.len() ==> nals@[k]@.len() > 0,
        decreases d.len() - i,
    {
        if data.len() - i > 2 && data[i] == 0 && data[i + 1] == 0 {
            let ghost p = i as int;
            if data[i + 2] == 1 {
                i += 3;
            } else if data.len() - i > 3 && data[i + 2] == 0 && data[i + 3] == 1 {
                i += 4;
            } else {
                i += 1;
                assert(!start_code_at(d, p));
                continue;
            }
            assert(start_code_at(d, p));
            assert(i == p + start_code_len(d, p));
            let start = i;
            proof {
                lemma_next_start_code_bounds(d, start as int);
            }
            while i < data.len()
                invariant
                    d == data@,
                    start <= i <= d.len(),
                    next_start_code(d, start as int) == next_start_code(d, i as int),
                ensures
                    start <= i <= d.len(),
                    next_start_code(d, start as int) == next_start_code(d, i as int),
                    i == d.len() || start_code_at(d, i as int),
                decreases d.len() - i,
            {
                if data.len() - i > 2 && data[i] == 0 && data[i + 1] == 0 && (data[i + 2] == 1
                    || (data.len() - i > 3 && data[i + 2] == 0 && data[i + 3] == 1)) {
                    assert(start_code_at(d, i as int));
                    break;
                }
                assert(!start_code_at(d, i as int));
                i += 1;
            }
            assert(i as int == next_start_code(d, start as int));
            let ghost old_nals = slice_views(nals@);
            if start < i {
                let nal = &data[start..i];
                nals.push(nal);
                assert(slice_views(nals@) =~= old_nals + seq![d.subrange(start as int, i as int)]);
            } else {
                assert(slice_views(nals@) =~= old_nals);
            }
            assert(nal_units_from(d, p) =~= (if (start as int) < (i as int) {
                seq![d.subrange(start as int, i as int)]
            } else {
                seq![]
            }) + nal_units_from(d, i as int));
            assert(slice_views(nals@) + nal_units_from(d, i as int) =~= nal_units(d));
        } else {
            assert(!start_code_at(d, i as int));
            i += 1;
        }
    }
    nals
}

// -- Splitting undoes joining --

/// A start code as a byte sequence: `00 00 01` or `00 00 00 01`.
pub open spec fn is_start_code(sc: Seq<u8>) -> bool {
    sc == seq![0u8, 0u8, 1u8] || sc == seq![0u8, 0u8, 0u8, 1u8]
}

/// A NAL unit that a byte stream carries unchanged: not empty, not ending in
/// a zero byte, and with no `00 00 00` or `00 00 01` inside (the emulation
/// prevention that encoders apply guarantees the latter).
pub open spec fn is_clean_nal(n: Seq<u8>) -> bool {
    &&& n.len() > 0
    &&& n[n.len() - 1] != 0
    &&& forall|i: int|
        0 <= i && i + 2 < n.len() && #[trigger] n[i] == 0 && n[i + 1] == 0 ==> n[i + 2] > 1
}

/// The byte stream made of each unit preceded by its start code.
pub open spec fn annex_b_join(start_codes: Seq<Seq<u8>>, units: Seq<Seq<u8>>) -> Seq<u8>
    decreases units.len(),
{
    if units.len() == 0 || start_codes.len() == 0 {
        seq![]
    } else {
        start_codes[0] + units[0] + annex_b_join(start_codes.drop_first(), units.drop_first())
    }
}

proof fn lemma_next_start_code_is(d: Seq<u8>, s: int, e: int)
    requires
        0 <= s <= e <= d.len(),
        forall|k: int| s <= k < e ==> !start_code_at(d, k),
        e == d.len() || start_code_at(d, e),
    ensures
        next_start_code(d, s) == e,
    decreases e - s,
{
    if s < e {
        lemma_next_start_code_is(d, s + 1, e);
    }
}

proof fn lemma_join_len(start_codes: Seq<Seq<u8>>, units: Seq<Seq<u8>>)
    requires
        start_codes.len() == units.len(),
        forall|i: int| 0 <= i < units.len() ==> is_start_code(#[trigger] start_codes[i]),
        units.len() > 0,
    ensures
        annex_b_join(start_codes, units).len() >= 3,
        annex_b_join(start_codes, units)[0] == 0,
        annex_b_join(start_codes, units)[1] == 0,
        annex_b_join(start_codes, units)[2] == 1 || (annex_b_join(start_codes, units)[2] == 0
            && annex_b_join(start_codes, units).len() >= 4 && annex_b_join(start_codes, units)[3]
            == 1),
{
    assert(is_start_code(start_codes[0]));
}

proof fn lemma_units_of_join(d: Seq<u8>, p: int, start_codes: Seq<Seq<u8>>, units: Seq<Seq<u8>>)
    requires
        0 <= p <= d.len(),
        d.subrange(p, d.len() as int) == annex_b_join(start_codes, units),
        start_codes.len() == units.len(),
        forall|i: int| 0 <= i < units.len() ==> is_start_code(#[trigger] start_codes[i]),
        forall|i: int| 0 <= i < units.len() ==> is_clean_nal(#[trigger] units[i]),
    ensures
        nal_units_from(d, p) == units,
    decreases units.len(),
{
    let t = d.subrange(p, d.len() as int);
    if units.len() == 0 {
        assert(t.len() == 0);
        assert(units =~= seq![]);
    } else {
        let sc = start_codes[0];
        let n = units[0];
        let rsc = start_codes.drop_first();
        let run = units.drop_first();
        let rest = annex_b_join(rsc, run);
        assert(is_start_code(sc));
        assert(is_clean_nal(n));
        assert(t == sc + n + rest);
        let s = p + sc.len();
        let e = s + n.len();
        assert forall|i: int| 0 <= i < sc.len() implies d[p + i] == sc[i] by {
            assert(t[i] == d[p + i]);
            assert((sc + n + rest)[i] == sc[i]);
        }
        assert forall|i: int| 0 <= i < n.len() implies d[s + i] == n[i] by {
            assert(t[sc.len() + i] == d[s + i]);
            assert((sc + n + rest)[sc.len() + i] == n[i]);
        }
        assert forall|i: int| 0 <= i < rest.len() implies d[e + i] == rest[i] by {
            assert(t[sc.len() + n.len() + i] == d[e + i]);
            assert((sc + n + rest)[sc.len() + n.len() + i] == rest[i]);
        }
        assert(e + rest.len() == d.len());
        assert(start_code_at(d, p)) by {
            assert(d[p] == sc[0]);
            assert(d[p + 1] == sc[1]);
            assert(d[p + 2] == sc[2]);
            if sc.len() == 4 {
                assert(d[p + 3] == sc[3]);
            }
        }
        assert(start_code_len(d, p) == sc.len()) by {
            assert(d[p + 2] == sc[2]);
        }
        assert forall|k: int| s <= k < e implies !start_code_at(d, k) by {
            if k + 2 < e {
                assert(d[k] == n[k - s]);
                assert(d[k + 1] == n[k - s + 1]);
                assert(d[k + 2] == n[k - s + 2]);
            } else if k == e - 1 {
                assert(d[k] == n[n.len() - 1]);
            } else {
                assert(d[k + 1] == n[n.len() - 1]);
            }
        }
        if run.len() > 0 {
            assert forall|i: int| 0 <= i < run.len() implies is_start_code(#[trigger] rsc[i]) by {
                assert(rsc[i] == start_codes[i + 1]);
            }
            lemma_join_len(rsc, run);
            assert(d[e] == rest[0]);
            assert(d[e + 1] == rest[1]);
            assert(d[e + 2] == rest[2]);
            if rest[2] == 0 {
                assert(d[e + 3] == rest[3]);
            }
            assert(start_code_at(d, e));
        } else {
            assert(rest.len() == 0);
        }
        lemma_next_start_code_is(d, s, e);
        assert(d.subrange(s, e) =~= n);
        assert(nal_units_from(d, p) == seq![n] + nal_units_from(d, e));
        assert(d.subrange(e, d.len() as int) =~= rest);
        assert forall|i: int| 0 <= i < run.len() implies is_start_code(#[trigger] rsc[i]) by {
            assert(rsc[i] == start_codes[i + 1]);
        }
        assert forall|i: int| 0 <= i < run.len() implies is_clean_nal(#[trigger] run[i]) by {
            assert(run[i] == units[i + 1]);
        }
        lemma_units_of_join(d, e, rsc, run);
        assert(units =~= seq![n] + run);
    }
}

/// Splitting undoes joining: a stream made of clean NAL units, each behind a
/// three- or four-byte start code, splits back into exactly those units, in
/// order (`split_annex_b` returns `nal_units` of its input).
pub proof fn law_split_recovers_joined_units(start_codes: Seq<Seq<u8>>, units: Seq<Seq<u8>>)
    requires
        start_codes.len() == units.len(),
        forall|i: int| 0 <= i < units.len() ==> is_start_code(#[trigger] start_codes[i]),
        forall|i: int| 0 <= i < units.len() ==> is_clean_nal(#[trigger] units[i]),
    ensures
        nal_units(annex_b_join(start_codes, units)) == units,
{
    let d = annex_b_join(start_codes, units);
    assert(d.subrange(0, d.len() as int) =~= d);
    lemma_units_of_join(d, 0, start_codes, units);
}

} // verus!
