//! The HDR10 message that goes with the key frames of a ten-bit H.265 stream.
use crate::bytes::{be16, be32, push_be16, push_be32};
use crate::sunshine::nal::{
    find_start_code, lemma_start_code, long_code_at, short_code_at, start_code_from,
};
use vstd::prelude::*;
use vstd::slice::slice_subrange;

verus! {

// ---------------------------------------------------------------- the message

/// A number of a message header: 255 for every full 255, and then the rest.
pub open spec fn sei_number(n: nat) -> Seq<u8>
    decreases n,
{
    if n >= 255 {
        seq![255u8] + sei_number((n - 255) as nat)
    } else {
        seq![n as u8]
    }
}

fn append_sei_number(out: &mut Vec<u8>, n: usize)
    ensures
        final(out)@ == old(out)@ + sei_number(n as nat),
{
    let mut left: usize = n;
    let ghost start = out@;
    while left >= 255
        invariant
            start + sei_number(n as nat) == out@ + sei_number(left as nat),
        decreases left,
    {
        let ghost before = out@;
        out.push(255);
        left = left - 255;
        assert(before + (seq![255u8] + sei_number(left as nat)) == out@ + sei_number(left as nat));
    }
    out.push(left as u8);
}

/// Appends the header of a message: its type and its size.
pub fn append_sei_payload_header(out: &mut Vec<u8>, payload_type: usize, payload_size: usize)
    ensures
        final(out)@ == old(out)@ + sei_number(payload_type as nat) + sei_number(
            payload_size as nat,
        ),
{
    append_sei_number(out, payload_type);
    append_sei_number(out, payload_size);
}

/// The unit with the mastering display's colours and light levels.
pub open spec fn hdr10_sei() -> Seq<u8> {
    seq![0u8, 0u8, 0u8, 1u8, 0x4eu8, 1u8] + sei_number(137) + sei_number(24) + be16(13250) + be16(
        34500,
    ) + be16(7500) + be16(3000) + be16(34000) + be16(16000) + be16(15635) + be16(16450) + be32(
        10_000_000,
    ) + be32(50) + sei_number(144) + sei_number(4) + be16(1000) + be16(400) + seq![0x80u8]
}

/// Builds the unit with the mastering display's colours and light levels.
pub fn hdr10_sei_annex_b() -> (r: Vec<u8>)
    ensures
        r@ == hdr10_sei(),
{
    let mut sei: Vec<u8> = vec![0, 0, 0, 1, 0x4e, 1];
    assert(sei@ == seq![0u8, 0u8, 0u8, 1u8, 0x4eu8, 1u8]);
    append_sei_payload_header(&mut sei, 137, 24);
    push_be16(&mut sei, 13250);
    push_be16(&mut sei, 34500);
    push_be16(&mut sei, 7500);
    push_be16(&mut sei, 3000);
    push_be16(&mut sei, 34000);
    push_be16(&mut sei, 16000);
    push_be16(&mut sei, 15635);
    push_be16(&mut sei, 16450);
    push_be32(&mut sei, 10_000_000);
    push_be32(&mut sei, 50);
    append_sei_payload_header(&mut sei, 144, 4);
    push_be16(&mut sei, 1000);
    push_be16(&mut sei, 400);
    let ghost body = sei@;
    sei.push(0x80);
    assert(sei@ == body + seq![0x80u8]);
    sei
}

// ---------------------------------------------------------------- units

/// The type of a unit, where it is long enough to have one.
pub open spec fn nal_type(nal: Seq<u8>) -> Option<u8> {
    if nal.len() < 2 {
        None
    } else {
        Some((nal[0] / 2) % 64)
    }
}

/// Tells the type of a unit.
pub fn h265_nal_type(nal: &[u8]) -> (r: Option<u8>)
    ensures
        r == nal_type(nal@),
{
    if nal.len() < 2 {
        None
    } else {
        let first: u8 = nal[0];
        assert((first >> 1) & 0x3fu8 == (first / 2) % 64) by (bit_vector);
        Some((first >> 1) & 0x3f)
    }
}

/// Where a unit ends that begins at a position: at the next start code, or with the data.
pub open spec fn nal_end(data: Seq<u8>, unit: int) -> int {
    match start_code_from(data, unit) {
        Some((_, code)) => code,
        None => data.len() as int,
    }
}

/// The units from a position on: where the start code stands, how long it is, and where the
/// unit ends. Empty units do not count.
pub open spec fn nals_from(data: Seq<u8>, i: int) -> Seq<(int, int, int)>
    decreases data.len() - i,
    when 0 <= i
    via nals_from_decreases
{
    match start_code_from(data, i) {
        None => Seq::empty(),
        Some((unit, code)) => {
            let end = nal_end(data, unit);
            (if unit < end {
                seq![(code, unit - code, end)]
            } else {
                Seq::empty()
            }) + nals_from(data, end)
        },
    }
}

#[via_fn]
proof fn nals_from_decreases(data: Seq<u8>, i: int) {
    lemma_start_code(data, i);
    if start_code_from(data, i) is Some {
        lemma_start_code(data, (start_code_from(data, i)->0).0);
    }
}

/// What a list of units holds.
pub open spec fn nal_views(v: Seq<(usize, usize, usize)>) -> Seq<(int, int, int)> {
    v.map_values(|n: (usize, usize, usize)| (n.0 as int, n.1 as int, n.2 as int))
}

/// Lists the units of a byte stream.
pub fn h265_annex_b_nals(data: &[u8]) -> (r: Vec<(usize, usize, usize)>)
    ensures
        nal_views(r@) == nals_from(data@, 0),
        forall|i: int|
            0 <= i < r@.len() ==> (#[trigger] r@[i]).0 + r@[i].1 < r@[i].2 <= data@.len(),
{
    let mut nals: Vec<(usize, usize, usize)> = Vec::new();
    let mut pos: usize = 0;
    assert(nal_views(nals@) + nals_from(data@, 0) == nals_from(data@, 0));
    loop
        invariant_except_break
            pos <= data@.len(),
            nal_views(nals@) + nals_from(data@, pos as int) == nals_from(data@, 0),
        invariant
            forall|i: int|
                0 <= i < nals@.len() ==> (#[trigger] nals@[i]).0 + nals@[i].1 < nals@[i].2
                    <= data@.len(),
        ensures
            nal_views(nals@) == nals_from(data@, 0),
        decreases data@.len() - pos,
    {
        let ghost before = nals@;
        proof {
            lemma_start_code(data@, pos as int);
        }
        let (unit, code): (usize, usize) = match find_start_code(data, pos) {
            Some(found) => found,
            None => {
                assert(nal_views(nals@) + Seq::<(int, int, int)>::empty() == nal_views(nals@));
                break;
            },
        };
        proof {
            lemma_start_code(data@, unit as int);
        }
        let end: usize = match find_start_code(data, unit) {
            Some((_, next)) => next,
            None => data.len(),
        };
        assert(end == nal_end(data@, unit as int));
        if unit < end {
            nals.push((code, unit - code, end));
            assert(nal_views(nals@) == nal_views(before).push(
                (code as int, unit - code, end as int),
            ));
            assert(nal_views(nals@) + nals_from(data@, end as int) == nal_views(before) + (seq![
                (code as int, unit - code, end as int),
            ] + nals_from(data@, end as int)));
        } else {
            assert(nal_views(nals@) + nals_from(data@, end as int) == nal_views(before) + (Seq::<
                (int, int, int),
            >::empty() + nals_from(data@, end as int)));
        }
        pos = end;
    }
    nals
}

// ---------------------------------------------------------------- inserting the message

/// Whether a unit belongs before the message: parameter sets, the delimiter and messages.
pub open spec fn is_leading(data: Seq<u8>, nal: (int, int, int)) -> bool {
    match nal_type(data.subrange(nal.0 + nal.1, nal.2)) {
        Some(t) => t == 32 || t == 33 || t == 34 || t == 35 || t == 39 || t == 40,
        None => false,
    }
}

/// How many units at the front belong before the message.
pub open spec fn leading_count(data: Seq<u8>, nals: Seq<(int, int, int)>) -> nat
    decreases nals.len(),
{
    if nals.len() > 0 && is_leading(data, nals[0]) {
        1 + leading_count(data, nals.skip(1))
    } else {
        0
    }
}

/// Where the message goes: behind the units that belong before it, or else in front of the first
/// unit.
pub open spec fn insertion_point(data: Seq<u8>) -> int {
    let nals = nals_from(data, 0);
    let k = leading_count(data, nals);
    if nals.len() == 0 {
        0
    } else if k == 0 {
        nals[0].0
    } else {
        nals[k - 1].2
    }
}

/// A frame with the message in it.
pub open spec fn with_hdr10_sei(data: Seq<u8>) -> Seq<u8> {
    let p = insertion_point(data);
    data.take(p) + hdr10_sei() + data.skip(p)
}

proof fn lemma_leading_count(data: Seq<u8>, nals: Seq<(int, int, int)>)
    ensures
        leading_count(data, nals) <= nals.len(),
        forall|i: int| 0 <= i < leading_count(data, nals) ==> is_leading(data, #[trigger] nals[i]),
        leading_count(data, nals) < nals.len() ==> !is_leading(
            data,
            nals[leading_count(data, nals) as int],
        ),
    decreases nals.len(),
{
    if nals.len() > 0 && is_leading(data, nals[0]) {
        let rest = nals.skip(1);
        lemma_leading_count(data, rest);
        assert forall|i: int| 0 <= i < leading_count(data, nals) implies is_leading(
            data,
            #[trigger] nals[i],
        ) by {
            if i > 0 {
                assert(nals[i] == rest[i - 1]);
            }
        }
        if leading_count(data, nals) < nals.len() {
            assert(nals[leading_count(data, nals) as int] == rest[leading_count(
                data,
                rest,
            ) as int]);
        }
    }
}

/// Puts the message into a frame.
pub fn insert_h265_hdr10_sei(data: &[u8]) -> (r: Vec<u8>)
    ensures
        r@ == with_hdr10_sei(data@),
{
    let nals = h265_annex_b_nals(data);
    let ghost all = nal_views(nals@);
    assert(all.len() == nals@.len());
    let sei = hdr10_sei_annex_b();
    let mut point: usize = 0;
    if nals.len() > 0 {
        point = nals[0].0;
        assert(all[0].0 == point);
        let mut i: usize = 0;
        assert(all.skip(0) == all);
        while i < nals.len()
            invariant_except_break
                leading_count(data@, all) == i + leading_count(data@, all.skip(i as int)),
            invariant
                i <= nals@.len(),
                all == nal_views(nals@),
                nals@.len() > 0,
                forall|j: int|
                    0 <= j < nals@.len() ==> (#[trigger] nals@[j]).0 + nals@[j].1 < nals@[j].2
                        <= data@.len(),
                point <= data@.len(),
                point == (if i == 0 {
                    all[0].0
                } else {
                    all[i - 1].2
                }),
            ensures
                leading_count(data@, all) == i,
            decreases nals.len() - i,
        {
            let (start, code_len, end): (usize, usize, usize) = nals[i];
            assert(all[i as int] == (start as int, code_len as int, end as int));
            assert(all.skip(i as int)[0] == all[i as int]);
            assert(all.skip(i as int).skip(1) == all.skip(i + 1));
            let nal = slice_subrange(data, start + code_len, end);
            let leading = match h265_nal_type(nal) {
                Some(t) => t == 32 || t == 33 || t == 34 || t == 35 || t == 39 || t == 40,
                None => false,
            };
            assert(leading == is_leading(data@, all[i as int]));
            if !leading {
                break;
            }
            point = end;
            i = i + 1;
        }
    }
    assert(point == insertion_point(data@));
    let mut out: Vec<u8> = Vec::new();
    out.extend_from_slice(slice_subrange(data, 0, point));
    out.extend_from_slice(sei.as_slice());
    out.extend_from_slice(slice_subrange(data, point, data.len()));
    assert(data@.take(point as int) == data@.subrange(0, point as int));
    assert(data@.skip(point as int) == data@.subrange(point as int, data@.len() as int));
    assert(out@ == with_hdr10_sei(data@));
    out
}

// ---------------------------------------------------------------- laws

/// Whether a start code of either length stands at a position.
pub open spec fn code_at(data: Seq<u8>, i: int) -> bool {
    short_code_at(data, i) || long_code_at(data, i)
}

/// The length of the start code at a position.
pub open spec fn code_len(data: Seq<u8>, i: int) -> int {
    if short_code_at(data, i) {
        3
    } else {
        4
    }
}

proof fn lemma_search(data: Seq<u8>, i: int)
    requires
        0 <= i,
    ensures
        match start_code_from(data, i) {
            Some((unit, code)) => {
                &&& i <= code
                &&& code_at(data, code)
                &&& unit == code + code_len(data, code)
                &&& unit <= data.len()
                &&& forall|j: int| i <= j < code ==> !#[trigger] code_at(data, j)
            },
            None => forall|j: int| i <= j ==> !#[trigger] code_at(data, j),
        },
    decreases data.len() - i,
{
    if i + 3 <= data.len() && !short_code_at(data, i) && !long_code_at(data, i) {
        lemma_search(data, i + 1);
    }
}

proof fn lemma_search_is(data: Seq<u8>, i: int, code: int)
    requires
        0 <= i <= code,
        code_at(data, code),
        forall|j: int| i <= j < code ==> !#[trigger] code_at(data, j),
    ensures
        start_code_from(data, i) == Some((code + code_len(data, code), code)),
{
    lemma_search(data, i);
    if let Some((_, found)) = start_code_from(data, i) {
        if found < code {
            assert(!code_at(data, found));
        }
        if code < found {
            assert(!code_at(data, code));
        }
    }
}

proof fn lemma_search_none(data: Seq<u8>, i: int)
    requires
        0 <= i,
        forall|j: int| i <= j ==> !#[trigger] code_at(data, j),
    ensures
        start_code_from(data, i) is None,
{
    lemma_search(data, i);
}

/// Whether the data can be parted at a position without touching a start code: the data ends
/// there, or a start code stands there that is not the tail of a longer one.
pub open spec fn is_seam(data: Seq<u8>, p: int) -> bool {
    &&& 0 <= p <= data.len()
    &&& p == data.len() || code_at(data, p)
    &&& p > 0 && short_code_at(data, p) ==> data[p - 1] != 0
}

proof fn lemma_found_is_seam(data: Seq<u8>, i: int)
    requires
        0 <= i,
        i > 0 && short_code_at(data, i) ==> data[i - 1] != 0,
        start_code_from(data, i) is Some,
    ensures
        is_seam(data, (start_code_from(data, i)->0).1),
{
    lemma_search(data, i);
    let (_, code) = start_code_from(data, i)->0;
    if code > i {
        assert(!code_at(data, code - 1));
    }
}

proof fn lemma_end_is_seam(data: Seq<u8>, code: int)
    requires
        code_at(data, code),
    ensures
        is_seam(data, nal_end(data, code + code_len(data, code))),
        code < nal_end(data, code + code_len(data, code)),
{
    let unit = code + code_len(data, code);
    assert(data[unit - 1] == 1);
    lemma_search(data, unit);
    if start_code_from(data, unit) is Some {
        lemma_found_is_seam(data, unit);
    }
}

/// The units behind the first of a list, and behind any of it, are those from its end on.
proof fn lemma_nals_tail(data: Seq<u8>, i: int, k: nat)
    requires
        0 <= i,
        i > 0 && short_code_at(data, i) ==> data[i - 1] != 0,
        k <= nals_from(data, i).len(),
        nals_from(data, i).len() > 0,
    ensures
        ({
            let nals = nals_from(data, i);
            let p = if k == 0 {
                nals[0].0
            } else {
                nals[k - 1].2
            };
            &&& i <= p
            &&& is_seam(data, p)
            &&& nals_from(data, p) == nals.skip(k as int)
        }),
    decreases data.len() - i,
{
    let nals = nals_from(data, i);
    lemma_search(data, i);
    lemma_found_is_seam(data, i);
    let (unit, code) = start_code_from(data, i)->0;
    lemma_end_is_seam(data, code);
    let end = nal_end(data, unit);
    let tail = nals_from(data, end);
    lemma_search(data, unit);
    if unit < end {
        let first = (code, unit - code, end);
        assert(nals == seq![first] + tail);
        assert(nals[0] == first);
        if k == 0 {
            lemma_search_is(data, code, code);
            assert(nals_from(data, code) == nals);
            assert(nals.skip(0) == nals);
        } else if k == 1 {
            assert(nals.skip(1) == tail);
        } else {
            assert(nals[k - 1] == tail[k - 2]);
            lemma_nals_tail(data, end, (k - 1) as nat);
            assert(tail.skip(k - 1) == nals.skip(k as int));
        }
    } else {
        assert(nals == Seq::<(int, int, int)>::empty() + tail);
        assert(nals == tail);
        lemma_nals_tail(data, end, k);
    }
}

proof fn lemma_point_is_seam(data: Seq<u8>)
    requires
        nals_from(data, 0).len() > 0,
    ensures
        is_seam(data, insertion_point(data)),
        nals_from(data, insertion_point(data)) == nals_from(data, 0).skip(
            leading_count(data, nals_from(data, 0)) as int,
        ),
{
    lemma_leading_count(data, nals_from(data, 0));
    lemma_nals_tail(data, 0, leading_count(data, nals_from(data, 0)));
}

/// The message as a row of bytes.
pub open spec fn hdr10_bytes() -> Seq<u8> {
    seq![
        0u8, 0u8, 0u8, 1u8, 0x4eu8, 1u8, 137u8, 24u8, 0x33u8, 0xc2u8, 0x86u8, 0xc4u8, 0x1du8,
        0x4cu8, 0x0bu8, 0xb8u8, 0x84u8, 0xd0u8, 0x3eu8, 0x80u8, 0x3du8, 0x13u8, 0x40u8, 0x42u8,
        0u8, 0x98u8, 0x96u8, 0x80u8, 0u8, 0u8, 0u8, 0x32u8, 144u8, 4u8, 0x03u8, 0xe8u8, 0x01u8,
        0x90u8, 0x80u8,
    ]
}

proof fn lemma_hdr10_bytes()
    ensures
        hdr10_sei() == hdr10_bytes(),
        hdr10_sei().len() == 39,
{
    assert(sei_number(137) == seq![137u8]);
    assert(sei_number(24) == seq![24u8]);
    assert(sei_number(144) == seq![144u8]);
    assert(sei_number(4) == seq![4u8]);
    assert(be16(13250) == seq![0x33u8, 0xc2u8]);
    assert(be16(34500) == seq![0x86u8, 0xc4u8]);
    assert(be16(7500) == seq![0x1du8, 0x4cu8]);
    assert(be16(3000) == seq![0x0bu8, 0xb8u8]);
    assert(be16(34000) == seq![0x84u8, 0xd0u8]);
    assert(be16(16000) == seq![0x3eu8, 0x80u8]);
    assert(be16(15635) == seq![0x3du8, 0x13u8]);
    assert(be16(16450) == seq![0x40u8, 0x42u8]);
    assert(be32(10_000_000) == seq![0u8, 0x98u8, 0x96u8, 0x80u8]);
    assert(be32(50) == seq![0u8, 0u8, 0u8, 0x32u8]);
    assert(be16(1000) == seq![0x03u8, 0xe8u8]);
    assert(be16(400) == seq![0x01u8, 0x90u8]);
    assert(hdr10_sei() =~= hdr10_bytes());
}

/// Within the message there is no start code but its own.
proof fn lemma_no_code_inside(i: int)
    requires
        4 <= i < 39,
    ensures
        ({
            let s = hdr10_bytes();
            ||| s[i] != 0
            ||| i + 1 < 39 && s[i + 1] != 0
            ||| i + 2 < 39 && s[i + 2] != 0 && s[i + 2] != 1
            ||| i + 3 < 39 && s[i + 2] == 0 && s[i + 3] != 1
        }),
{
    let s = hdr10_bytes();
    assert(s.len() == 39);
    if i == 24 {
        assert(s[25] == 0x98);
    } else if i == 28 {
        assert(s[30] == 0 && s[31] == 0x32);
    } else if i == 29 {
        assert(s[30] == 0 && s[31] == 0x32);
    } else if i == 30 {
        assert(s[31] == 0x32);
    } else {
        if i < 12 {
            assert(s[4] != 0 && s[5] != 0 && s[6] != 0 && s[7] != 0 && s[8] != 0 && s[9] != 0
                && s[10] != 0 && s[11] != 0);
        } else if i < 24 {
            assert(s[12] != 0 && s[13] != 0 && s[14] != 0 && s[15] != 0 && s[16] != 0 && s[17] != 0
                && s[18] != 0 && s[19] != 0 && s[20] != 0 && s[21] != 0 && s[22] != 0 && s[23]
                != 0);
        } else {
            assert(s[25] != 0 && s[26] != 0 && s[27] != 0 && s[31] != 0 && s[32] != 0 && s[33] != 0
                && s[34] != 0 && s[35] != 0 && s[36] != 0 && s[37] != 0 && s[38] != 0);
        }
    }
}

/// A list of units, moved by so many bytes.
pub open spec fn moved(nals: Seq<(int, int, int)>, by: int) -> Seq<(int, int, int)> {
    nals.map_values(|n: (int, int, int)| (n.0 + by, n.1, n.2 + by))
}

proof fn lemma_codes_around(data: Seq<u8>, p: int, out: Seq<u8>, i: int)
    requires
        is_seam(data, p),
        out == data.take(p) + hdr10_sei() + data.skip(p),
        0 <= i,
    ensures
        i < p ==> short_code_at(out, i) == short_code_at(data, i) && long_code_at(out, i)
            == long_code_at(data, i) && (code_at(data, i) ==> i + code_len(data, i) <= p),
        i == p ==> !short_code_at(out, i) && long_code_at(out, i),
        p + 4 <= i < p + 39 ==> !code_at(out, i),
        i >= p + 39 ==> short_code_at(out, i) == short_code_at(data, i - 39) && long_code_at(
            out,
            i,
        ) == long_code_at(data, i - 39),
{
    lemma_hdr10_bytes();
    let s = hdr10_bytes();
    assert(out.len() == data.len() + 39);
    assert(forall|j: int| 0 <= j < p ==> out[j] == data[j]);
    assert(forall|j: int| p <= j < p + 39 ==> out[j] == s[j - p]);
    assert(forall|j: int| p + 39 <= j < out.len() ==> out[j] == data[j - 39]);
    assert(s[0] == 0 && s[1] == 0 && s[2] == 0 && s[3] == 1);
    if p + 4 <= i < p + 39 {
        lemma_no_code_inside(i - p);
        assert(s[38] == 0x80);
        assert(s[37] == 0x90);
        assert(s[36] == 0x01);
        if i - p >= 36 {
        } else if i - p == 35 {
            assert(s[35] == 0xe8);
        }
    }
}

proof fn lemma_nals_after(data: Seq<u8>, p: int, out: Seq<u8>, i: int)
    requires
        is_seam(data, p),
        out == data.take(p) + hdr10_sei() + data.skip(p),
        p <= i,
    ensures
        nals_from(out, i + 39) == moved(nals_from(data, i), 39),
    decreases data.len() - i,
{
    lemma_hdr10_bytes();
    lemma_search(data, i);
    match start_code_from(data, i) {
        None => {
            assert forall|j: int| i + 39 <= j implies !#[trigger] code_at(out, j) by {
                lemma_codes_around(data, p, out, j);
                assert(!code_at(data, j - 39));
            }
            lemma_search_none(out, i + 39);
            assert(nals_from(out, i + 39) == moved(nals_from(data, i), 39));
        },
        Some((unit, code)) => {
            assert forall|j: int| i + 39 <= j < code + 39 implies !#[trigger] code_at(out, j) by {
                lemma_codes_around(data, p, out, j);
                assert(!code_at(data, j - 39));
            }
            lemma_codes_around(data, p, out, code + 39);
            lemma_search_is(out, i + 39, code + 39);
            lemma_search(data, unit);
            let end = nal_end(data, unit);
            if start_code_from(data, unit) is Some {
                assert forall|j: int| unit + 39 <= j < end + 39 implies !#[trigger] code_at(
                    out,
                    j,
                ) by {
                    lemma_codes_around(data, p, out, j);
                    assert(!code_at(data, j - 39));
                }
                lemma_codes_around(data, p, out, end + 39);
                lemma_search_is(out, unit + 39, end + 39);
            } else {
                assert forall|j: int| unit + 39 <= j implies !#[trigger] code_at(out, j) by {
                    lemma_codes_around(data, p, out, j);
                    assert(!code_at(data, j - 39));
                }
                lemma_search_none(out, unit + 39);
            }
            assert(nal_end(out, unit + 39) == end + 39);
            lemma_nals_after(data, p, out, end);
            let head = if unit < end {
                seq![(code, unit - code, end)]
            } else {
                Seq::empty()
            };
            assert(nals_from(data, i) == head + nals_from(data, end));
            assert(moved(head + nals_from(data, end), 39) == moved(head, 39) + moved(
                nals_from(data, end),
                39,
            ));
            assert(nals_from(out, i + 39) == moved(head, 39) + nals_from(out, end + 39));
        },
    }
}

proof fn lemma_nals_before(data: Seq<u8>, p: int, out: Seq<u8>, i: int) -> (front: Seq<
    (int, int, int),
>)
    requires
        is_seam(data, p),
        out == data.take(p) + hdr10_sei() + data.skip(p),
        0 <= i <= p,
    ensures
        nals_from(data, i) == front + nals_from(data, p),
        nals_from(out, i) == front + seq![(p, 4int, p + 39)] + moved(nals_from(data, p), 39),
    decreases p - i,
{
    lemma_hdr10_bytes();
    lemma_search(data, i);
    assert forall|j: int| 0 <= j < p implies #[trigger] code_at(out, j) == code_at(data, j) by {
        lemma_codes_around(data, p, out, j);
    }
    lemma_codes_around(data, p, out, p);
    let early = start_code_from(data, i) is Some && (start_code_from(data, i)->0).1 < p;
    if early {
        let (unit, code) = start_code_from(data, i)->0;
        lemma_codes_around(data, p, out, code);
        lemma_search_is(out, i, code);
        assert(code_len(out, code) == code_len(data, code));
        assert(unit <= p);
        lemma_search(data, unit);
        let end = nal_end(data, unit);
        if p < data.len() {
            assert(code_at(data, p));
        }
        assert(end <= p);
        if end < p {
            assert(code_at(data, end));
            lemma_search_is(out, unit, end);
        } else {
            assert forall|j: int| unit <= j < p implies !#[trigger] code_at(out, j) by {
                assert(!code_at(data, j));
            }
            lemma_search_is(out, unit, p);
        }
        assert(nal_end(out, unit) == end);
        let rest = lemma_nals_before(data, p, out, end);
        let head = if unit < end {
            seq![(code, unit - code, end)]
        } else {
            Seq::empty()
        };
        let front = head + rest;
        assert(nals_from(data, i) == head + nals_from(data, end));
        assert(nals_from(out, i) == head + nals_from(out, end));
        assert(head + (rest + nals_from(data, p)) == front + nals_from(data, p));
        assert(head + (rest + seq![(p, 4int, p + 39)] + moved(nals_from(data, p), 39)) == front
            + seq![(p, 4int, p + 39)] + moved(nals_from(data, p), 39));
        front
    } else {
        assert forall|j: int| i <= j < p implies !#[trigger] code_at(out, j) by {
            assert(!code_at(data, j));
        }
        lemma_search_is(out, i, p);
        // The units of the data from here on are those from the seam on.
        if p < data.len() {
            assert(code_at(data, p));
            assert forall|j: int| i <= j < p implies !#[trigger] code_at(data, j) by {}
            lemma_search_is(data, i, p);
            lemma_search_is(data, p, p);
        } else {
            lemma_search(data, p);
            assert forall|j: int| p <= j implies !#[trigger] code_at(data, j) by {}
            lemma_search_none(data, p);
        }
        assert(nals_from(data, i) == nals_from(data, p));
        // The message's unit ends where the data goes on.
        assert forall|j: int| p + 4 <= j < p + 39 implies !#[trigger] code_at(out, j) by {
            lemma_codes_around(data, p, out, j);
        }
        if p < data.len() {
            lemma_codes_around(data, p, out, p + 39);
            lemma_search_is(out, p + 4, p + 39);
        } else {
            assert forall|j: int| p + 4 <= j implies !#[trigger] code_at(out, j) by {
                lemma_codes_around(data, p, out, j);
            }
            lemma_search_none(out, p + 4);
        }
        assert(nal_end(out, p + 4) == p + 39);
        lemma_nals_after(data, p, out, p);
        let front = Seq::<(int, int, int)>::empty();
        assert(nals_from(out, i) == seq![(p, 4int, p + 39)] + nals_from(out, p + 39));
        assert(front + nals_from(data, p) == nals_from(data, p));
        assert(front + seq![(p, 4int, p + 39)] + moved(nals_from(data, p), 39) == seq![
            (p, 4int, p + 39),
        ] + moved(nals_from(data, p), 39));
        front
    }
}

/// The message becomes a unit of its own, behind the parameter sets and in front of the picture:
/// the units of the new frame are those that belong before the message, the message, and the
/// others, in their order.
pub proof fn message_stands_behind_the_parameter_sets(data: Seq<u8>)
    requires
        nals_from(data, 0).len() > 0,
    ensures
        ({
            let nals = nals_from(data, 0);
            let k = leading_count(data, nals) as int;
            let p = insertion_point(data);
            &&& k <= nals.len()
            &&& forall|i: int| 0 <= i < k ==> is_leading(data, #[trigger] nals[i])
            &&& k < nals.len() ==> !is_leading(data, nals[k])
            &&& nals_from(with_hdr10_sei(data), 0) == nals.take(k) + seq![(p, 4int, p + 39)]
                + moved(nals.skip(k), 39)
        }),
{
    let nals = nals_from(data, 0);
    let k = leading_count(data, nals) as int;
    let p = insertion_point(data);
    lemma_leading_count(data, nals);
    lemma_point_is_seam(data);
    let front = lemma_nals_before(data, p, with_hdr10_sei(data), 0);
    assert(nals == front + nals.skip(k));
    assert(front.len() == k);
    assert(nals.take(k) == front);
}

/// Taking the message out again gives the frame back.
pub proof fn message_can_be_taken_out(data: Seq<u8>)
    ensures
        ({
            let p = insertion_point(data);
            let out = with_hdr10_sei(data);
            &&& 0 <= p <= data.len()
            &&& out.len() == data.len() + hdr10_sei().len()
            &&& out.subrange(p, p + hdr10_sei().len()) == hdr10_sei()
            &&& out.take(p) + out.skip(p + hdr10_sei().len()) == data
        }),
{
    if nals_from(data, 0).len() > 0 {
        lemma_point_is_seam(data);
    }
    let p = insertion_point(data);
    let out = with_hdr10_sei(data);
    assert(out.subrange(p, p + hdr10_sei().len()) == hdr10_sei());
    assert(out.take(p) + out.skip(p + hdr10_sei().len()) == data);
}

/// A number of a message header is told by the sum of its bytes: all but the last are 255, and
/// the last is less.
pub proof fn a_message_number_adds_up(n: nat)
    ensures
        sei_number(n).len() == n / 255 + 1,
        forall|i: int| 0 <= i < sei_number(n).len() - 1 ==> sei_number(n)[i] == 255,
        sei_number(n).last() == n % 255,
    decreases n,
{
    if n >= 255 {
        a_message_number_adds_up((n - 255) as nat);
        assert((n - 255) as nat / 255 + 1 == n / 255);
        assert((n - 255) as nat % 255 == n % 255);
        let rest = sei_number((n - 255) as nat);
        assert forall|i: int| 0 <= i < sei_number(n).len() - 1 implies sei_number(n)[i] == 255 by {
            if i > 0 {
                assert(sei_number(n)[i] == rest[i - 1]);
            }
        }
    }
}

proof fn lemma_type_bits(b: u8)
    by (bit_vector)
    ensures
        (b / 2) % 64 == (b >> 1) & 0x3f,
{
}

/// The message stands behind the parameter sets, the delimiter and other messages, and before
/// any picture: units of the types 32 to 35, 39 and 40 belong before it, and units of the picture
/// types, those below 32, never do. The type of a unit is bits one to six of its first byte.
pub proof fn pictures_come_behind_the_message(data: Seq<u8>, nal: (int, int, int))
    requires
        0 <= nal.0 + nal.1,
        nal.0 + nal.1 + 2 <= nal.2 <= data.len(),
    ensures
        ({
            let t = (data[nal.0 + nal.1] >> 1) & 0x3f;
            &&& t < 32 ==> !is_leading(data, nal)
            &&& 32 <= t <= 35 ==> is_leading(data, nal)
            &&& t == 39 || t == 40 ==> is_leading(data, nal)
            &&& 36 <= t <= 38 || t > 40 ==> !is_leading(data, nal)
        }),
{
    lemma_type_bits(data[nal.0 + nal.1]);
    let unit = data.subrange(nal.0 + nal.1, nal.2);
    assert(unit[0] == data[nal.0 + nal.1]);
}

/// The units of a stream lie one behind the other, each behind a start code of three or four
/// bytes, none of them empty, and no start code stands inside one.
pub proof fn units_lie_in_order(data: Seq<u8>, i: int, n: int)
    requires
        0 <= i,
        0 <= n < nals_from(data, i).len(),
    ensures
        ({
            let (code, len, end) = nals_from(data, i)[n];
            &&& i <= code
            &&& code_at(data, code)
            &&& len == code_len(data, code)
            &&& code + len < end <= data.len()
            &&& end == data.len() || code_at(data, end)
            &&& forall|j: int| code + len <= j < end ==> !#[trigger] code_at(data, j)
            &&& n + 1 < nals_from(data, i).len() ==> end <= nals_from(data, i)[n + 1].0
        }),
    decreases data.len() - i,
{
    lemma_search(data, i);
    let (unit, code) = start_code_from(data, i)->0;
    let end = nal_end(data, unit);
    lemma_search(data, unit);
    let rest = nals_from(data, end);
    let shift: int = if unit < end {
        1
    } else {
        0
    };
    assert(nals_from(data, i).len() == rest.len() + shift);
    if n >= shift {
        units_lie_in_order(data, end, n - shift);
        assert(nals_from(data, i)[n] == rest[n - shift]);
        if n + 1 < nals_from(data, i).len() {
            assert(nals_from(data, i)[n + 1] == rest[n + 1 - shift]);
        }
    } else {
        assert(nals_from(data, i)[0] == (code, unit - code, end));
        if 1 < nals_from(data, i).len() {
            assert(nals_from(data, i)[1] == rest[0]);
            units_lie_in_order(data, end, 0);
        }
    }
}

/// The message is the one of its standard: two payloads, of the types 137 and 144 and of 24 and 4
/// bytes, in a unit of type 39; primaries, white point, and brightnesses of 1000 and 0.005 nits.
pub proof fn the_message_is_well_formed()
    ensures
        ({
            let m = hdr10_sei();
            &&& m.len() == 39
            &&& m[0] == 0 && m[1] == 0 && m[2] == 0 && m[3] == 1
            &&& nal_type(m.skip(4)) == Some(39u8)
            &&& m[6] == 137 && m[7] == 24
            &&& m[8] * 256 + m[9] == 13250 && m[10] * 256 + m[11] == 34500
            &&& m[12] * 256 + m[13] == 7500 && m[14] * 256 + m[15] == 3000
            &&& m[16] * 256 + m[17] == 34000 && m[18] * 256 + m[19] == 16000
            &&& m[20] * 256 + m[21] == 15635 && m[22] * 256 + m[23] == 16450
            &&& m[24] * 0x100_0000 + m[25] * 0x1_0000 + m[26] * 256 + m[27] == 10_000_000
            &&& m[28] * 0x100_0000 + m[29] * 0x1_0000 + m[30] * 256 + m[31] == 50
            &&& m[32] == 144 && m[33] == 4
            &&& m[34] * 256 + m[35] == 1000 && m[36] * 256 + m[37] == 400
            &&& m[38] == 0x80
        }),
{
    lemma_hdr10_bytes();
    let m = hdr10_sei();
    assert(m == hdr10_bytes());
    assert(m.skip(4)[0] == 0x4e);
}

} // verus!
