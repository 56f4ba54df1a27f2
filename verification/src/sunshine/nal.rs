//! NAL units in an Annex B byte stream.
use crate::sunshine::hex::{hex_char, hex_encode};
use crate::text::{append_decimal, decimal, owned};
use crate::video::format::{EncodedVideoFrame, VideoEncoderType};
use vstd::prelude::*;
use vstd::slice::slice_subrange;
use vstd::string::StringExecFns;

verus! {

/// Whether the three-byte start code stands at a position.
pub open spec fn short_code_at(data: Seq<u8>, i: int) -> bool {
    0 <= i && i + 3 <= data.len() && data[i] == 0 && data[i + 1] == 0 && data[i + 2] == 1
}

/// Whether the four-byte start code stands at a position.
pub open spec fn long_code_at(data: Seq<u8>, i: int) -> bool {
    0 <= i && i + 4 <= data.len() && data[i] == 0 && data[i + 1] == 0 && data[i + 2] == 0 && data[i
        + 3] == 1
}

/// The first start code from a position on: where its NAL unit begins, and where it stands.
pub open spec fn start_code_from(data: Seq<u8>, i: int) -> Option<(int, int)>
    decreases data.len() - i,
{
    if i + 3 > data.len() {
        None
    } else if short_code_at(data, i) {
        Some((i + 3, i))
    } else if long_code_at(data, i) {
        Some((i + 4, i))
    } else {
        start_code_from(data, i + 1)
    }
}

/// A start code lies where it was looked for, and its unit begins within the data.
pub proof fn lemma_start_code(data: Seq<u8>, i: int)
    requires
        0 <= i,
    ensures
        match start_code_from(data, i) {
            Some((unit, code)) => i <= code && code + 3 <= unit <= code + 4 && unit <= data.len()
                && (unit == code + 3 ==> short_code_at(data, code)) && (unit == code + 4
                ==> long_code_at(data, code)),
            None => true,
        },
    decreases data.len() - i,
{
    if i + 3 <= data.len() && !short_code_at(data, i) && !long_code_at(data, i) {
        lemma_start_code(data, i + 1);
    }
}

/// Finds the first start code from a position on; gives where its NAL unit begins and where it
/// stands.
pub fn find_start_code(data: &[u8], offset: usize) -> (r: Option<(usize, usize)>)
    ensures
        match r {
            Some((unit, code)) => start_code_from(data@, offset as int) == Some(
                (unit as int, code as int),
            ),
            None => start_code_from(data@, offset as int) is None,
        },
{
    let n: usize = data.len();
    if n < 3 {
        return None;
    }
    let last: usize = n - 3;
    let mut i: usize = offset;
    while i <= last
        invariant
            n == data@.len(),
            last == n - 3,
            start_code_from(data@, offset as int) == start_code_from(data@, i as int),
        decreases n - i,
    {
        if data[i] == 0 && data[i + 1] == 0 && data[i + 2] == 1 {
            return Some((i + 3, i));
        }
        if i < last && data[i] == 0 && data[i + 1] == 0 && data[i + 2] == 0 && data[i + 3] == 1 {
            return Some((i + 4, i));
        }
        i = i + 1;
    }
    None
}

/// Where the NAL unit ends that begins at a position: at the next start code, or with the data.
pub open spec fn unit_end(data: Seq<u8>, unit: int) -> int {
    match start_code_from(data, unit + 1) {
        Some((_, code)) => code,
        None => data.len() as int,
    }
}

/// The first byte and the length of every NAL unit from a position on; empty units do not count.
pub open spec fn units_from(data: Seq<u8>, i: int) -> Seq<(u8, usize)>
    decreases data.len() - i,
    when 0 <= i
    via units_from_decreases
{
    match start_code_from(data, i) {
        None => Seq::empty(),
        Some((unit, _)) => {
            let end = unit_end(data, unit);
            (if unit < end {
                seq![(data[unit], (end - unit) as usize)]
            } else {
                Seq::empty()
            }) + units_from(data, end)
        },
    }
}

#[via_fn]
proof fn units_from_decreases(data: Seq<u8>, i: int) {
    lemma_start_code(data, i);
    if start_code_from(data, i) is Some {
        let unit = (start_code_from(data, i)->0).0;
        lemma_start_code(data, unit + 1);
    }
}

/// Lists the first byte and the length of every NAL unit.
pub fn parse_annex_b_nals(data: &[u8]) -> (r: Vec<(u8, usize)>)
    ensures
        r@ == units_from(data@, 0),
{
    let mut nals: Vec<(u8, usize)> = Vec::new();
    let size: usize = data.len();
    let mut offset: usize = 0;
    assert(nals@ + units_from(data@, 0) == units_from(data@, 0));
    loop
        invariant_except_break
            size == data@.len(),
            offset <= size,
            nals@ + units_from(data@, offset as int) == units_from(data@, 0),
        ensures
            nals@ == units_from(data@, 0),
        decreases data@.len() - offset,
    {
        let ghost before = nals@;
        proof {
            lemma_start_code(data@, offset as int);
        }
        let unit: usize = match find_start_code(data, offset) {
            Some((unit, _)) => unit,
            None => {
                assert(nals@ + Seq::<(u8, usize)>::empty() == nals@);
                break;
            },
        };
        proof {
            lemma_start_code(data@, unit + 1);
        }
        let next: usize = unit.saturating_add(1);
        assert(unit == usize::MAX ==> start_code_from(data@, unit + 1) is None);
        let end: usize = match find_start_code(data, next) {
            Some((_, code)) => code,
            None => size,
        };
        assert(end == unit_end(data@, unit as int));
        if unit < end {
            nals.push((data[unit], end - unit));
            assert(nals@ + units_from(data@, end as int) == before + (seq![
                (data@[unit as int], (end - unit) as usize),
            ] + units_from(data@, end as int)));
        } else {
            assert(nals@ + units_from(data@, end as int) == before + (Seq::<
                (u8, usize),
            >::empty() + units_from(data@, end as int)));
        }
        offset = end;
    }
    nals
}

/// The type of an H.265 unit, from its first byte.
pub open spec fn h265_type(first: u8) -> u8 {
    (first / 2) % 64
}

/// The type of an H.264 unit, from its first byte.
pub open spec fn h264_type(first: u8) -> u8 {
    first % 32
}

/// Lists the type and the length of every H.265 unit.
pub fn parse_h265_nal_types(data: &[u8]) -> (r: Vec<(u8, usize)>)
    ensures
        r@ == units_from(data@, 0).map_values(|u: (u8, usize)| (h265_type(u.0), u.1)),
{
    let nals = parse_annex_b_nals(data);
    let mut out: Vec<(u8, usize)> = Vec::new();
    let mut i: usize = 0;
    while i < nals.len()
        invariant
            i <= nals@.len(),
            out@ == nals@.take(i as int).map_values(|u: (u8, usize)| (h265_type(u.0), u.1)),
        decreases nals.len() - i,
    {
        let (nal, len): (u8, usize) = nals[i];
        assert((nal >> 1) & 0x3fu8 == (nal / 2) % 64) by (bit_vector);
        let ghost before = out@;
        out.push(((nal >> 1) & 0x3f, len));
        assert(nals@.take(i + 1) == nals@.take(i as int).push(nals@[i as int]));
        assert(out@ == nals@.take(i + 1).map_values(|u: (u8, usize)| (h265_type(u.0), u.1)));
        i = i + 1;
    }
    assert(nals@.take(i as int) == nals@);
    out
}

/// Lists the type and the length of every H.264 unit.
pub fn parse_h264_nal_types(data: &[u8]) -> (r: Vec<(u8, usize)>)
    ensures
        r@ == units_from(data@, 0).map_values(|u: (u8, usize)| (h264_type(u.0), u.1)),
{
    let nals = parse_annex_b_nals(data);
    let mut out: Vec<(u8, usize)> = Vec::new();
    let mut i: usize = 0;
    while i < nals.len()
        invariant
            i <= nals@.len(),
            out@ == nals@.take(i as int).map_values(|u: (u8, usize)| (h264_type(u.0), u.1)),
        decreases nals.len() - i,
    {
        let (nal, len): (u8, usize) = nals[i];
        assert(nal & 0x1fu8 == nal % 32) by (bit_vector);
        let ghost before = out@;
        out.push((nal & 0x1f, len));
        assert(nals@.take(i + 1) == nals@.take(i as int).push(nals@[i as int]));
        assert(out@ == nals@.take(i + 1).map_values(|u: (u8, usize)| (h264_type(u.0), u.1)));
        i = i + 1;
    }
    assert(nals@.take(i as int) == nals@);
    out
}

/// Bytes as pairs of hexadecimal digits with spaces between them.
pub open spec fn spaced_hex(bytes: Seq<u8>) -> Seq<char>
    decreases bytes.len(),
{
    if bytes.len() == 0 {
        Seq::empty()
    } else {
        let last = seq![hex_char(bytes.last() / 16), hex_char(bytes.last() % 16)];
        if bytes.len() == 1 {
            last
        } else {
            spaced_hex(bytes.drop_last()) + " "@ + last
        }
    }
}

fn write_spaced_hex(bytes: &[u8]) -> (r: String)
    ensures
        r@ == spaced_hex(bytes@),
{
    let mut out = String::new();
    let mut i: usize = 0;
    assert(bytes@.take(0) == Seq::<u8>::empty());
    assert(out@ == Seq::<char>::empty());
    while i < bytes.len()
        invariant
            i <= bytes@.len(),
            out@ == spaced_hex(bytes@.take(i as int)),
        decreases bytes.len() - i,
    {
        let ghost before = out@;
        if i > 0 {
            out.append(" ");
        }
        let one = slice_subrange(bytes, i, i + 1);
        let pair = hex_encode(one);
        out.append(pair.as_str());
        assert(bytes@.take(i + 1).drop_last() == bytes@.take(i as int));
        assert(pair@ == seq![hex_char(bytes@[i as int] / 16), hex_char(bytes@[i as int] % 16)]);
        if i == 0 {
            assert(out@ == pair@);
        }
        i = i + 1;
    }
    assert(bytes@.take(i as int) == bytes@);
    out
}

/// Pairs of numbers as a bracketed list.
pub open spec fn unit_list(units: Seq<(u8, usize)>) -> Seq<char>
    decreases units.len(),
{
    if units.len() == 0 {
        Seq::empty()
    } else {
        let (a, b) = units.last();
        (if units.len() == 1 {
            Seq::<char>::empty()
        } else {
            unit_list(units.drop_last()) + ", "@
        }) + "("@ + decimal(a as nat) + ", "@ + decimal(b as nat) + ")"@
    }
}

fn write_unit_list(units: &Vec<(u8, usize)>) -> (r: String)
    ensures
        r@ == unit_list(units@),
{
    let mut out = String::new();
    let mut i: usize = 0;
    assert(units@.take(0) == Seq::<(u8, usize)>::empty());
    assert(out@ == Seq::<char>::empty());
    while i < units.len()
        invariant
            i <= units@.len(),
            out@ == unit_list(units@.take(i as int)),
        decreases units.len() - i,
    {
        let (a, b): (u8, usize) = units[i];
        if i > 0 {
            out.append(", ");
        }
        out.append("(");
        append_decimal(&mut out, a as u64);
        out.append(", ");
        append_decimal(&mut out, b as u64);
        out.append(")");
        assert(units@.take(i + 1).drop_last() == units@.take(i as int));
        i = i + 1;
    }
    assert(units@.take(i as int) == units@);
    out
}

/// A description of a frame: its first bytes and, for the codecs with NAL units, their types.
pub open spec fn frame_summary(data: Seq<u8>, codec: VideoEncoderType) -> Seq<char> {
    let shown = if data.len() < 16 {
        data
    } else {
        data.take(16)
    };
    let units = units_from(data, 0);
    "first_bytes=["@ + spaced_hex(shown) + (match codec {
        VideoEncoderType::H265 => "] h265_nals=["@ + unit_list(
            units.map_values(|u: (u8, usize)| (h265_type(u.0), u.1)),
        ),
        VideoEncoderType::H264 => "] h264_nals=["@ + unit_list(
            units.map_values(|u: (u8, usize)| (h264_type(u.0), u.1)),
        ),
        _ => Seq::<char>::empty(),
    }) + "]"@
}

/// Describes a frame.
pub fn encoded_frame_summary(frame: &EncodedVideoFrame) -> (r: String)
    ensures
        r@ == frame_summary(frame.data@, frame.codec),
{
    let data = frame.data.as_slice();
    let shown = if data.len() < 16 {
        data
    } else {
        slice_subrange(data, 0, 16)
    };
    assert(data@.len() >= 16 ==> data@.take(16) == shown@);
    let mut out = owned("first_bytes=[");
    out.append(write_spaced_hex(shown).as_str());
    let ghost intro = out@;
    match frame.codec {
        VideoEncoderType::H265 => {
            out.append("] h265_nals=[");
            out.append(write_unit_list(&parse_h265_nal_types(data)).as_str());
            assert(out@ == intro + ("] h265_nals=["@ + unit_list(
                units_from(data@, 0).map_values(|u: (u8, usize)| (h265_type(u.0), u.1)),
            )));
        },
        VideoEncoderType::H264 => {
            out.append("] h264_nals=[");
            out.append(write_unit_list(&parse_h264_nal_types(data)).as_str());
            assert(out@ == intro + ("] h264_nals=["@ + unit_list(
                units_from(data@, 0).map_values(|u: (u8, usize)| (h264_type(u.0), u.1)),
            )));
        },
        _ => {
            assert(intro + Seq::<char>::empty() == intro);
        },
    }
    out.append("]");
    out
}

// ---------------------------------------------------------------- laws

/// A search finds the first start code there is: one stands where it was found, its unit begins
/// right behind it, and none stands before. Where nothing is found there is none.
pub proof fn a_search_finds_the_first_code(data: Seq<u8>, i: int)
    requires
        0 <= i,
    ensures
        match start_code_from(data, i) {
            Some((unit, code)) => {
                &&& i <= code
                &&& short_code_at(data, code) ==> unit == code + 3
                &&& !short_code_at(data, code) ==> long_code_at(data, code) && unit == code + 4
                &&& forall|j: int| i <= j < code ==> !short_code_at(data, j)
                &&& forall|j: int| i <= j < code ==> !long_code_at(data, j)
            },
            None => {
                &&& forall|j: int| i <= j ==> !short_code_at(data, j)
                &&& forall|j: int| i <= j ==> !long_code_at(data, j)
            },
        },
    decreases data.len() - i,
{
    if i + 3 <= data.len() && !short_code_at(data, i) && !long_code_at(data, i) {
        a_search_finds_the_first_code(data, i + 1);
    }
}

proof fn lemma_type_bits(b: u8)
    by (bit_vector)
    ensures
        (b / 2) % 64 == (b >> 1) & 0x3f,
        b % 32 == b & 0x1f,
{
}

/// The type of an H.265 unit is bits one to six of its first byte, that of an H.264 unit the five
/// lowest bits.
pub proof fn a_type_is_read_from_the_first_byte(first: u8)
    ensures
        h265_type(first) == (first >> 1) & 0x3f,
        h264_type(first) == first & 0x1f,
{
    lemma_type_bits(first);
}

/// The first unit of a stream is the one behind its first start code: told by its first byte, and
/// as long as the way to the next start code, or to the end.
pub proof fn the_first_unit_is_listed_first(data: Seq<u8>, i: int)
    requires
        0 <= i,
        start_code_from(data, i) is Some,
        (start_code_from(data, i)->0).0 < data.len(),
        data.len() <= usize::MAX,
    ensures
        ({
            let unit = (start_code_from(data, i)->0).0;
            let units = units_from(data, i);
            &&& units.len() > 0
            &&& units[0].0 == data[unit]
            &&& start_code_from(data, unit + 1) is None ==> units[0].1 == data.len() - unit
                && units.len() == 1
            &&& start_code_from(data, unit + 1) matches Some((_, code)) ==> units[0].1 == code - unit
                && units.skip(1) == units_from(data, code)
        }),
{
    lemma_start_code(data, i);
    let unit = (start_code_from(data, i)->0).0;
    lemma_start_code(data, unit + 1);
    let end = unit_end(data, unit);
    assert(units_from(data, i).skip(1) =~= units_from(data, end));
    if start_code_from(data, unit + 1) is None {
        assert(start_code_from(data, data.len() as int) is None);
        assert(units_from(data, data.len() as int) =~= Seq::empty());
    }
}

/// A start code is two or three zero bytes and a one.
pub proof fn a_start_code_is_zeros_and_a_one(before: Seq<u8>, after: Seq<u8>)
    ensures
        short_code_at(before + seq![0u8, 0u8, 1u8] + after, before.len() as int),
        long_code_at(before + seq![0u8, 0u8, 0u8, 1u8] + after, before.len() as int),
        forall|data: Seq<u8>, i: int| #[trigger]
            short_code_at(data, i) ==> data.subrange(i, i + 3) == seq![0u8, 0u8, 1u8],
        forall|data: Seq<u8>, i: int| #[trigger]
            long_code_at(data, i) ==> data.subrange(i, i + 4) == seq![0u8, 0u8, 0u8, 1u8],
{
    assert forall|data: Seq<u8>, i: int| #[trigger]
        short_code_at(data, i) implies data.subrange(i, i + 3) == seq![0u8, 0u8, 1u8] by {
        assert(data.subrange(i, i + 3) =~= seq![0u8, 0u8, 1u8]);
    }
    assert forall|data: Seq<u8>, i: int| #[trigger]
        long_code_at(data, i) implies data.subrange(i, i + 4) == seq![0u8, 0u8, 0u8, 1u8] by {
        assert(data.subrange(i, i + 4) =~= seq![0u8, 0u8, 0u8, 1u8]);
    }
}

/// Bytes are shown by their two digits, with a blank between them.
pub proof fn bytes_are_shown_with_blanks(bytes: Seq<u8>, b: u8)
    ensures
        spaced_hex(Seq::empty()).len() == 0,
        spaced_hex(seq![b]) == crate::sunshine::hex::encode_hex(seq![b]),
        bytes.len() > 0 ==> spaced_hex(bytes.push(b)) == spaced_hex(bytes) + " "@
            + crate::sunshine::hex::encode_hex(seq![b]),
{
    assert(bytes.push(b).drop_last() =~= bytes);
    assert(seq![b].last() == b);
    assert(crate::sunshine::hex::encode_hex(seq![b]) =~= seq![
        hex_char(b / 16),
        hex_char(b % 16),
    ]);
}

/// Units are shown by their type and their length, with a comma between them.
pub proof fn units_are_shown_with_commas(units: Seq<(u8, usize)>, u: (u8, usize))
    ensures
        ({
            let one = "("@ + decimal(u.0 as nat) + ", "@ + decimal(u.1 as nat) + ")"@;
            &&& unit_list(Seq::empty()).len() == 0
            &&& unit_list(seq![u]) == one
            &&& units.len() > 0 ==> unit_list(units.push(u)) == unit_list(units) + ", "@ + one
        }),
{
    let a = "("@;
    let b = decimal(u.0 as nat);
    let c = ", "@;
    let d = decimal(u.1 as nat);
    let e = ")"@;
    assert(units.push(u).drop_last() =~= units);
    assert(seq![u].last() == u);
    assert(Seq::<char>::empty() + a + b + c + d + e =~= a + b + c + d + e);
    if units.len() > 0 {
        let before = unit_list(units) + c;
        assert(before + a + b + c + d + e =~= before + (a + b + c + d + e));
    }
}

/// The summary of a frame shows its first sixteen bytes and, for H.264 and H.265, its units.
pub proof fn a_summary_shows_bytes_and_units(data: Seq<u8>, codec: VideoEncoderType)
    ensures
        ({
            let shown = if data.len() < 16 {
                data
            } else {
                data.take(16)
            };
            let units = units_from(data, 0);
            let summary = frame_summary(data, codec);
            &&& codec == VideoEncoderType::H264 ==> summary == "first_bytes=["@ + spaced_hex(shown)
                + ("] h264_nals=["@ + unit_list(
                units.map_values(|u: (u8, usize)| (h264_type(u.0), u.1)),
            )) + "]"@
            &&& codec == VideoEncoderType::H265 ==> summary == "first_bytes=["@ + spaced_hex(shown)
                + ("] h265_nals=["@ + unit_list(
                units.map_values(|u: (u8, usize)| (h265_type(u.0), u.1)),
            )) + "]"@
            &&& codec == VideoEncoderType::VP8 || codec == VideoEncoderType::VP9 ==> summary
                == "first_bytes=["@ + spaced_hex(shown) + "]"@
        }),
{
    let shown = if data.len() < 16 {
        data
    } else {
        data.take(16)
    };
    assert("first_bytes=["@ + spaced_hex(shown) + Seq::<char>::empty() =~= "first_bytes=["@
        + spaced_hex(shown));
}

} // verus!
