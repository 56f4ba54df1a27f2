//! Choosing among the encoders that a machine has.
use vstd::prelude::*;

verus! {

/// What an encoder produces.
#[derive(Debug, Clone, Copy, PartialEq, Eq, Structural)]
pub enum DataFormat {
    H264,
    H265,
    VP8,
    VP9,
    MJPEG,
}

/// An encoder.
#[derive(Debug)]
pub struct CodecInfo {
    pub name: String,
    pub format: DataFormat,
}

/// Whether an encoder is the first of its format that is preferred.
pub open spec fn is_first_preferred<F: Fn(&CodecInfo) -> bool>(
    encoders: Seq<CodecInfo>,
    format: DataFormat,
    preferred: F,
    i: int,
) -> bool {
    &&& 0 <= i < encoders.len()
    &&& encoders[i].format == format
    &&& call_ensures(preferred, (&encoders[i],), true)
    &&& forall|j: int|
        0 <= j < i && (#[trigger] encoders[j]).format == format ==> call_ensures(
            preferred,
            (&encoders[j],),
            false,
        )
}

/// Whether no encoder of a format is preferred.
pub open spec fn none_preferred<F: Fn(&CodecInfo) -> bool>(
    encoders: Seq<CodecInfo>,
    format: DataFormat,
    preferred: F,
) -> bool {
    forall|j: int|
        0 <= j < encoders.len() && (#[trigger] encoders[j]).format == format ==> call_ensures(
            preferred,
            (&encoders[j],),
            false,
        )
}

/// Whether an encoder is the first of its format.
pub open spec fn is_first_of_format(
    encoders: Seq<CodecInfo>,
    format: DataFormat,
    i: int,
) -> bool {
    &&& 0 <= i < encoders.len()
    &&& encoders[i].format == format
    &&& forall|j: int| 0 <= j < i ==> (#[trigger] encoders[j]).format != format
}

/// Picks an encoder of a format: the first that is preferred, or else the first.
pub fn select_codec_for_format<'a, F: Fn(&CodecInfo) -> bool>(
    encoders: &'a Vec<CodecInfo>,
    format: DataFormat,
    preferred: F,
) -> (r: Option<&'a CodecInfo>)
    requires
        forall|c: &CodecInfo| call_requires(preferred, (c,)),
    ensures
        match r {
            Some(codec) => exists|i: int|
                #![trigger encoders@[i]]
                0 <= i < encoders@.len() && *codec == encoders@[i] && (is_first_preferred(
                    encoders@,
                    format,
                    preferred,
                    i,
                ) || (none_preferred(encoders@, format, preferred) && is_first_of_format(
                    encoders@,
                    format,
                    i,
                ))),
            None => forall|j: int|
                0 <= j < encoders@.len() ==> (#[trigger] encoders@[j]).format != format,
        },
{
    let mut i: usize = 0;
    while i < encoders.len()
        invariant
            i <= encoders@.len(),
            forall|c: &CodecInfo| call_requires(preferred, (c,)),
            forall|j: int|
                0 <= j < i && (#[trigger] encoders@[j]).format == format ==> call_ensures(
                    preferred,
                    (&encoders@[j],),
                    false,
                ),
        decreases encoders.len() - i,
    {
        if encoders[i].format == format && preferred(&encoders[i]) {
            assert(is_first_preferred(encoders@, format, preferred, i as int));
            return Some(&encoders[i]);
        }
        i = i + 1;
    }
    let mut k: usize = 0;
    while k < encoders.len()
        invariant
            k <= encoders@.len(),
            none_preferred(encoders@, format, preferred),
            forall|j: int| 0 <= j < k ==> (#[trigger] encoders@[j]).format != format,
        decreases encoders.len() - k,
    {
        if encoders[k].format == format {
            assert(is_first_of_format(encoders@, format, k as int));
            return Some(&encoders[k]);
        }
        k = k + 1;
    }
    None
}

/// The name of the encoder that is picked for a format.
pub fn detect_best_codec_for_format<F: Fn(&CodecInfo) -> bool>(
    encoders: &Vec<CodecInfo>,
    format: DataFormat,
    preferred: F,
) -> (r: Option<String>)
    requires
        forall|c: &CodecInfo| call_requires(preferred, (c,)),
    ensures
        match r {
            Some(name) => exists|i: int|
                #![trigger encoders@[i]]
                0 <= i < encoders@.len() && name@ == encoders@[i].name@ && (is_first_preferred(
                    encoders@,
                    format,
                    preferred,
                    i,
                ) || (none_preferred(encoders@, format, preferred) && is_first_of_format(
                    encoders@,
                    format,
                    i,
                ))),
            None => forall|j: int|
                0 <= j < encoders@.len() ==> (#[trigger] encoders@[j]).format != format,
        },
{
    match select_codec_for_format(encoders, format, preferred) {
        Some(codec) => Some(codec.name.clone()),
        None => None,
    }
}

} // verus!
