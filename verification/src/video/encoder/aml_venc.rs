//! The hardware encoder: how it is set up and what its answers mean.
use crate::ffi::multienc::{
    EncodingMetadata, VlCodecId, VlFrameType, VlImgFormat, ENABLE_ROI_FEATURE,
};
use crate::text::{append_signed, owned, signed_decimal};
use crate::types::AppError;
use vstd::prelude::*;
use vstd::slice::{slice_subrange, slice_to_vec};
use vstd::string::StringExecFns;

verus! {

/// How large the headers of a stream may be.
pub const HEADER_BUF_SIZE: usize = 4096;

/// How large an encoded frame may be.
pub const BITSTREAM_BUF_SIZE: usize = 8388608;

/// How many pixels a size has, where a side below one counts as one.
pub open spec fn pixel_count(width: i32, height: i32) -> int {
    (if width < 1 {
        1
    } else {
        width as int
    }) * (if height < 1 {
        1
    } else {
        height as int
    })
}

/// The size of the encoder's buffer for a picture size, in kilobytes.
pub open spec fn bitstream_buf_kb(width: i32, height: i32) -> i32 {
    if pixel_count(width, height) >= 3840 * 2160 {
        4096
    } else if pixel_count(width, height) >= 1920 * 1080 {
        2048
    } else {
        1024
    }
}

/// Chooses the size of the encoder's buffer.
pub fn choose_bitstream_buf_sz_kb(width: i32, height: i32) -> (r: i32)
    ensures
        r == bitstream_buf_kb(width, height),
{
    let w: i64 = if width < 1 {
        1
    } else {
        width as i64
    };
    let h: i64 = if height < 1 {
        1
    } else {
        height as i64
    };
    assert(1 <= w * h <= 0x7fff_ffff * 0x7fff_ffff) by (nonlinear_arith)
        requires
            1 <= w <= 0x7fff_ffff,
            1 <= h <= 0x7fff_ffff,
    ;
    let pixels: i64 = w * h;
    if pixels >= 3840 * 2160 {
        4096
    } else if pixels >= 1920 * 1080 {
        2048
    } else {
        1024
    }
}

/// What the encoder is set up with.
#[derive(Debug, Clone, Copy, PartialEq, Eq)]
pub struct EncoderSetup {
    pub codec: VlCodecId,
    pub width: i32,
    pub height: i32,
    pub frame_rate: i32,
    /// In bits per second.
    pub bit_rate: i32,
    pub gop: i32,
    pub prepend_spspps_to_idr_frames: bool,
    pub img_format: VlImgFormat,
    pub enc_feature_opts: i32,
    pub internal_bit_depth: i32,
    pub gop_pattern: i32,
    pub rc_mode: i32,
    pub bitstream_buf_sz_kb: i32,
    pub qp_min: i32,
    pub qp_max: i32,
    pub qp_base: i32,
}

/// A thousandfold, held within what fits.
pub open spec fn thousandfold(n: i32) -> i32 {
    if n * 1000 > i32::MAX {
        i32::MAX
    } else if n * 1000 < i32::MIN {
        i32::MIN
    } else {
        (n * 1000) as i32
    }
}

/// What an encoder is asked to do.
#[derive(Debug, Clone, Copy, PartialEq, Eq)]
pub struct EncoderRequest {
    pub codec: VlCodecId,
    pub width: i32,
    pub height: i32,
    pub fps: i32,
    pub bitrate_kbps: i32,
    pub gop: i32,
    pub gop_pattern: i32,
    pub rc_mode: i32,
}

/// The setup that a request leads to.
pub open spec fn encoder_setup(q: EncoderRequest) -> EncoderSetup {
    EncoderSetup {
        codec: q.codec,
        width: q.width,
        height: q.height,
        frame_rate: if q.fps < 1 {
            1
        } else {
            q.fps
        },
        bit_rate: thousandfold(q.bitrate_kbps),
        gop: q.gop,
        prepend_spspps_to_idr_frames: true,
        img_format: VlImgFormat::Nv12,
        enc_feature_opts: ENABLE_ROI_FEATURE,
        internal_bit_depth: 8,
        gop_pattern: q.gop_pattern,
        rc_mode: q.rc_mode,
        bitstream_buf_sz_kb: bitstream_buf_kb(q.width, q.height),
        qp_min: 0,
        qp_max: 51,
        qp_base: 30,
    }
}

/// Turns a request into a setup.
pub fn new_encoder_setup(q: &EncoderRequest) -> (r: EncoderSetup)
    ensures
        r == encoder_setup(*q),
{
    let wide: i64 = q.bitrate_kbps as i64 * 1000;
    let bit_rate: i32 = if wide > i32::MAX as i64 {
        i32::MAX
    } else if wide < i32::MIN as i64 {
        i32::MIN
    } else {
        wide as i32
    };
    EncoderSetup {
        codec: q.codec,
        width: q.width,
        height: q.height,
        frame_rate: if q.fps < 1 {
            1
        } else {
            q.fps
        },
        bit_rate,
        gop: q.gop,
        prepend_spspps_to_idr_frames: true,
        img_format: VlImgFormat::Nv12,
        enc_feature_opts: ENABLE_ROI_FEATURE,
        internal_bit_depth: 8,
        gop_pattern: q.gop_pattern,
        rc_mode: q.rc_mode,
        bitstream_buf_sz_kb: choose_bitstream_buf_sz_kb(q.width, q.height),
        qp_min: 0,
        qp_max: 51,
        qp_base: 30,
    }
}

/// The name of a codec.
pub open spec fn codec_label(codec: VlCodecId) -> Seq<char> {
    match codec {
        VlCodecId::Unset => "None"@,
        VlCodecId::Vp8 => "Vp8"@,
        VlCodecId::H261 => "H261"@,
        VlCodecId::H263 => "H263"@,
        VlCodecId::H264 => "H264"@,
        VlCodecId::H265 => "H265"@,
    }
}

fn codec_text(codec: VlCodecId) -> (r: String)
    ensures
        r@ == codec_label(codec),
{
    match codec {
        VlCodecId::Unset => owned("None"),
        VlCodecId::Vp8 => owned("Vp8"),
        VlCodecId::H261 => owned("H261"),
        VlCodecId::H263 => owned("H263"),
        VlCodecId::H264 => owned("H264"),
        VlCodecId::H265 => owned("H265"),
    }
}

/// The text of a request that was refused.
pub open spec fn init_failure(q: EncoderRequest, handle: i64) -> Seq<char> {
    "vl_multi_encoder_init failed (handle="@ + signed_decimal(handle as int) + ", codec="@
        + codec_label(q.codec) + ", "@ + signed_decimal(q.width as int) + "x"@ + signed_decimal(
        q.height as int,
    ) + ", fps="@ + signed_decimal(q.fps as int) + ", bitrate_kbps="@ + signed_decimal(
        q.bitrate_kbps as int,
    ) + ", gop="@ + signed_decimal(q.gop as int) + ", gop_pattern="@ + signed_decimal(
        q.gop_pattern as int,
    ) + ", rc_mode="@ + signed_decimal(q.rc_mode as int) + ")"@
}

/// The encoder, once it is set up.
#[derive(Debug)]
pub struct AmlVencEncoder {
    pub width: i32,
    pub height: i32,
    pub codec: VlCodecId,
    pub pending_frame_type: VlFrameType,
}

/// A frame that the encoder gave out.
#[derive(Debug, Clone)]
pub struct AmlEncodedFrame {
    pub data: Vec<u8>,
    pub is_keyframe: bool,
    pub is_delay: bool,
    pub pts_us: i32,
    pub frame_type: i32,
    pub input_frame_num: i32,
}

/// Whether a frame is what the encoder reported.
pub open spec fn is_reported(f: AmlEncodedFrame, meta: EncodingMetadata, out: Seq<u8>) -> bool {
    &&& f.data@ == out.take(meta.encoded_data_length_in_bytes as int)
    &&& f.is_keyframe == meta.is_key_frame
    &&& f.is_delay == (meta.encoded_data_length_in_bytes == 0)
    &&& f.pts_us == meta.timestamp_us
    &&& f.frame_type == meta.frame_type
    &&& f.input_frame_num == meta.input_frame_num
}

/// The text of a failure with the encoder's error number.
pub open spec fn error_text(call: Seq<char>, number: i32) -> Seq<char> {
    call + " failed: err="@ + signed_decimal(number as int)
}

fn error_of(call: &str, number: i32) -> (r: AppError)
    ensures
        r matches AppError::VideoError(m) && m@ == error_text(call@, number),
{
    let mut text = owned(call);
    text.append(" failed: err=");
    append_signed(&mut text, number as i64);
    AppError::VideoError(text)
}

impl AmlVencEncoder {
    /// What an encoder for H.265 is asked to do.
    pub fn new_h265(
        width: i32,
        height: i32,
        fps: i32,
        bitrate_kbps: i32,
        gop: i32,
        gop_pattern: i32,
        rc_mode: i32,
    ) -> (r: EncoderRequest)
        ensures
            r == (EncoderRequest {
                codec: VlCodecId::H265,
                width,
                height,
                fps,
                bitrate_kbps,
                gop,
                gop_pattern,
                rc_mode,
            }),
    {
        EncoderRequest {
            codec: VlCodecId::H265,
            width,
            height,
            fps,
            bitrate_kbps,
            gop,
            gop_pattern,
            rc_mode,
        }
    }

    /// What an encoder for H.264 is asked to do.
    pub fn new_h264(
        width: i32,
        height: i32,
        fps: i32,
        bitrate_kbps: i32,
        gop: i32,
        gop_pattern: i32,
        rc_mode: i32,
    ) -> (r: EncoderRequest)
        ensures
            r == (EncoderRequest {
                codec: VlCodecId::H264,
                width,
                height,
                fps,
                bitrate_kbps,
                gop,
                gop_pattern,
                rc_mode,
            }),
    {
        EncoderRequest {
            codec: VlCodecId::H264,
            width,
            height,
            fps,
            bitrate_kbps,
            gop,
            gop_pattern,
            rc_mode,
        }
    }

    /// Takes up what the library answered to the request for an encoder: its handle, or a
    /// number that says that there is none.
    pub fn new(request: &EncoderRequest, handle: i64) -> (r: Result<Self, AppError>)
        ensures
            r is Ok <==> handle > 0,
            r matches Ok(e) ==> e == (AmlVencEncoder {
                width: request.width,
                height: request.height,
                codec: request.codec,
                pending_frame_type: VlFrameType::Auto,
            }),
            r matches Err(e) ==> (e matches AppError::VideoError(m) && m@ == init_failure(
                *request,
                handle,
            )),
    {
        if handle <= 0 {
            let mut text = owned("vl_multi_encoder_init failed (handle=");
            append_signed(&mut text, handle);
            text.append(", codec=");
            text.append(codec_text(request.codec).as_str());
            text.append(", ");
            append_signed(&mut text, request.width as i64);
            text.append("x");
            append_signed(&mut text, request.height as i64);
            text.append(", fps=");
            append_signed(&mut text, request.fps as i64);
            text.append(", bitrate_kbps=");
            append_signed(&mut text, request.bitrate_kbps as i64);
            text.append(", gop=");
            append_signed(&mut text, request.gop as i64);
            text.append(", gop_pattern=");
            append_signed(&mut text, request.gop_pattern as i64);
            text.append(", rc_mode=");
            append_signed(&mut text, request.rc_mode as i64);
            text.append(")");
            return Err(AppError::VideoError(text));
        }
        Ok(
            AmlVencEncoder {
                width: request.width,
                height: request.height,
                codec: request.codec,
                pending_frame_type: VlFrameType::Auto,
            },
        )
    }

    /// The kind of frame to ask for next; a request for a key frame is served once.
    pub fn take_frame_type(&mut self) -> (r: VlFrameType)
        ensures
            r == old(self).pending_frame_type,
            *final(self) == (AmlVencEncoder {
                pending_frame_type: VlFrameType::Auto,
                ..*old(self)
            }),
    {
        let kind = self.pending_frame_type;
        self.pending_frame_type = VlFrameType::Auto;
        kind
    }

    /// Asks for a key frame next.
    pub fn request_keyframe(&mut self)
        ensures
            *final(self) == (AmlVencEncoder { pending_frame_type: VlFrameType::Idr, ..*old(self) }),
    {
        self.pending_frame_type = VlFrameType::Idr;
    }

    /// The width of the pictures.
    pub fn width(&self) -> (r: i32)
        ensures
            r == self.width,
    {
        self.width
    }

    /// The height of the pictures.
    pub fn height(&self) -> (r: i32)
        ensures
            r == self.height,
    {
        self.height
    }

    /// The codec.
    pub fn codec(&self) -> (r: VlCodecId)
        ensures
            r == self.codec,
    {
        self.codec
    }
}

/// Takes up the encoder's answer to the request for the headers of a stream, with the buffer
/// that it wrote into.
pub fn stream_header(meta: &EncodingMetadata, buffer: Vec<u8>, header_len: u32) -> (r: Result<
    Vec<u8>,
    AppError,
>)
    ensures
        r is Ok <==> meta.is_valid,
        r matches Ok(v) ==> v@ == (if header_len <= buffer@.len() {
            buffer@.take(header_len as int)
        } else {
            buffer@
        }),
        r matches Err(e) ==> (e matches AppError::VideoError(m) && m@ == error_text(
            "vl_multi_encoder_generate_header"@,
            meta.err_cod,
        )),
{
    if !meta.is_valid {
        return Err(error_of("vl_multi_encoder_generate_header", meta.err_cod));
    }
    let mut header = buffer;
    if (header_len as usize) < header.len() {
        header.truncate(header_len as usize);
    }
    assert(header_len == buffer@.len() ==> buffer@.take(header_len as int) == buffer@);
    Ok(header)
}

/// Takes up the encoder's answer to a frame, with the buffer that it wrote into.
pub fn encoded_frame(meta: &EncodingMetadata, out: &[u8], call: &str) -> (r: Result<
    AmlEncodedFrame,
    AppError,
>)
    requires
        meta.is_valid ==> 0 <= meta.encoded_data_length_in_bytes <= out@.len(),
    ensures
        r is Ok <==> meta.is_valid,
        r matches Ok(f) ==> is_reported(f, *meta, out@),
        r matches Err(e) ==> (e matches AppError::VideoError(m) && m@ == error_text(
            call@,
            meta.err_cod,
        )),
{
    if !meta.is_valid {
        return Err(error_of(call, meta.err_cod));
    }
    let len: usize = meta.encoded_data_length_in_bytes as usize;
    let data = slice_to_vec(slice_subrange(out, 0, len));
    assert(data@ == out@.take(len as int));
    Ok(
        AmlEncodedFrame {
            data,
            is_keyframe: meta.is_key_frame,
            is_delay: len == 0,
            pts_us: meta.timestamp_us,
            frame_type: meta.frame_type,
            input_frame_num: meta.input_frame_num,
        },
    )
}

/// Takes up the encoder's answer to a change of its settings.
pub fn setting_changed(call: &str, rc: i32) -> (r: Result<(), AppError>)
    ensures
        r is Ok <==> rc >= 0,
        r matches Err(e) ==> (e matches AppError::VideoError(m) && m@ == call@
            + " failed (rc="@ + signed_decimal(rc as int) + ")"@),
{
    if rc < 0 {
        let mut text = owned(call);
        text.append(" failed (rc=");
        append_signed(&mut text, rc as i64);
        text.append(")");
        Err(AppError::VideoError(text))
    } else {
        Ok(())
    }
}

// ---------------------------------------------------------------- laws

/// An encoder is set up for what was asked: the codec, the size, the frame rate of at least one,
/// the bit rate in bits, held within what fits, and the group of pictures; it takes eight-bit
/// NV12, repeats the parameter sets at every key frame, and may use all quantizers.
pub proof fn an_encoder_is_set_up_as_asked(q: EncoderRequest)
    ensures
        ({
            let s = encoder_setup(q);
            &&& s.codec == q.codec
            &&& s.width == q.width && s.height == q.height
            &&& q.fps >= 1 ==> s.frame_rate == q.fps
            &&& q.fps < 1 ==> s.frame_rate == 1
            &&& -2_147_483 <= q.bitrate_kbps <= 2_147_483 ==> s.bit_rate == q.bitrate_kbps * 1000
            &&& q.bitrate_kbps > 2_147_483 ==> s.bit_rate == i32::MAX
            &&& q.bitrate_kbps < -2_147_483 ==> s.bit_rate == i32::MIN
            &&& s.gop == q.gop && s.gop_pattern == q.gop_pattern && s.rc_mode == q.rc_mode
            &&& s.prepend_spspps_to_idr_frames
            &&& s.img_format == VlImgFormat::Nv12 && s.internal_bit_depth == 8
            &&& s.enc_feature_opts == 1
            &&& s.qp_min == 0 && s.qp_max == 51 && s.qp_base == 30
        }),
{
}

/// A larger picture never gets a smaller buffer: four megabytes from 3840 by 2160 on, two from
/// 1920 by 1080 on, one below.
pub proof fn the_buffer_grows_with_the_picture(
    width: i32,
    height: i32,
    wider: i32,
    higher: i32,
)
    requires
        0 < width <= wider,
        0 < height <= higher,
    ensures
        bitstream_buf_kb(width, height) <= bitstream_buf_kb(wider, higher),
        bitstream_buf_kb(3840, 2160) == 4096,
        bitstream_buf_kb(1920, 1080) == 2048,
        width * height < 1920 * 1080 ==> bitstream_buf_kb(width, height) == 1024,
        width * height >= 1920 * 1080 && width * height < 3840 * 2160 ==> bitstream_buf_kb(
            width,
            height,
        ) == 2048,
        width * height >= 3840 * 2160 ==> bitstream_buf_kb(width, height) == 4096,
{
    assert(width * height <= wider * higher) by (nonlinear_arith)
        requires
            0 < width <= wider,
            0 < height <= higher,
    ;
}

/// What the encoder gave out is what it reports: so many bytes of its buffer as it states, its
/// mark of a key frame, its time and its numbers; a frame without bytes is one that is held back.
pub proof fn an_encoded_frame_is_the_encoders(
    meta: EncodingMetadata,
    out: &[u8],
    call: &str,
    r: Result<AmlEncodedFrame, AppError>,
)
    requires
        call_ensures(encoded_frame, (&meta, out, call), r),
        meta.is_valid ==> 0 <= meta.encoded_data_length_in_bytes <= out@.len(),
    ensures
        r is Ok <==> meta.is_valid,
        r matches Ok(f) ==> {
            &&& f.data@.len() == meta.encoded_data_length_in_bytes
            &&& forall|i: int| 0 <= i < f.data@.len() ==> f.data@[i] == #[trigger] out@[i]
            &&& f.is_keyframe == meta.is_key_frame
            &&& f.is_delay <==> f.data@.len() == 0
            &&& f.pts_us == meta.timestamp_us
            &&& f.frame_type == meta.frame_type
            &&& f.input_frame_num == meta.input_frame_num
        },
{
}

/// The headers of a stream are the front of the buffer that the encoder wrote, as far as it wrote.
pub proof fn the_headers_are_the_front_of_the_buffer(
    meta: EncodingMetadata,
    buffer: Vec<u8>,
    header_len: u32,
    r: Result<Vec<u8>, AppError>,
)
    requires
        call_ensures(stream_header, (&meta, buffer, header_len), r),
    ensures
        r is Ok <==> meta.is_valid,
        r matches Ok(v) ==> v@.is_prefix_of(buffer@) && (header_len <= buffer@.len() ==> v@.len()
            == header_len) && (header_len > buffer@.len() ==> v@.len() == buffer@.len()),
{
}

/// The two requests differ in their codec alone.
pub proof fn the_two_requests_differ_in_the_codec(
    width: i32,
    height: i32,
    fps: i32,
    kbps: i32,
    gop: i32,
    pattern: i32,
    rc: i32,
    a: EncoderRequest,
    b: EncoderRequest,
)
    requires
        call_ensures(AmlVencEncoder::new_h265, (width, height, fps, kbps, gop, pattern, rc), a),
        call_ensures(AmlVencEncoder::new_h264, (width, height, fps, kbps, gop, pattern, rc), b),
    ensures
        a.codec == VlCodecId::H265 && b.codec == VlCodecId::H264,
        a == (EncoderRequest { codec: a.codec, ..b }),
        a.width == width && a.height == height && a.fps == fps && a.bitrate_kbps == kbps && a.gop
            == gop && a.gop_pattern == pattern && a.rc_mode == rc,
{
}

/// An encoder is there where the library gave a handle above zero, and is then the one that was
/// asked for; it picks the kind of its frames itself until it is asked for a key frame.
pub proof fn an_encoder_needs_a_handle(
    q: EncoderRequest,
    handle: i64,
    r: Result<AmlVencEncoder, AppError>,
    call: &str,
    rc: i32,
    s: Result<(), AppError>,
)
    ensures
        call_ensures(AmlVencEncoder::new, (&q, handle), r) ==> (r is Ok <==> handle > 0) && (
        r matches Ok(e) ==> e.width == q.width && e.height == q.height && e.codec == q.codec
            && e.pending_frame_type == VlFrameType::Auto),
        call_ensures(setting_changed, (call, rc), s) ==> (s is Ok <==> rc >= 0),
{
}

/// An encoder that could not be set up is told with everything that was asked for, each number
/// behind its name.
pub proof fn a_refusal_tells_the_request(q: EncoderRequest, handle: i64)
    ensures
        init_failure(q, handle) == "vl_multi_encoder_init failed (handle="@ + signed_decimal(
            handle as int,
        ) + ", codec="@ + codec_label(q.codec) + ", "@ + signed_decimal(q.width as int) + "x"@
            + signed_decimal(q.height as int) + ", fps="@ + signed_decimal(q.fps as int)
            + ", bitrate_kbps="@ + signed_decimal(q.bitrate_kbps as int) + ", gop="@
            + signed_decimal(q.gop as int) + ", gop_pattern="@ + signed_decimal(
            q.gop_pattern as int,
        ) + ", rc_mode="@ + signed_decimal(q.rc_mode as int) + ")"@,
        q.codec == VlCodecId::H264 ==> codec_label(q.codec) == "H264"@,
        q.codec == VlCodecId::H265 ==> codec_label(q.codec) == "H265"@,
        q.codec == VlCodecId::Vp8 ==> codec_label(q.codec) == "Vp8"@,
        q.codec == VlCodecId::H261 ==> codec_label(q.codec) == "H261"@,
        q.codec == VlCodecId::H263 ==> codec_label(q.codec) == "H263"@,
        q.codec == VlCodecId::Unset ==> codec_label(q.codec) == "None"@,
{
}

/// The buffers that the encoder writes to: four kilobytes for headers, eight megabytes for a
/// frame.
pub proof fn the_buffers_of_the_encoder()
    ensures
        HEADER_BUF_SIZE == 4 * 1024,
        BITSTREAM_BUF_SIZE == 8 * 1024 * 1024,
{
}

/// The encoder's own buffer is sized by the picture that was asked for.
pub proof fn the_buffer_is_sized_by_the_picture(q: EncoderRequest)
    requires
        q.width > 0,
        q.height > 0,
    ensures
        q.width * q.height >= 3840 * 2160 ==> encoder_setup(q).bitstream_buf_sz_kb == 4096,
        1920 * 1080 <= q.width * q.height < 3840 * 2160 ==> encoder_setup(q).bitstream_buf_sz_kb
            == 2048,
        q.width * q.height < 1920 * 1080 ==> encoder_setup(q).bitstream_buf_sz_kb == 1024,
{
    the_buffer_grows_with_the_picture(q.width, q.height, q.width, q.height);
}

} // verus!
