//! The RTSP service of a streaming session.
use crate::sunshine::launch::{GameStreamLaunchSession, NetAddr};
use crate::text::{
    append_decimal, contains, cut, decimal, has_prefix, has_text, lines, lossy_text, lower, owned,
    parse_unsigned, read_lossy, read_unsigned, read_utf8, same, split, split_at_char, split_once,
    starts_with, str_chars, str_same, string_of, text_lines, text_words, to_lower, to_upper, trim,
    trimmed, upper, utf8_decoded, views, words,
};
use crate::text_map::TextMap;
use crate::types::{AppError, RtspCodec};
use vstd::prelude::*;
use vstd::slice::slice_subrange;
use vstd::string::StringExecFns;
use vstd::utf8::*;

verus! {

/// The port of the video stream.
pub const GAMESTREAM_VIDEO_PORT: u16 = 47998;

/// The port of the control stream.
pub const GAMESTREAM_CONTROL_PORT: u16 = 47999;

/// The port of the audio stream.
pub const GAMESTREAM_AUDIO_PORT: u16 = 48000;

/// The session name that the service gives out.
pub const GAMESTREAM_SESSION_ID: &'static str = "DEADBEEFCAFE";

/// The size of the header that every video packet carries inside.
pub const GAMESTREAM_VIDEO_PACKET_HEADER_SIZE: usize = 16;

/// The most bytes that may wait to be read as a request.
pub const RTSP_MAX_PENDING: usize = 262144;

// ---------------------------------------------------------------- framing

/// Whether the blank line that ends a request's head stands at a position.
pub open spec fn blank_line_at(buffer: Seq<u8>, i: int) -> bool {
    &&& 0 <= i
    &&& i + 4 <= buffer.len()
    &&& buffer[i] == 13
    &&& buffer[i + 1] == 10
    &&& buffer[i + 2] == 13
    &&& buffer[i + 3] == 10
}

/// Where the head of a request ends that starts at the front: behind the first blank line from a
/// position on.
pub open spec fn head_end_from(buffer: Seq<u8>, i: int) -> Option<nat>
    decreases buffer.len() - i,
{
    if i + 4 > buffer.len() {
        None
    } else if blank_line_at(buffer, i) {
        Some((i + 4) as nat)
    } else {
        head_end_from(buffer, i + 1)
    }
}

/// Where the head of a request ends, behind its blank line.
pub open spec fn head_end(buffer: Seq<u8>) -> Option<nat> {
    head_end_from(buffer, 0)
}

/// Finds the end of a request's head.
pub fn find_head_end(buffer: &[u8]) -> (r: Option<usize>)
    ensures
        match r {
            Some(n) => head_end(buffer@) == Some(n as nat) && 4 <= n <= buffer@.len()
                && blank_line_at(buffer@, n - 4),
            None => head_end(buffer@) is None,
        },
{
    let n: usize = buffer.len();
    if n < 4 {
        return None;
    }
    let last: usize = n - 4;
    let mut i: usize = 0;
    while i <= last
        invariant
            n == buffer@.len(),
            last == n - 4,
            i <= last + 1,
            head_end(buffer@) == head_end_from(buffer@, i as int),
        decreases n - i,
    {
        if buffer[i] == 13 && buffer[i + 1] == 10 && buffer[i + 2] == 13 && buffer[i + 3] == 10 {
            return Some(i + 4);
        }
        i = i + 1;
    }
    None
}

/// The length that a header line gives for the body, if it gives one.
pub open spec fn line_content_length(line: Seq<char>) -> Option<nat> {
    match split_once(line, ':') {
        Some((name, value)) => if lower(name) == "content-length"@ {
            parse_unsigned(trim(value), usize::MAX as nat)
        } else {
            None
        },
        None => None,
    }
}

/// The length of the body: that of the first line that gives one, or zero.
pub open spec fn content_length(head: Seq<Seq<char>>) -> nat
    decreases head.len(),
{
    if head.len() == 0 {
        0
    } else {
        match line_content_length(head[0]) {
            Some(n) => n,
            None => content_length(head.skip(1)),
        }
    }
}

fn read_line_content_length(line: &[char]) -> (r: Option<usize>)
    ensures
        match r {
            Some(n) => line_content_length(line@) == Some(n as nat),
            None => line_content_length(line@) is None,
        },
{
    match cut(line, ':') {
        Some((name, value)) => {
            let lowered = to_lower(name);
            let wanted = str_chars("content-length");
            if same(lowered.as_slice(), wanted.as_slice()) {
                match read_unsigned(trimmed(value), usize::MAX as u64) {
                    Some(n) => Some(n as usize),
                    None => None,
                }
            } else {
                None
            }
        },
        None => None,
    }
}

/// Where the head of a request ends and how long its body is, once the head is there and is
/// UTF-8.
pub open spec fn message_bounds(buffer: Seq<u8>) -> Option<(nat, nat)> {
    match head_end(buffer) {
        Some(end) => match utf8_decoded(buffer.take(end as int)) {
            Some(head) => Some((end, content_length(lines(head)))),
            None => None,
        },
        None => None,
    }
}

/// Finds the bounds of the request at the front of a buffer.
pub fn rtsp_message_bounds(buffer: &[u8]) -> (r: Option<(usize, usize)>)
    ensures
        match r {
            Some((end, len)) => message_bounds(buffer@) == Some((end as nat, len as nat)) && end
                <= buffer@.len(),
            None => message_bounds(buffer@) is None,
        },
{
    let end: usize = match find_head_end(buffer) {
        Some(n) => n,
        None => {
            return None;
        },
    };
    let head = slice_subrange(buffer, 0, end);
    assert(head@ == buffer@.take(end as int));
    let text = match read_utf8(head) {
        Some(t) => t,
        None => {
            return None;
        },
    };
    let chars = str_chars(text);
    let rows = text_lines(chars.as_slice());
    let ghost all = views(rows@);
    let mut i: usize = 0;
    assert(all.skip(0) == all);
    while i < rows.len()
        invariant
            i <= rows@.len(),
            all == views(rows@),
            content_length(all) == content_length(all.skip(i as int)),
            message_bounds(buffer@) == Some((end as nat, content_length(all))),
            end <= buffer@.len(),
        decreases rows.len() - i,
    {
        assert(all.skip(i as int)[0] == rows@[i as int]@);
        assert(all.skip(i as int).skip(1) == all.skip(i + 1));
        match read_line_content_length(rows[i]) {
            Some(n) => {
                return Some((end, n));
            },
            None => {},
        }
        i = i + 1;
    }
    Some((end, 0))
}

/// Whether a whole request stands at the front of a buffer.
pub open spec fn message_is_complete(buffer: Seq<u8>) -> bool {
    match message_bounds(buffer) {
        Some((end, len)) => end + len <= buffer.len(),
        None => false,
    }
}

/// Takes the request at the front of a buffer out, once it is whole.
pub fn take_rtsp_message(buffer: &mut Vec<u8>) -> (r: Option<Vec<u8>>)
    ensures
        r is Some <==> message_is_complete(old(buffer)@),
        match r {
            Some(message) => {
                &&& message@ + final(buffer)@ == old(buffer)@
                &&& message_bounds(old(buffer)@) matches Some((end, len)) && message@.len() == end
                    + len
            },
            None => final(buffer)@ == old(buffer)@,
        },
{
    let ghost start = buffer@;
    match rtsp_message_bounds(buffer.as_slice()) {
        Some((end, len)) => {
            if buffer.len() - end >= len {
                let total: usize = end + len;
                let rest = buffer.split_off(total);
                let mut message = rest;
                std::mem::swap(&mut message, buffer);
                assert(message@ + buffer@ == start);
                Some(message)
            } else {
                None
            }
        },
        None => None,
    }
}

/// Adds what was read from the connection to a buffer. `Ok(false)` says that the connection has
/// ended; too much unread input is refused.
pub fn receive_rtsp_bytes(buffer: &mut Vec<u8>, read: &[u8]) -> (r: Result<bool, AppError>)
    ensures
        final(buffer)@ == old(buffer)@ + read@,
        match r {
            Ok(open) => open == (read@.len() > 0) && (open ==> final(buffer)@.len()
                <= RTSP_MAX_PENDING),
            Err(e) => read@.len() > 0 && final(buffer)@.len() > RTSP_MAX_PENDING && (
            e matches AppError::BadRequest(m) && m@ == "GameStream RTSP request too large"@),
        },
{
    if read.len() == 0 {
        assert(buffer@ + read@ == buffer@);
        return Ok(false);
    }
    buffer.extend_from_slice(read);
    if buffer.len() > RTSP_MAX_PENDING {
        return Err(AppError::bad_request("GameStream RTSP request too large"));
    }
    Ok(true)
}

// ---------------------------------------------------------------- requests

/// An RTSP request.
#[derive(Debug)]
pub struct GameStreamRtspRequest {
    pub method: String,
    pub uri: String,
    pub cseq: String,
    pub headers: TextMap<String>,
    pub body: Vec<u8>,
}

/// What the keys of a map with text values map to.
pub open spec fn texts(m: Map<Seq<char>, String>) -> Map<Seq<char>, Seq<char>> {
    m.map_values(|s: String| s@)
}

/// The headers that lines write: names in lower case, the last line of a name counts, lines
/// without a colon do not.
pub open spec fn headers_of(rows: Seq<Seq<char>>) -> Map<Seq<char>, Seq<char>>
    decreases rows.len(),
{
    if rows.len() == 0 {
        Map::empty()
    } else {
        let before = headers_of(rows.drop_last());
        match split_once(rows.last(), ':') {
            Some((name, value)) => before.insert(lower(trim(name)), trim(value)),
            None => before,
        }
    }
}

/// A request as its text form gives it.
pub open spec fn is_request(r: GameStreamRtspRequest, raw: Seq<u8>) -> bool {
    &&& head_end(raw) matches Some(end) && utf8_decoded(raw.take(end as int)) matches Some(head)
        && {
        let rows = lines(head);
        let parts = words(rows[0]);
        &&& rows.len() > 0
        &&& parts.len() >= 2
        &&& r.method@ == upper(parts[0])
        &&& r.uri@ == parts[1]
        &&& texts(r.headers@) == headers_of(rows.skip(1))
        &&& r.cseq@ == (if r.headers@.contains_key("cseq"@) {
            r.headers@["cseq"@]@
        } else {
            "1"@
        })
        &&& r.body@ == raw.skip(end as int)
    }
}

/// Whether bytes are a request: a head in UTF-8 whose first line has two words.
pub open spec fn request_parses(raw: Seq<u8>) -> bool {
    head_end(raw) matches Some(end) && utf8_decoded(raw.take(end as int)) matches Some(head)
        && lines(head).len() > 0 && words(lines(head)[0]).len() >= 2
}

fn read_headers(rows: &Vec<&[char]>) -> (r: TextMap<String>)
    requires
        rows@.len() > 0,
    ensures
        texts(r@) == headers_of(views(rows@).skip(1)),
{
    let mut headers: TextMap<String> = TextMap::new();
    let ghost all = views(rows@).skip(1);
    let mut i: usize = 1;
    assert(all.take(0) == Seq::<Seq<char>>::empty());
    assert(texts(headers@) =~= headers_of(all.take(0)));
    while i < rows.len()
        invariant
            1 <= i <= rows@.len(),
            all == views(rows@).skip(1),
            texts(headers@) == headers_of(all.take(i - 1)),
        decreases rows.len() - i,
    {
        let line = rows[i];
        let ghost before = headers@;
        assert(all[i - 1] == line@);
        assert(all.take(i as int).drop_last() == all.take(i - 1));
        assert(all.take(i as int).last() == line@);
        if let Some((name, value)) = cut(line, ':') {
            let key = string_of(to_lower(trimmed(name)).as_slice());
            let text = string_of(trimmed(value));
            let ghost (k, v) = (key@, text);
            headers.insert(key, text);
            assert(texts(before.insert(k, v)) =~= texts(before).insert(k, v@));
        }
        i = i + 1;
    }
    assert(all.take(i - 1) == all);
    headers
}

/// Reads a request.
pub fn parse_gamestream_rtsp_request(raw: &[u8]) -> (r: Option<GameStreamRtspRequest>)
    ensures
        r is Some <==> request_parses(raw@),
        match r {
            Some(request) => is_request(request, raw@),
            None => true,
        },
{
    let end: usize = match find_head_end(raw) {
        Some(n) => n,
        None => {
            return None;
        },
    };
    let head = slice_subrange(raw, 0, end);
    assert(head@ == raw@.take(end as int));
    let text = match read_utf8(head) {
        Some(t) => t,
        None => {
            return None;
        },
    };
    let chars = str_chars(text);
    let rows = text_lines(chars.as_slice());
    assert(views(rows@).len() == rows@.len());
    if rows.len() == 0 {
        return None;
    }
    assert(views(rows@)[0] == rows@[0]@);
    let parts = text_words(rows[0]);
    assert(views(parts@).len() == parts@.len());
    if parts.len() < 2 {
        return None;
    }
    assert(views(parts@)[0] == parts@[0]@);
    assert(views(parts@)[1] == parts@[1]@);
    let headers = read_headers(&rows);
    let cseq = match headers.get("cseq") {
        Some(v) => v.clone(),
        None => owned("1"),
    };
    let body = slice_subrange(raw, end, raw.len());
    assert(body@ == raw@.skip(end as int));
    Some(
        GameStreamRtspRequest {
            method: string_of(to_upper(parts[0]).as_slice()),
            uri: string_of(parts[1]),
            cseq,
            headers,
            body: vstd::slice::slice_to_vec(body),
        },
    )
}

// ---------------------------------------------------------------- responses

/// Header lines of a response.
pub open spec fn header_text(headers: Seq<(String, String)>) -> Seq<char>
    decreases headers.len(),
{
    if headers.len() == 0 {
        Seq::empty()
    } else {
        header_text(headers.drop_last()) + headers.last().0@ + ": "@ + headers.last().1@ + "\r\n"@
    }
}

/// A successful response. Its length header counts the bytes of the body.
pub open spec fn response_text(
    cseq: Seq<char>,
    headers: Seq<(String, String)>,
    body: Seq<char>,
) -> Seq<char> {
    "RTSP/1.0 200 OK\r\nCSeq: "@ + cseq + "\r\n"@ + header_text(headers) + "Content-Length: "@
        + decimal(encode_utf8(body).len()) + "\r\n"@ + "\r\n"@ + body
}

/// Writes a successful response.
pub fn rtsp_response(cseq: &str, headers: &Vec<(String, String)>, body: &str) -> (r: String)
    ensures
        r@ == response_text(cseq@, headers@, body@),
{
    let mut out = owned("RTSP/1.0 200 OK\r\nCSeq: ");
    out.append(cseq);
    out.append("\r\n");
    let ghost start = out@;
    let mut i: usize = 0;
    assert(headers@.take(0) == Seq::<(String, String)>::empty());
    assert(start + Seq::<char>::empty() == start);
    while i < headers.len()
        invariant
            i <= headers@.len(),
            out@ == start + header_text(headers@.take(i as int)),
        decreases headers.len() - i,
    {
        let ghost before = header_text(headers@.take(i as int));
        out.append(headers[i].0.as_str());
        out.append(": ");
        out.append(headers[i].1.as_str());
        out.append("\r\n");
        assert(headers@.take(i + 1).drop_last() == headers@.take(i as int));
        assert(out@ == start + (before + headers@[i as int].0@ + ": "@ + headers@[i as int].1@
            + "\r\n"@));
        i = i + 1;
    }
    assert(headers@.take(i as int) == headers@);
    out.append("Content-Length: ");
    let body_bytes = body.as_bytes();
    append_decimal(&mut out, body_bytes.len() as u64);
    out.append("\r\n");
    out.append("\r\n");
    out.append(body);
    out
}

/// The numbers and names that a session description gives.
pub open spec fn sdp_text(width: nat, height: nat, fps: nat, codec: RtspCodec) -> Seq<char> {
    let payload_type: Seq<char> = decimal(
        match codec {
            RtspCodec::H264 => 96,
            RtspCodec::H265 => 99,
        },
    );
    "v=0\r\no=One-KVM 0 0 IN IP4 127.0.0.1\r\ns=One-KVM HDMI Input\r\nt=0 0\r\na=x-ss-general.featureFlags:135\r\na=x-ss-general.encryptionSupported:0\r\na=x-ss-general.encryptionRequested:0\r\n"@
        + (match codec {
        RtspCodec::H264 => Seq::<char>::empty(),
        RtspCodec::H265 => "sprop-parameter-sets=AAAAAU\r\n"@,
    }) + "a=x-nv-video[0].clientViewportWd:"@ + decimal(width)
        + "\r\na=x-nv-video[0].clientViewportHt:"@ + decimal(height)
        + "\r\na=x-nv-video[0].maxFPS:"@ + decimal(fps) + "\r\nm=video "@ + decimal(
        GAMESTREAM_VIDEO_PORT as nat,
    ) + " RTP/AVP "@ + payload_type + "\r\na=rtpmap:"@ + payload_type + " "@ + (match codec {
        RtspCodec::H264 => "H264"@,
        RtspCodec::H265 => "H265"@,
    }) + "/90000\r\na=control:streamid=video\r\nm=audio "@ + decimal(GAMESTREAM_AUDIO_PORT as nat)
        + " RTP/AVP 97\r\na=rtpmap:97 OPUS/48000/2\r\na=control:streamid=audio\r\nm=application "@
        + decimal(GAMESTREAM_CONTROL_PORT as nat) + " udp 0\r\na=control:streamid=control\r\n"@
}

/// The description of a session, or of the default one where none was launched.
pub open spec fn session_sdp(
    session: Option<GameStreamLaunchSession>,
    codec: RtspCodec,
) -> Seq<char> {
    match session {
        Some(s) => sdp_text(s.width as nat, s.height as nat, s.fps as nat, s.codec),
        None => sdp_text(1920, 1080, 60, codec),
    }
}

/// Describes the session.
pub fn build_gamestream_sdp(session: &Option<GameStreamLaunchSession>, codec: RtspCodec) -> (r:
    String)
    ensures
        r@ == session_sdp(*session, codec),
{
    let (width, height, fps, codec): (u32, u32, u32, RtspCodec) = match session {
        Some(s) => (s.width, s.height, s.fps, s.codec),
        None => (1920, 1080, 60, codec),
    };
    let payload_type: u64 = match codec {
        RtspCodec::H264 => 96,
        RtspCodec::H265 => 99,
    };
    let mut out = owned(
        "v=0\r\no=One-KVM 0 0 IN IP4 127.0.0.1\r\ns=One-KVM HDMI Input\r\nt=0 0\r\na=x-ss-general.featureFlags:135\r\na=x-ss-general.encryptionSupported:0\r\na=x-ss-general.encryptionRequested:0\r\n",
    );
    let ghost intro = out@;
    if codec == RtspCodec::H265 {
        out.append("sprop-parameter-sets=AAAAAU\r\n");
    }
    assert(intro + Seq::<char>::empty() == intro);
    out.append("a=x-nv-video[0].clientViewportWd:");
    append_decimal(&mut out, width as u64);
    out.append("\r\na=x-nv-video[0].clientViewportHt:");
    append_decimal(&mut out, height as u64);
    out.append("\r\na=x-nv-video[0].maxFPS:");
    append_decimal(&mut out, fps as u64);
    out.append("\r\nm=video ");
    append_decimal(&mut out, GAMESTREAM_VIDEO_PORT as u64);
    out.append(" RTP/AVP ");
    append_decimal(&mut out, payload_type);
    out.append("\r\na=rtpmap:");
    append_decimal(&mut out, payload_type);
    out.append(" ");
    match codec {
        RtspCodec::H264 => out.append("H264"),
        RtspCodec::H265 => out.append("H265"),
    }
    out.append("/90000\r\na=control:streamid=video\r\nm=audio ");
    append_decimal(&mut out, GAMESTREAM_AUDIO_PORT as u64);
    out.append(
        " RTP/AVP 97\r\na=rtpmap:97 OPUS/48000/2\r\na=control:streamid=audio\r\nm=application ",
    );
    append_decimal(&mut out, GAMESTREAM_CONTROL_PORT as u64);
    out.append(" udp 0\r\na=control:streamid=control\r\n");
    out
}

// ---------------------------------------------------------------- ANNOUNCE

/// The value of the first line of a description that gives an attribute.
pub open spec fn first_attr(rows: Seq<Seq<char>>, prefix: Seq<char>) -> Option<Seq<char>>
    decreases rows.len(),
{
    if rows.len() == 0 {
        None
    } else if starts_with(rows[0], prefix) {
        Some(rows[0].skip(prefix.len() as int))
    } else {
        first_attr(rows.skip(1), prefix)
    }
}

/// The number that a description's attribute writes.
pub open spec fn sdp_attr(body: Seq<char>, name: Seq<char>) -> Option<nat> {
    match first_attr(lines(body), "a="@ + name + ":"@) {
        Some(value) => parse_unsigned(trim(value), usize::MAX as nat),
        None => None,
    }
}

/// Reads a number out of a description.
pub fn parse_sdp_usize_attr(body: &str, name: &str) -> (r: Option<usize>)
    ensures
        match r {
            Some(n) => sdp_attr(body@, name@) == Some(n as nat),
            None => sdp_attr(body@, name@) is None,
        },
{
    let mut prefix_text = owned("a=");
    prefix_text.append(name);
    prefix_text.append(":");
    let prefix = str_chars(prefix_text.as_str());
    let chars = str_chars(body);
    let rows = text_lines(chars.as_slice());
    let ghost all = views(rows@);
    let mut i: usize = 0;
    assert(all.skip(0) == all);
    while i < rows.len()
        invariant
            i <= rows@.len(),
            all == views(rows@),
            all == lines(body@),
            prefix@ == "a="@ + name@ + ":"@,
            first_attr(all, prefix@) == first_attr(all.skip(i as int), prefix@),
        decreases rows.len() - i,
    {
        let row = rows[i];
        assert(all.skip(i as int)[0] == row@);
        assert(all.skip(i as int).skip(1) == all.skip(i + 1));
        if has_prefix(row, prefix.as_slice()) {
            let value = slice_subrange(row, prefix.len(), row.len());
            assert(value@ == row@.skip(prefix@.len() as int));
            return match read_unsigned(trimmed(value), usize::MAX as u64) {
                Some(n) => Some(n as usize),
                None => None,
            };
        }
        i = i + 1;
    }
    None
}

/// The packet size that a client announces, where it leaves room for a payload.
pub open spec fn announced_packet_size(body: Seq<u8>) -> Option<nat> {
    match sdp_attr(lossy_text(body), "x-nv-video[0].packetSize"@) {
        Some(n) => if n > GAMESTREAM_VIDEO_PACKET_HEADER_SIZE {
            Some(n)
        } else {
            None
        },
        None => None,
    }
}

/// The packet size that the text of an announcement gives, where it leaves room for a payload.
pub fn packet_size_of(announce: &str) -> (r: Option<usize>)
    ensures
        match r {
            Some(n) => sdp_attr(announce@, "x-nv-video[0].packetSize"@) == Some(n as nat) && n
                > GAMESTREAM_VIDEO_PACKET_HEADER_SIZE,
            None => match sdp_attr(announce@, "x-nv-video[0].packetSize"@) {
                Some(n) => n <= GAMESTREAM_VIDEO_PACKET_HEADER_SIZE,
                None => true,
            },
        },
{
    match parse_sdp_usize_attr(announce, "x-nv-video[0].packetSize") {
        Some(n) => if n > GAMESTREAM_VIDEO_PACKET_HEADER_SIZE {
            Some(n)
        } else {
            None
        },
        None => None,
    }
}

// ---------------------------------------------------------------- SETUP

/// The streams of a session.
#[derive(Debug, Clone, Copy, PartialEq, Eq, Structural)]
pub enum StreamKind {
    Audio,
    Control,
    Video,
}

/// The stream that an address names: the one whose name stands in it, or the video.
pub open spec fn setup_kind(uri: Seq<char>) -> StreamKind {
    if contains(lower(uri), "audio"@) {
        StreamKind::Audio
    } else if contains(lower(uri), "control"@) {
        StreamKind::Control
    } else {
        StreamKind::Video
    }
}

/// Tells which stream an address names.
pub fn gamestream_setup_kind(uri: &str) -> (r: StreamKind)
    ensures
        r == setup_kind(uri@),
{
    let chars = str_chars(uri);
    let lowered = to_lower(chars.as_slice());
    let audio = str_chars("audio");
    let control = str_chars("control");
    if has_text(lowered.as_slice(), audio.as_slice()) {
        StreamKind::Audio
    } else if has_text(lowered.as_slice(), control.as_slice()) {
        StreamKind::Control
    } else {
        StreamKind::Video
    }
}

/// The port that one part of a transport header names for the client.
pub open spec fn part_port(part: Seq<char>) -> Option<nat> {
    match split_once(trim(part), '=') {
        Some((name, value)) => if lower(trim(name)) == "client_port"@ || lower(trim(name))
            == "x-gs-clientport"@ {
            parse_unsigned(split(value, '-')[0], u16::MAX as nat)
        } else {
            None
        },
        None => None,
    }
}

/// The first port that the parts of a transport header name.
pub open spec fn first_port(parts: Seq<Seq<char>>) -> Option<nat>
    decreases parts.len(),
{
    if parts.len() == 0 {
        None
    } else {
        match part_port(parts[0]) {
            Some(n) => Some(n),
            None => first_port(parts.skip(1)),
        }
    }
}

/// The port that a transport header names for the client.
pub open spec fn client_port(transport: Seq<char>) -> Option<nat> {
    first_port(split(transport, ';'))
}

fn read_part_port(part: &[char]) -> (r: Option<u16>)
    ensures
        match r {
            Some(n) => part_port(part@) == Some(n as nat),
            None => part_port(part@) is None,
        },
{
    match cut(trimmed(part), '=') {
        Some((name, value)) => {
            let lowered = to_lower(trimmed(name));
            let plain = str_chars("client_port");
            let nvidia = str_chars("x-gs-clientport");
            if same(lowered.as_slice(), plain.as_slice()) || same(
                lowered.as_slice(),
                nvidia.as_slice(),
            ) {
                let pieces = split_at_char(value, '-');
                assert(split(value@, '-').len() >= 1);
                assert(views(pieces@).len() == pieces@.len());
                assert(views(pieces@)[0] == pieces@[0]@);
                match read_unsigned(pieces[0], u16::MAX as u64) {
                    Some(n) => Some(n as u16),
                    None => None,
                }
            } else {
                None
            }
        },
        None => None,
    }
}

/// Reads the client's port out of a transport header.
pub fn parse_client_port(transport: Option<&String>) -> (r: Option<u16>)
    ensures
        match transport {
            Some(t) => match r {
                Some(n) => client_port(t@) == Some(n as nat),
                None => client_port(t@) is None,
            },
            None => r is None,
        },
{
    let text = match transport {
        Some(t) => t,
        None => {
            return None;
        },
    };
    let chars = str_chars(text.as_str());
    let parts = split_at_char(chars.as_slice(), ';');
    let ghost all = views(parts@);
    let mut i: usize = 0;
    assert(all.skip(0) == all);
    while i < parts.len()
        invariant
            i <= parts@.len(),
            all == views(parts@),
            client_port(text@) == first_port(all.skip(i as int)),
            transport == Some(text),
        decreases parts.len() - i,
    {
        assert(all.skip(i as int)[0] == parts@[i as int]@);
        assert(all.skip(i as int).skip(1) == all.skip(i + 1));
        match read_part_port(parts[i]) {
            Some(n) => {
                return Some(n);
            },
            None => {},
        }
        i = i + 1;
    }
    None
}

/// The port of a stream.
pub open spec fn stream_port(kind: StreamKind) -> u16 {
    match kind {
        StreamKind::Audio => GAMESTREAM_AUDIO_PORT,
        StreamKind::Control => GAMESTREAM_CONTROL_PORT,
        StreamKind::Video => GAMESTREAM_VIDEO_PORT,
    }
}

/// The port that a request's transport header names for the client.
pub open spec fn request_port(request: GameStreamRtspRequest) -> Option<nat> {
    if request.headers@.contains_key("transport"@) {
        client_port(request.headers@["transport"@]@)
    } else {
        None
    }
}

/// The response headers of a stream.
pub open spec fn is_setup_headers(
    headers: Seq<(String, String)>,
    kind: StreamKind,
    session: Option<GameStreamLaunchSession>,
) -> bool {
    &&& headers.len() == 3
    &&& headers[0].0@ == "Session"@
    &&& headers[0].1@ == GAMESTREAM_SESSION_ID@ + ";timeout = 90"@
    &&& headers[1].0@ == "Transport"@
    &&& headers[1].1@ == "server_port="@ + decimal(stream_port(kind) as nat)
    &&& if kind == StreamKind::Control {
        &&& headers[2].0@ == "X-SS-Connect-Data"@
        &&& headers[2].1@ == decimal(
            match session {
                Some(s) => s.control_connect_data as nat,
                None => 0,
            },
        )
    } else {
        &&& headers[2].0@ == "X-SS-Ping-Payload"@
        &&& headers[2].1@ == (match session {
            Some(s) => s.av_ping_payload@,
            None => "0000000000000000"@,
        })
    }
}

/// Whether a session has learned a client's address and is otherwise the same.
pub open spec fn learned_address(
    before: GameStreamLaunchSession,
    after: GameStreamLaunchSession,
    host: Seq<char>,
    port: nat,
) -> bool {
    &&& after.video_client matches Some(addr) && addr.host@ == host && addr.port == port
    &&& after == GameStreamLaunchSession { video_client: after.video_client, ..before }
}

/// What setting up a stream does to the session.
pub open spec fn setup_effect(
    before: Option<GameStreamLaunchSession>,
    after: Option<GameStreamLaunchSession>,
    peer_host: Seq<char>,
    request: GameStreamRtspRequest,
    kind: StreamKind,
) -> bool {
    if kind == StreamKind::Video && before is Some && request_port(request) is Some {
        after is Some && learned_address(before->0, after->0, peer_host, request_port(request)->0)
    } else {
        after == before
    }
}

/// Sets up a stream: of the video the session learns where the client listens. Gives the
/// headers of the response.
pub fn handle_gamestream_setup(
    slot: &mut Option<GameStreamLaunchSession>,
    peer_host: &str,
    request: &GameStreamRtspRequest,
    kind: StreamKind,
) -> (r: Vec<(String, String)>)
    ensures
        setup_effect(*old(slot), *final(slot), peer_host@, *request, kind),
        is_setup_headers(r@, kind, *old(slot)),
{
    let port: u16 = match kind {
        StreamKind::Audio => GAMESTREAM_AUDIO_PORT,
        StreamKind::Control => GAMESTREAM_CONTROL_PORT,
        StreamKind::Video => GAMESTREAM_VIDEO_PORT,
    };
    if kind == StreamKind::Video {
        if let Some(client_port) = parse_client_port(request.headers.get("transport")) {
            let mut taken = slot.take();
            if let Some(mut session) = taken {
                session.video_client = Some(NetAddr { host: owned(peer_host), port: client_port });
                *slot = Some(session);
            }
        }
    }
    let mut session_value = owned(GAMESTREAM_SESSION_ID);
    session_value.append(";timeout = 90");
    let mut transport_value = owned("server_port=");
    append_decimal(&mut transport_value, port as u64);
    let mut headers: Vec<(String, String)> = Vec::new();
    headers.push((owned("Session"), session_value));
    headers.push((owned("Transport"), transport_value));
    if kind == StreamKind::Control {
        let mut value = String::new();
        let data: u32 = match &*slot {
            Some(s) => s.control_connect_data,
            None => 0,
        };
        append_decimal(&mut value, data as u64);
        assert(value@ == decimal(data as nat));
        headers.push((owned("X-SS-Connect-Data"), value));
    } else {
        let payload = match &*slot {
            Some(s) => s.av_ping_payload.clone(),
            None => owned("0000000000000000"),
        };
        headers.push((owned("X-SS-Ping-Payload"), payload));
    }
    headers
}

// ---------------------------------------------------------------- dispatch

/// What follows a response.
#[derive(Debug, Clone, Copy, PartialEq, Eq, Structural)]
pub enum RtspFollowUp {
    Nothing,
    /// Start sending video.
    StartVideo,
    /// Stop the video and end the session.
    StopSession,
}

/// What a request leads to besides its response.
pub open spec fn follow_up(method: Seq<char>) -> RtspFollowUp {
    if method == "PLAY"@ {
        RtspFollowUp::StartVideo
    } else if method == "TEARDOWN"@ {
        RtspFollowUp::StopSession
    } else {
        RtspFollowUp::Nothing
    }
}

/// What a request does to the session before its response is written. Ending the session comes
/// after the response.
pub open spec fn request_effect(
    request: GameStreamRtspRequest,
    peer_host: Seq<char>,
    before: Option<GameStreamLaunchSession>,
    after: Option<GameStreamLaunchSession>,
) -> bool {
    if request.method@ == "ANNOUNCE"@ {
        match announced_packet_size(request.body@) {
            Some(n) => match before {
                Some(s) => after matches Some(t) && t.video_packet_size == n && t == (
                GameStreamLaunchSession { video_packet_size: t.video_packet_size, ..s }),
                None => after is None,
            },
            None => after == before,
        }
    } else if request.method@ == "SETUP"@ {
        setup_effect(before, after, peer_host, request, setup_kind(request.uri@))
    } else {
        after == before
    }
}

/// The response to a request.
pub open spec fn is_response(
    request: GameStreamRtspRequest,
    session: Option<GameStreamLaunchSession>,
    codec: RtspCodec,
    response: Seq<char>,
) -> bool {
    if request.method@ == "OPTIONS"@ {
        exists|headers: Seq<(String, String)>|
            headers.len() == 1 && headers[0].0@ == "Public"@ && headers[0].1@
                == "OPTIONS, DESCRIBE, SETUP, ANNOUNCE, PLAY, TEARDOWN"@ && response
                == #[trigger] response_text(request.cseq@, headers, Seq::empty())
    } else if request.method@ == "DESCRIBE"@ {
        exists|headers: Seq<(String, String)>|
            headers.len() == 1 && headers[0].0@ == "Content-Type"@ && headers[0].1@
                == "application/sdp"@ && response == #[trigger] response_text(
                request.cseq@,
                headers,
                session_sdp(session, codec),
            )
    } else if request.method@ == "SETUP"@ {
        exists|headers: Seq<(String, String)>|
            is_setup_headers(headers, setup_kind(request.uri@), session) && response
                == #[trigger] response_text(request.cseq@, headers, Seq::empty())
    } else {
        response == response_text(request.cseq@, Seq::empty(), Seq::empty())
    }
}

fn announce_packet_size(slot: &mut Option<GameStreamLaunchSession>, announce: &str)
    ensures
        match sdp_attr(announce@, "x-nv-video[0].packetSize"@) {
            Some(n) => if n > GAMESTREAM_VIDEO_PACKET_HEADER_SIZE {
                match *old(slot) {
                    Some(s) => *final(slot) matches Some(t) && t.video_packet_size == n && t == (
                    GameStreamLaunchSession { video_packet_size: t.video_packet_size, ..s }),
                    None => *final(slot) is None,
                }
            } else {
                *final(slot) == *old(slot)
            },
            None => *final(slot) == *old(slot),
        },
{
    if let Some(size) = packet_size_of(announce) {
        let taken = slot.take();
        if let Some(mut session) = taken {
            session.video_packet_size = size;
            *slot = Some(session);
        }
    }
}

/// Takes up a request: gives the response and what follows it.
pub fn handle_rtsp_request(
    slot: &mut Option<GameStreamLaunchSession>,
    codec: RtspCodec,
    peer_host: &str,
    request: &GameStreamRtspRequest,
) -> (r: (String, RtspFollowUp))
    ensures
        request_effect(*request, peer_host@, *old(slot), *final(slot)),
        is_response(*request, *old(slot), codec, r.0@),
        r.1 == follow_up(request.method@),
{
    let method = request.method.as_str();
    let cseq = request.cseq.as_str();
    let mut headers: Vec<(String, String)> = Vec::new();
    let empty = String::new();
    assert(empty@ == Seq::<char>::empty());
    assert(headers@ == Seq::<(String, String)>::empty());
    if str_same(method, "OPTIONS") {
        headers.push(
            (owned("Public"), owned("OPTIONS, DESCRIBE, SETUP, ANNOUNCE, PLAY, TEARDOWN")),
        );
        let response = rtsp_response(cseq, &headers, empty.as_str());
        proof {
            distinct_methods();
        }
        return (response, RtspFollowUp::Nothing);
    }
    if str_same(method, "DESCRIBE") {
        let body = build_gamestream_sdp(slot, codec);
        headers.push((owned("Content-Type"), owned("application/sdp")));
        let response = rtsp_response(cseq, &headers, body.as_str());
        proof {
            distinct_methods();
        }
        return (response, RtspFollowUp::Nothing);
    }
    if str_same(method, "ANNOUNCE") {
        let announce = read_lossy(request.body.as_slice());
        announce_packet_size(slot, announce.as_str());
        proof {
            distinct_methods();
        }
        return (rtsp_response(cseq, &headers, empty.as_str()), RtspFollowUp::Nothing);
    }
    if str_same(method, "SETUP") {
        let kind = gamestream_setup_kind(request.uri.as_str());
        let setup_headers = handle_gamestream_setup(slot, peer_host, request, kind);
        proof {
            distinct_methods();
        }
        return (rtsp_response(cseq, &setup_headers, empty.as_str()), RtspFollowUp::Nothing);
    }
    let next = if str_same(method, "PLAY") {
        RtspFollowUp::StartVideo
    } else if str_same(method, "TEARDOWN") {
        RtspFollowUp::StopSession
    } else {
        RtspFollowUp::Nothing
    };
    (rtsp_response(cseq, &headers, empty.as_str()), next)
}

/// What a connection comes to, given what it has sent.
#[derive(Debug)]
pub enum RtspTurn {
    /// More is to be read.
    ReadMore,
    /// The response is to be sent and the connection closed, and this is to follow.
    Respond(String, RtspFollowUp),
}

/// The first request of a buffer that can be read, and what comes behind it; whole requests that
/// cannot be read are passed over. Without one, what is left to complete.
pub open spec fn next_request(buffer: Seq<u8>) -> (Option<Seq<u8>>, Seq<u8>)
    decreases buffer.len(),
    via next_request_decreases
{
    if !message_is_complete(buffer) {
        (None, buffer)
    } else {
        let (end, len) = message_bounds(buffer)->0;
        let message = buffer.take((end + len) as int);
        let rest = buffer.skip((end + len) as int);
        if request_parses(message) {
            (Some(message), rest)
        } else {
            next_request(rest)
        }
    }
}

#[via_fn]
proof fn next_request_decreases(buffer: Seq<u8>) {
    if message_is_complete(buffer) {
        lemma_head_end_extends(buffer, Seq::empty(), 0);
    }
}

/// Whether a request that was read from a message was answered with a text.
pub open spec fn is_answered(
    request: GameStreamRtspRequest,
    message: Seq<u8>,
    peer_host: Seq<char>,
    codec: RtspCodec,
    before: Option<GameStreamLaunchSession>,
    after: Option<GameStreamLaunchSession>,
    turn: RtspTurn,
) -> bool {
    &&& is_request(request, message)
    &&& request_effect(request, peer_host, before, after)
    &&& turn matches RtspTurn::Respond(text, next) && is_response(
        request,
        before,
        codec,
        text@,
    ) && next == follow_up(request.method@)
}

/// Takes up what a connection has sent: the first request that can be read is answered, and the
/// connection is then done.
pub fn serve_rtsp(
    buffer: &mut Vec<u8>,
    slot: &mut Option<GameStreamLaunchSession>,
    codec: RtspCodec,
    peer_host: &str,
) -> (r: RtspTurn)
    ensures
        final(buffer)@ == next_request(old(buffer)@).1,
        match next_request(old(buffer)@).0 {
            None => r is ReadMore && *final(slot) == *old(slot),
            Some(message) => exists|request: GameStreamRtspRequest|
                is_answered(
                    request,
                    message,
                    peer_host@,
                    codec,
                    *old(slot),
                    *final(slot),
                    r,
                ),
        },
{
    let ghost start = buffer@;
    loop
        invariant
            next_request(start) == next_request(buffer@),
            start == old(buffer)@,
            *slot == *old(slot),
        decreases buffer@.len(),
    {
        let ghost before = buffer@;
        match take_rtsp_message(buffer) {
            None => {
                return RtspTurn::ReadMore;
            },
            Some(message) => {
                proof {
                    let (end, len) = message_bounds(before)->0;
                    assert(message@ == before.take((end + len) as int));
                    assert(buffer@ == before.skip((end + len) as int));
                    lemma_head_end_extends(before, Seq::empty(), 0);
                }
                match parse_gamestream_rtsp_request(message.as_slice()) {
                    Some(request) => {
                        let (text, next) = handle_rtsp_request(slot, codec, peer_host, &request);
                        let turn = RtspTurn::Respond(text, next);
                        assert(is_answered(
                            request,
                            message@,
                            peer_host@,
                            codec,
                            *old(slot),
                            *slot,
                            turn,
                        ));
                        assert(next_request(old(buffer)@).0->0 == message@);
                        return turn;
                    },
                    None => {},
                }
            },
        }
    }
}

proof fn distinct_methods()
    ensures
        "OPTIONS"@ != "PLAY"@,
        "OPTIONS"@ != "TEARDOWN"@,
        "OPTIONS"@ != "ANNOUNCE"@,
        "OPTIONS"@ != "SETUP"@,
        "OPTIONS"@ != "DESCRIBE"@,
        "DESCRIBE"@ != "PLAY"@,
        "DESCRIBE"@ != "TEARDOWN"@,
        "DESCRIBE"@ != "ANNOUNCE"@,
        "DESCRIBE"@ != "SETUP"@,
        "ANNOUNCE"@ != "PLAY"@,
        "ANNOUNCE"@ != "TEARDOWN"@,
        "ANNOUNCE"@ != "SETUP"@,
        "SETUP"@ != "PLAY"@,
        "SETUP"@ != "TEARDOWN"@,
{
    reveal_strlit("OPTIONS");
    reveal_strlit("DESCRIBE");
    reveal_strlit("ANNOUNCE");
    reveal_strlit("SETUP");
    reveal_strlit("PLAY");
    reveal_strlit("TEARDOWN");
    assert("OPTIONS"@[0] == 'O' && "DESCRIBE"@[0] == 'D' && "ANNOUNCE"@[0] == 'A' && "SETUP"@[0]
        == 'S' && "PLAY"@[0] == 'P' && "TEARDOWN"@[0] == 'T');
}

/// Where the video goes, once a session is launched and its client's address is known.
pub fn video_target(slot: &Option<GameStreamLaunchSession>) -> (r: Option<NetAddr>)
    ensures
        match r {
            Some(addr) => *slot matches Some(s) && s.video_client matches Some(client)
                && addr.host@ == client.host@ && addr.port == client.port,
            None => *slot matches Some(s) ==> s.video_client is None,
        },
{
    match slot {
        Some(s) => match &s.video_client {
            Some(client) => Some(NetAddr { host: client.host.clone(), port: client.port }),
            None => None,
        },
        None => None,
    }
}

// ---------------------------------------------------------------- laws

proof fn lemma_head_end_extends(buffer: Seq<u8>, more: Seq<u8>, i: int)
    requires
        0 <= i,
        head_end_from(buffer, i) is Some,
    ensures
        head_end_from(buffer + more, i) == head_end_from(buffer, i),
        i + 4 <= head_end_from(buffer, i)->0 <= buffer.len(),
    decreases buffer.len() - i,
{
    let all = buffer + more;
    assert(all[i] == buffer[i] && all[i + 1] == buffer[i + 1] && all[i + 2] == buffer[i + 2] && all[
    i + 3] == buffer[i + 3]);
    if !blank_line_at(buffer, i) {
        lemma_head_end_extends(buffer, more, i + 1);
    }
}

/// How the input was cut into reads does not matter: once a request can be framed, more input
/// behind it changes neither its bounds nor that it is whole.
pub proof fn framing_ignores_what_follows(buffer: Seq<u8>, more: Seq<u8>)
    requires
        message_bounds(buffer) is Some,
    ensures
        message_bounds(buffer + more) == message_bounds(buffer),
        message_is_complete(buffer) ==> message_is_complete(buffer + more),
{
    lemma_head_end_extends(buffer, more, 0);
    let end = head_end(buffer)->0 as int;
    assert((buffer + more).take(end) == buffer.take(end));
}

/// A request that was taken out of a buffer whole has the body length that its head states.
pub proof fn taken_request_has_its_stated_body(
    buffer: Seq<u8>,
    message: Seq<u8>,
    rest: Seq<u8>,
    request: GameStreamRtspRequest,
)
    requires
        message + rest == buffer,
        message_bounds(buffer) is Some,
        message.len() == (message_bounds(buffer)->0).0 + (message_bounds(buffer)->0).1,
        is_request(request, message),
    ensures
        message_bounds(message) == message_bounds(buffer),
        request.body@.len() == (message_bounds(buffer)->0).1,
{
    let end = head_end(buffer)->0 as int;
    assert(head_end(message) is Some);
    lemma_head_end_extends(message, rest, 0);
    assert(message.take(end) == buffer.take(end));
}

/// Setting up a stream, announcing or playing never ends a session and never changes its picture
/// size, its frame rate, its codec or its secrets.
pub proof fn requests_keep_the_session(
    request: GameStreamRtspRequest,
    peer_host: Seq<char>,
    before: Option<GameStreamLaunchSession>,
    after: Option<GameStreamLaunchSession>,
)
    requires
        request_effect(request, peer_host, before, after),
    ensures
        before is Some <==> after is Some,
        before is Some ==> ({
            let (a, b) = (after->0, before->0);
            &&& a.width == b.width && a.height == b.height && a.fps == b.fps
            &&& a.codec == b.codec && a.app_id == b.app_id
            &&& a.av_ping_payload == b.av_ping_payload
            &&& a.control_connect_data == b.control_connect_data
            &&& b.video_packet_size > GAMESTREAM_VIDEO_PACKET_HEADER_SIZE ==> a.video_packet_size
                > GAMESTREAM_VIDEO_PACKET_HEADER_SIZE
        }),
{
}

/// The headers that set up a stream tell the client the session's own secrets. While a session is
/// launched, those of the audio and of the video carry the same ping payload, the one that the
/// session was launched with, and those of the control stream carry its connect data; the zero
/// payload and the zero number appear only where no session is launched. Every stream has a port
/// of its own.
pub proof fn setting_up_tells_the_sessions_secrets(
    session: Option<GameStreamLaunchSession>,
    audio: Seq<(String, String)>,
    video: Seq<(String, String)>,
    control: Seq<(String, String)>,
)
    requires
        is_setup_headers(audio, StreamKind::Audio, session),
        is_setup_headers(video, StreamKind::Video, session),
        is_setup_headers(control, StreamKind::Control, session),
    ensures
        audio.len() == 3 && video.len() == 3 && control.len() == 3,
        audio[2].0@ == "X-SS-Ping-Payload"@ && video[2].0@ == "X-SS-Ping-Payload"@,
        control[2].0@ == "X-SS-Connect-Data"@,
        audio[2].1@ == video[2].1@,
        session matches Some(s) ==> audio[2].1@ == s.av_ping_payload@ && video[2].1@
            == s.av_ping_payload@ && control[2].1@ == decimal(s.control_connect_data as nat),
        session is None ==> audio[2].1@ == "0000000000000000"@ && video[2].1@
            == "0000000000000000"@ && control[2].1@ == decimal(0),
        audio[1].0@ == "Transport"@ && video[1].0@ == "Transport"@ && control[1].0@ == "Transport"@,
        audio[1].1@ == "server_port="@ + decimal(48000),
        video[1].1@ == "server_port="@ + decimal(47998),
        control[1].1@ == "server_port="@ + decimal(47999),
        audio[0].0@ == "Session"@ && video[0].0@ == "Session"@ && control[0].0@ == "Session"@,
        audio[0].1@ == "DEADBEEFCAFE"@ + ";timeout = 90"@ && video[0].1@ == audio[0].1@
            && control[0].1@ == audio[0].1@,
{
}

proof fn lemma_three_headers(h: Seq<(String, String)>)
    requires
        h.len() == 3,
    ensures
        header_text(h) == h[0].0@ + ": "@ + h[0].1@ + "\r\n"@ + h[1].0@ + ": "@ + h[1].1@ + "\r\n"@
            + h[2].0@ + ": "@ + h[2].1@ + "\r\n"@,
{
    let two = h.drop_last();
    let one = two.drop_last();
    assert(one.drop_last().len() == 0);
    assert(header_text(one.drop_last()) == Seq::<char>::empty());
    assert(one.last() == h[0] && two.last() == h[1] && h.last() == h[2]);
    assert(header_text(one) =~= h[0].0@ + ": "@ + h[0].1@ + "\r\n"@);
    assert(header_text(two) == header_text(one) + h[1].0@ + ": "@ + h[1].1@ + "\r\n"@);
    assert(header_text(h) == header_text(two) + h[2].0@ + ": "@ + h[2].1@ + "\r\n"@);
}

/// The text that a client reads when it sets up the audio or the video, whole: the answer to a
/// launched session carries the payload that the launch drew, for either stream, under the number
/// of the request; the control stream carries the connect data.
pub proof fn the_answer_to_a_setup(
    request: GameStreamRtspRequest,
    session: GameStreamLaunchSession,
    codec: RtspCodec,
    response: Seq<char>,
)
    requires
        request.method@ == "SETUP"@,
        is_response(request, Some(session), codec, response),
    ensures
        ({
            let head = "RTSP/1.0 200 OK\r\nCSeq: "@ + request.cseq@ + "\r\n"@ + ("Session"@ + ": "@
                + ("DEADBEEFCAFE"@ + ";timeout = 90"@) + "\r\n"@);
            let tail = "Content-Length: "@ + decimal(0) + "\r\n"@ + "\r\n"@;
            let ping = "X-SS-Ping-Payload"@ + ": "@ + session.av_ping_payload@ + "\r\n"@;
            let data = "X-SS-Connect-Data"@ + ": "@ + decimal(session.control_connect_data as nat)
                + "\r\n"@;
            let port = |n: nat| "Transport"@ + ": "@ + ("server_port="@ + decimal(n)) + "\r\n"@;
            let audio = contains(lower(request.uri@), "audio"@);
            let control = contains(lower(request.uri@), "control"@);
            &&& audio ==> response == head + port(48000) + ping + tail
            &&& !audio && control ==> response == head + port(47999) + data + tail
            &&& !audio && !control ==> response == head + port(47998) + ping + tail
        }),
{
    distinct_methods();
    let h = choose|headers: Seq<(String, String)>|
        is_setup_headers(headers, setup_kind(request.uri@), Some(session)) && response
            == #[trigger] response_text(request.cseq@, headers, Seq::empty());
    lemma_three_headers(h);
    let empty = Seq::<char>::empty();
    assert(encode_utf8(empty).len() == 0) by {
        assert(encode_utf8(empty) =~= Seq::<u8>::empty());
    }
    let a = "RTSP/1.0 200 OK\r\nCSeq: "@ + request.cseq@ + "\r\n"@;
    let b = h[0].0@ + ": "@ + h[0].1@ + "\r\n"@;
    let c = h[1].0@ + ": "@ + h[1].1@ + "\r\n"@;
    let d = h[2].0@ + ": "@ + h[2].1@ + "\r\n"@;
    let tail = "Content-Length: "@ + decimal(0) + "\r\n"@ + "\r\n"@;
    assert(header_text(h) =~= b + c + d);
    assert(response =~= (a + b) + c + d + tail);
}

/// The payload that a client learns by setting up a stream is the one that the launch drew: what
/// other requests there were in between does not matter.
pub proof fn the_drawn_payload_is_told(
    first: GameStreamRtspRequest,
    peer_host: Seq<char>,
    launched: GameStreamLaunchSession,
    later: Option<GameStreamLaunchSession>,
    kind: StreamKind,
    headers: Seq<(String, String)>,
)
    requires
        request_effect(first, peer_host, Some(launched), later),
        is_setup_headers(headers, kind, later),
        kind != StreamKind::Control,
    ensures
        headers[2].0@ == "X-SS-Ping-Payload"@,
        headers[2].1@ == launched.av_ping_payload@,
{
    requests_keep_the_session(first, peer_host, Some(launched), later);
}

/// What requests do to a session: setting up the video with a port notes where the client
/// listens, under the address that the request came from; an announcement notes the packet size
/// that it gives, where that leaves room for a payload; no other request changes anything.
pub proof fn only_two_requests_change_the_session(
    request: GameStreamRtspRequest,
    peer_host: Seq<char>,
    before: GameStreamLaunchSession,
    after: Option<GameStreamLaunchSession>,
)
    requires
        request_effect(request, peer_host, Some(before), after),
    ensures
        after is Some,
        request.method@ != "SETUP"@ && request.method@ != "ANNOUNCE"@ ==> after == Some(before),
        request.method@ == "SETUP"@ ==> {
            let video = !contains(lower(request.uri@), "audio"@) && !contains(
                lower(request.uri@),
                "control"@,
            );
            &&& video && request_port(request) is Some ==> after->0.video_client is Some
                && after->0.video_client->0.host@ == peer_host && after->0.video_client->0.port
                == request_port(request)->0
            &&& !video || request_port(request) is None ==> after == Some(before)
            &&& after->0.video_packet_size == before.video_packet_size
            &&& after->0.unique_id == before.unique_id && after->0.ri_key == before.ri_key
                && after->0.ri_key_id == before.ri_key_id
        },
        request.method@ == "ANNOUNCE"@ ==> {
            let size = sdp_attr(lossy_text(request.body@), "x-nv-video[0].packetSize"@);
            &&& size is Some && size->0 > 16 ==> after->0.video_packet_size == size->0
            &&& size is None || size->0 <= 16 ==> after == Some(before)
            &&& after->0.video_client == before.video_client
            &&& after->0.unique_id == before.unique_id && after->0.ri_key == before.ri_key
                && after->0.ri_key_id == before.ri_key_id
        },
{
    distinct_methods();
}

/// Playing starts the video and tearing down ends the session; nothing follows another request.
/// Every request is answered, under its own number.
pub proof fn what_follows_a_request(
    request: GameStreamRtspRequest,
    session: Option<GameStreamLaunchSession>,
    codec: RtspCodec,
    response: Seq<char>,
)
    requires
        is_response(request, session, codec, response),
    ensures
        follow_up(request.method@) == RtspFollowUp::StartVideo <==> request.method@ == "PLAY"@,
        follow_up(request.method@) == RtspFollowUp::StopSession <==> request.method@
            == "TEARDOWN"@,
        starts_with(response, "RTSP/1.0 200 OK\r\nCSeq: "@ + request.cseq@ + "\r\n"@),
        request.method@ != "OPTIONS"@ && request.method@ != "DESCRIBE"@ && request.method@
            != "SETUP"@ ==> response == "RTSP/1.0 200 OK\r\nCSeq: "@ + request.cseq@ + "\r\n"@
            + "Content-Length: "@ + decimal(0) + "\r\n"@ + "\r\n"@,
{
    distinct_methods();
    reveal_strlit("PLAY");
    reveal_strlit("TEARDOWN");
    assert("PLAY"@.len() == 4 && "TEARDOWN"@.len() == 8);
    let head = "RTSP/1.0 200 OK\r\nCSeq: "@ + request.cseq@ + "\r\n"@;
    assert forall|h: Seq<(String, String)>, body: Seq<char>| starts_with(
        #[trigger] response_text(request.cseq@, h, body),
        head,
    ) by {
        let text = response_text(request.cseq@, h, body);
        assert(text.take(head.len() as int) =~= head);
    }
    let empty = Seq::<char>::empty();
    assert(encode_utf8(empty) =~= Seq::<u8>::empty());
    let none = Seq::<(String, String)>::empty();
    assert(response_text(request.cseq@, none, empty) =~= head + "Content-Length: "@ + decimal(0)
        + "\r\n"@ + "\r\n"@);
}

/// A response states how many bytes its body has, and the body comes last, behind a blank line.
pub proof fn a_response_ends_with_its_body(
    cseq: Seq<char>,
    headers: Seq<(String, String)>,
    body: Seq<char>,
)
    ensures
        ({
            let text = response_text(cseq, headers, body);
            let end = "Content-Length: "@ + decimal(encode_utf8(body).len()) + "\r\n"@ + "\r\n"@
                + body;
            &&& text.len() >= end.len()
            &&& text.skip(text.len() - end.len()) == end
        }),
{
    let text = response_text(cseq, headers, body);
    let end = "Content-Length: "@ + decimal(encode_utf8(body).len()) + "\r\n"@ + "\r\n"@ + body;
    assert(text.skip(text.len() - end.len()) =~= end);
}

/// Every header of a response is a line of its own: name, colon, value.
pub proof fn every_header_has_its_line(headers: Seq<(String, String)>, i: int)
    requires
        0 <= i < headers.len(),
    ensures
        header_text(headers) == header_text(headers.take(i)) + (headers[i].0@ + ": "@
            + headers[i].1@ + "\r\n"@) + header_text(headers.skip(i + 1)),
    decreases headers.len(),
{
    let last = headers.len() - 1;
    if i == last {
        assert(headers.take(i) =~= headers.drop_last());
        assert(header_text(headers.skip(i + 1)) == Seq::<char>::empty());
        assert(header_text(headers) =~= header_text(headers.take(i)) + (headers[i].0@ + ": "@
            + headers[i].1@ + "\r\n"@) + header_text(headers.skip(i + 1)));
    } else {
        let front = headers.drop_last();
        every_header_has_its_line(front, i);
        assert(front.take(i) =~= headers.take(i));
        assert(headers.skip(i + 1).drop_last() =~= front.skip(i + 1));
        assert(headers.skip(i + 1).last() == headers.last());
        assert(header_text(headers) =~= header_text(headers.take(i)) + (headers[i].0@ + ": "@
            + headers[i].1@ + "\r\n"@) + header_text(headers.skip(i + 1)));
    }
}

proof fn lemma_regroup_3(
    x: Seq<char>,
    p0: Seq<char>,
    p1: Seq<char>,
    p2: Seq<char>,
)
    ensures
        x + p0 + p1 + p2 == x + (p0 + p1 + p2),
{
    assert(x + (p0) + p1 =~= x + (p0 + p1));
    assert(x + (p0 + p1) + p2 =~= x + (p0 + p1 + p2));
}

proof fn lemma_regroup_7(
    x: Seq<char>,
    p0: Seq<char>,
    p1: Seq<char>,
    p2: Seq<char>,
    p3: Seq<char>,
    p4: Seq<char>,
    p5: Seq<char>,
    p6: Seq<char>,
)
    ensures
        x + p0 + p1 + p2 + p3 + p4 + p5 + p6 == x + (p0 + p1 + p2 + p3 + p4 + p5 + p6),
{
    assert(x + (p0) + p1 =~= x + (p0 + p1));
    assert(x + (p0 + p1) + p2 =~= x + (p0 + p1 + p2));
    assert(x + (p0 + p1 + p2) + p3 =~= x + (p0 + p1 + p2 + p3));
    assert(x + (p0 + p1 + p2 + p3) + p4 =~= x + (p0 + p1 + p2 + p3 + p4));
    assert(x + (p0 + p1 + p2 + p3 + p4) + p5 =~= x + (p0 + p1 + p2 + p3 + p4 + p5));
    assert(x + (p0 + p1 + p2 + p3 + p4 + p5) + p6 =~= x + (p0 + p1 + p2 + p3 + p4 + p5 + p6));
}

proof fn lemma_regroup_9(
    x: Seq<char>,
    p0: Seq<char>,
    p1: Seq<char>,
    p2: Seq<char>,
    p3: Seq<char>,
    p4: Seq<char>,
    p5: Seq<char>,
    p6: Seq<char>,
    p7: Seq<char>,
    p8: Seq<char>,
)
    ensures
        x + p0 + p1 + p2 + p3 + p4 + p5 + p6 + p7 + p8 == x + (p0 + p1 + p2 + p3 + p4 + p5 + p6 + p7 + p8),
{
    assert(x + (p0) + p1 =~= x + (p0 + p1));
    assert(x + (p0 + p1) + p2 =~= x + (p0 + p1 + p2));
    assert(x + (p0 + p1 + p2) + p3 =~= x + (p0 + p1 + p2 + p3));
    assert(x + (p0 + p1 + p2 + p3) + p4 =~= x + (p0 + p1 + p2 + p3 + p4));
    assert(x + (p0 + p1 + p2 + p3 + p4) + p5 =~= x + (p0 + p1 + p2 + p3 + p4 + p5));
    assert(x + (p0 + p1 + p2 + p3 + p4 + p5) + p6 =~= x + (p0 + p1 + p2 + p3 + p4 + p5 + p6));
    assert(x + (p0 + p1 + p2 + p3 + p4 + p5 + p6) + p7 =~= x + (p0 + p1 + p2 + p3 + p4 + p5 + p6 + p7));
    assert(x + (p0 + p1 + p2 + p3 + p4 + p5 + p6 + p7) + p8 =~= x + (p0 + p1 + p2 + p3 + p4 + p5 + p6 + p7 + p8));
}

/// A description tells the size, the rate and the codec of the session that was launched,
/// whatever the host is set to; without one it tells the host's own codec, at 1920 by 1080 and 60
/// frames.
pub proof fn the_description_tells_the_session(
    session: Option<GameStreamLaunchSession>,
    codec: RtspCodec,
)
    ensures
        ({
            let (w, h, f, c) = match session {
                Some(s) => (s.width as nat, s.height as nat, s.fps as nat, s.codec),
                None => (1920nat, 1080nat, 60nat, codec),
            };
            let text = session_sdp(session, codec);
            let size = "a=x-nv-video[0].clientViewportWd:"@ + decimal(w)
                + "\r\na=x-nv-video[0].clientViewportHt:"@ + decimal(h)
                + "\r\na=x-nv-video[0].maxFPS:"@ + decimal(f) + "\r\nm=video "@ + decimal(47998)
                + " RTP/AVP "@;
            let media = match c {
                RtspCodec::H264 => decimal(96) + "\r\na=rtpmap:"@ + decimal(96) + " "@ + "H264"@
                    + "/90000\r\na=control:streamid=video\r\nm=audio "@ + decimal(48000),
                RtspCodec::H265 => decimal(99) + "\r\na=rtpmap:"@ + decimal(99) + " "@ + "H265"@
                    + "/90000\r\na=control:streamid=video\r\nm=audio "@ + decimal(48000),
            };
            &&& contains(text, size + media)
            &&& c == RtspCodec::H265 ==> contains(
                text,
                "sprop-parameter-sets=AAAAAU\r\n"@ + (size + media),
            )
        }),
{
    let (w, h, f, c) = match session {
        Some(s) => (s.width as nat, s.height as nat, s.fps as nat, s.codec),
        None => (1920nat, 1080nat, 60nat, codec),
    };
    let text = session_sdp(session, codec);
    let size = "a=x-nv-video[0].clientViewportWd:"@ + decimal(w)
        + "\r\na=x-nv-video[0].clientViewportHt:"@ + decimal(h) + "\r\na=x-nv-video[0].maxFPS:"@
        + decimal(f) + "\r\nm=video "@ + decimal(47998) + " RTP/AVP "@;
    let number: nat = match c {
        RtspCodec::H264 => 96,
        RtspCodec::H265 => 99,
    };
    let name = match c {
        RtspCodec::H264 => "H264"@,
        RtspCodec::H265 => "H265"@,
    };
    let media = decimal(number) + "\r\na=rtpmap:"@ + decimal(number) + " "@ + name
        + "/90000\r\na=control:streamid=video\r\nm=audio "@ + decimal(48000);
    let intro =
        "v=0\r\no=One-KVM 0 0 IN IP4 127.0.0.1\r\ns=One-KVM HDMI Input\r\nt=0 0\r\na=x-ss-general.featureFlags:135\r\na=x-ss-general.encryptionSupported:0\r\na=x-ss-general.encryptionRequested:0\r\n"@;
    let probe = match c {
        RtspCodec::H264 => Seq::<char>::empty(),
        RtspCodec::H265 => "sprop-parameter-sets=AAAAAU\r\n"@,
    };
    let end =
        " RTP/AVP 97\r\na=rtpmap:97 OPUS/48000/2\r\na=control:streamid=audio\r\nm=application "@
        + decimal(47999) + " udp 0\r\na=control:streamid=control\r\n"@;
    let front = intro + probe;
    lemma_regroup_9(front, "a=x-nv-video[0].clientViewportWd:"@, decimal(w), "\r\na=x-nv-video[0].clientViewportHt:"@, decimal(h), "\r\na=x-nv-video[0].maxFPS:"@, decimal(f), "\r\nm=video "@, decimal(47998), " RTP/AVP "@);
    lemma_regroup_7(front + size, decimal(number), "\r\na=rtpmap:"@, decimal(number), " "@, name, "/90000\r\na=control:streamid=video\r\nm=audio "@, decimal(48000));
    lemma_regroup_3(front + size + media, " RTP/AVP 97\r\na=rtpmap:97 OPUS/48000/2\r\na=control:streamid=audio\r\nm=application "@, decimal(47999), " udp 0\r\na=control:streamid=control\r\n"@);
    assert(front + size + media + end =~= front + (size + media) + end);
    assert(text == front + (size + media) + end);
    lemma_in_the_middle(intro + probe, size + media, end);
    lemma_in_the_middle(intro, probe + (size + media), end);
    assert(intro + (probe + (size + media)) + end =~= text);
}

proof fn lemma_in_the_middle(a: Seq<char>, b: Seq<char>, c: Seq<char>)
    ensures
        contains(a + b + c, b),
{
    let s = a + b + c;
    let i = a.len() as int;
    assert(s.subrange(i, i + b.len()) =~= b);
    assert(crate::text::occurs_at(s, b, i));
}

/// An address that has the word audio in it, in any case of letters, names the audio; one that
/// has the word control in it and not audio names the control stream; every other names the
/// video.
pub proof fn an_address_names_its_stream(uri: Seq<char>)
    ensures
        setup_kind(uri) == StreamKind::Audio <==> contains(lower(uri), "audio"@),
        setup_kind(uri) == StreamKind::Control <==> contains(lower(uri), "control"@) && !contains(
            lower(uri),
            "audio"@,
        ),
        setup_kind(lower(uri)) == setup_kind(uri),
{
    assert(lower(lower(uri)) =~= lower(uri));
}

/// A method is told by its name alone, whatever the case that the client wrote it in; of headers
/// that are given twice the later one counts, under a name without regard to case.
pub proof fn the_last_header_of_a_name_counts(
    rows: Seq<Seq<char>>,
    name: Seq<char>,
    value: Seq<char>,
)
    requires
        forall|i: int| 0 <= i < name.len() ==> name[i] != ':',
    ensures
        headers_of(rows.push(name + seq![':'] + value)) == headers_of(rows).insert(
            lower(trim(name)),
            trim(value),
        ),
        headers_of(rows.push(name)) == headers_of(rows),
{
    let row = name + seq![':'] + value;
    assert(rows.push(row).drop_last() =~= rows);
    assert(rows.push(name).drop_last() =~= rows);
    lemma_cut_at(name, value, ':');
    crate::text::lemma_first_index(name, ':');
}

proof fn lemma_cut_at(name: Seq<char>, value: Seq<char>, c: char)
    requires
        forall|i: int| 0 <= i < name.len() ==> name[i] != c,
    ensures
        split_once(name + seq![c] + value, c) == Some((name, value)),
{
    let row = name + seq![c] + value;
    crate::text::lemma_first_index(row, c);
    let i = crate::text::first_index(row, c) as int;
    assert(row[name.len() as int] == c);
    assert(i <= name.len());
    if i < name.len() {
        assert(row[i] == name[i]);
    }
    assert(row.take(i) =~= name);
    assert(row.skip(i + 1) =~= value);
}

/// The video goes to the client's address once it is known, and nowhere before.
pub proof fn the_video_goes_to_the_client(
    slot: Option<GameStreamLaunchSession>,
    r: Option<NetAddr>,
)
    requires
        call_ensures(video_target, (&slot,), r),
    ensures
        r is Some <==> slot is Some && slot->0.video_client is Some,
        r is Some ==> r->0.host@ == slot->0.video_client->0.host@ && r->0.port
            == slot->0.video_client->0.port,
{
}

/// The head of a request ends behind its first blank line: two line ends, one behind the other.
pub proof fn the_head_ends_at_the_first_blank_line(buffer: Seq<u8>, i: int)
    requires
        0 <= i,
    ensures
        match head_end_from(buffer, i) {
            Some(end) => {
                &&& i + 4 <= end <= buffer.len()
                &&& buffer.subrange(end - 4, end as int) == seq![0x0du8, 0x0au8, 0x0du8, 0x0au8]
                &&& forall|j: int| i <= j < end - 4 ==> !#[trigger] blank_line_at(buffer, j)
            },
            None => forall|j: int| i <= j ==> !#[trigger] blank_line_at(buffer, j),
        },
    decreases buffer.len() - i,
{
    if i + 4 <= buffer.len() {
        if blank_line_at(buffer, i) {
            assert(buffer.subrange(i, i + 4) =~= seq![0x0du8, 0x0au8, 0x0du8, 0x0au8]);
        } else {
            the_head_ends_at_the_first_blank_line(buffer, i + 1);
        }
    }
}

/// A request with one header line is read from its parts: method and address are the first two
/// words of the first line, the header has its name in small letters and its value without white
/// space around it, and everything behind the head is the body.
pub proof fn a_request_is_read_line_by_line(
    r: GameStreamRtspRequest,
    raw: Seq<u8>,
    end: nat,
    first: Seq<char>,
    name: Seq<char>,
    value: Seq<char>,
)
    requires
        is_request(r, raw),
        head_end(raw) == Some(end),
        !first.contains('\n'),
        first.len() > 0 && first.last() != '\r',
        !name.contains(':') && !name.contains('\n'),
        !value.contains('\n'),
        value.len() > 0 && value.last() != '\r',
        utf8_decoded(raw.take(end as int)) == Some(
            first.push('\r').push('\n') + ((name.push(':') + value).push('\r').push('\n') + seq![
                '\r',
                '\n',
            ]),
        ),
    ensures
        r.method@ == upper(words(first)[0]),
        r.uri@ == words(first)[1],
        texts(r.headers@) == Map::<Seq<char>, Seq<char>>::empty().insert(
            lower(trim(name)),
            trim(value),
        ),
        lower(trim(name)) == "cseq"@ ==> r.cseq@ == trim(value),
        lower(trim(name)) != "cseq"@ ==> r.cseq@ == "1"@,
        r.body@ == raw.skip(end as int),
{
    let row = name.push(':') + value;
    let blank = seq!['\r', '\n'];
    let tail = row.push('\r').push('\n') + blank;
    let head = first.push('\r').push('\n') + tail;
    assert(!row.contains('\n')) by {
        if row.contains('\n') {
            let k = choose|k: int| 0 <= k < row.len() && row[k] == '\n';
            if k < name.len() {
                assert(name[k] == '\n');
            } else if k > name.len() {
                assert(value[k - name.len() - 1] == '\n');
            }
        }
    }
    assert(row.last() == value.last());
    crate::text::a_line_feed_ends_a_line(first, tail);
    crate::text::a_line_feed_ends_a_line(row, blank);
    let nothing = Seq::<char>::empty();
    crate::text::a_line_feed_ends_a_line(nothing, nothing);
    assert(nothing.push('\r').push('\n') + nothing =~= blank);
    assert(lines(nothing) =~= Seq::<Seq<char>>::empty());
    assert(lines(blank) =~= seq![nothing]);
    let rows = lines(head);
    assert(rows =~= seq![first, row, nothing]);
    let rest = rows.skip(1);
    assert(rest =~= seq![row, nothing]);
    assert(rest.drop_last() =~= seq![row]);
    assert(seq![row].drop_last() =~= Seq::<Seq<char>>::empty());
    crate::text::a_separator_ends_a_piece(name, ':', value);
    crate::text::a_separator_ends_a_piece(nothing, ':', nothing);
    assert(headers_of(Seq::<Seq<char>>::empty()) == Map::<Seq<char>, Seq<char>>::empty());
    assert(headers_of(seq![row]) == Map::<Seq<char>, Seq<char>>::empty().insert(
        lower(trim(name)),
        trim(value),
    ));
    assert(rest.last() == nothing);
    assert(headers_of(rest) == headers_of(rest.drop_last()));
    assert(texts(r.headers@).contains_key("cseq"@) == r.headers@.contains_key("cseq"@));
    if lower(trim(name)) == "cseq"@ {
        assert(texts(r.headers@)["cseq"@] == r.headers@["cseq"@]@);
    }
}

/// The ports of the streams, each its own.
pub proof fn every_stream_has_its_port()
    ensures
        stream_port(StreamKind::Video) == 47998,
        stream_port(StreamKind::Control) == 47999,
        stream_port(StreamKind::Audio) == 48000,
        GAMESTREAM_VIDEO_PACKET_HEADER_SIZE == 16,
        RTSP_MAX_PENDING == 256 * 1024,
{
}

/// A line states the length of the body where its name is that of the length, whatever its case,
/// and its value is a number, whatever white space stands around it; no other line does.
pub proof fn which_line_states_the_length(name: Seq<char>, value: Seq<char>)
    requires
        !name.contains(':'),
    ensures
        lower(name) == "content-length"@ ==> line_content_length(name.push(':') + value)
            == parse_unsigned(trim(value), usize::MAX as nat),
        lower(name) != "content-length"@ ==> line_content_length(name.push(':') + value) is None,
        line_content_length(name) is None,
{
    crate::text::a_separator_ends_a_piece(name, ':', value);
}

/// A client that asks what it may do is told the six requests that there are.
pub proof fn the_requests_are_told(
    request: GameStreamRtspRequest,
    session: Option<GameStreamLaunchSession>,
    codec: RtspCodec,
    response: Seq<char>,
)
    requires
        request.method@ == "OPTIONS"@,
        is_response(request, session, codec, response),
    ensures
        exists|headers: Seq<(String, String)>|
            headers.len() == 1 && headers[0].0@ == "Public"@ && headers[0].1@
                == "OPTIONS, DESCRIBE, SETUP, ANNOUNCE, PLAY, TEARDOWN"@ && response
                == #[trigger] response_text(request.cseq@, headers, Seq::empty()),
{
}

} // verus!
