//! What the HTTP interface tells of the host, and the streaming session that it prepares.
use crate::sunshine::crypto::{random_bytes, random_u32};
use crate::sunshine::hex::{encode_hex, hex_encode};
use crate::sunshine::http::{is_xml, wrapped, xml_response, HttpReply};
use crate::sunshine::pair_server::{is_client_paired, is_paired};
use crate::sunshine::pairing::{param, PairedClient};
use crate::sunshine::xml::{escape, xml_escape};
use crate::text::{
    append_decimal, decimal, owned, parse_unsigned, read_unsigned, split, split_at_char,
    str_chars, views,
};
use crate::text_map::TextMap;
use crate::types::{RtspCodec, RtspConfig, SunshineConfig};
use vstd::prelude::*;
use vstd::string::StringExecFns;

verus! {

/// The protocol version that the host claims.
pub const VERSION: &'static str = "7.1.431.-1";

/// The version of the streaming software that the host claims.
pub const GFE_VERSION: &'static str = "3.23.0.74";

/// The codec flag of H.264.
pub const CODEC_H264: u32 = 0x0000_0001;

/// The codec flag of HEVC.
pub const CODEC_HEVC: u32 = 0x0000_0100;

/// The codec flag of HEVC with ten bits.
pub const CODEC_HEVC_MAIN10: u32 = 0x0000_0200;

/// The port of the session's RTSP service.
pub const GAMESTREAM_RTSP_PORT: u16 = 48010;

/// The greatest frame rate of a session.
pub const GAMESTREAM_MAX_FPS: u32 = 60;

/// The size of a video packet where the client names none.
pub const GAMESTREAM_DEFAULT_VIDEO_PACKET_SIZE: usize = 1024;

/// A network address: the text of an IP address, and a port.
#[derive(Debug, Clone)]
pub struct NetAddr {
    pub host: String,
    pub port: u16,
}

/// A streaming session that a client has asked for.
#[derive(Debug, Clone)]
pub struct GameStreamLaunchSession {
    pub unique_id: String,
    pub app_id: u32,
    pub width: u32,
    pub height: u32,
    pub fps: u32,
    pub ri_key: String,
    pub ri_key_id: String,
    pub codec: RtspCodec,
    pub av_ping_payload: String,
    pub control_connect_data: u32,
    pub video_client: Option<NetAddr>,
    pub video_packet_size: usize,
}

// ---------------------------------------------------------------- the host

/// The flags of the codecs that a host with a given codec offers.
pub open spec fn codec_flags(codec: RtspCodec) -> u32 {
    match codec {
        RtspCodec::H264 => CODEC_H264,
        RtspCodec::H265 => (CODEC_H264 + CODEC_HEVC + CODEC_HEVC_MAIN10) as u32,
    }
}

fn server_codec_flags(codec: RtspCodec) -> (r: u32)
    ensures
        r == codec_flags(codec),
{
    match codec {
        RtspCodec::H264 => CODEC_H264,
        RtspCodec::H265 => {
            assert(0x1u32 | 0x100u32 | 0x200u32 == 0x301u32) by (bit_vector);
            CODEC_H264 | CODEC_HEVC | CODEC_HEVC_MAIN10
        },
    }
}

/// The description of the host.
pub open spec fn serverinfo_body(
    config: SunshineConfig,
    codec: RtspCodec,
    unique_id: Seq<char>,
    local_ip: Seq<char>,
    paired: bool,
) -> Seq<char> {
    "<root protocol_version=\"0.1\" query=\"serverinfo\" status_code=\"200\" status_message=\"OK\"><hostname>"@
        + escape(config.hostname@) + "</hostname><appversion>"@ + VERSION@
        + "</appversion><GfeVersion>"@ + GFE_VERSION@ + "</GfeVersion><uniqueid>"@ + escape(
        unique_id,
    ) + "</uniqueid><HttpsPort>"@ + decimal(config.https_port as nat)
        + "</HttpsPort><ExternalPort>"@ + decimal(config.http_port as nat)
        + "</ExternalPort><MaxLumaPixelsHEVC>"@ + (if codec == RtspCodec::H265 {
        "1869449984"@
    } else {
        "0"@
    }) + "</MaxLumaPixelsHEVC><mac>00:00:00:00:00:00</mac><LocalIP>"@ + escape(local_ip)
        + "</LocalIP><ServerCodecModeSupport>"@ + decimal(codec_flags(codec) as nat)
        + "</ServerCodecModeSupport><PairStatus>"@ + (if paired {
        "1"@
    } else {
        "0"@
    }) + "</PairStatus><currentgame>0</currentgame><state>SUNSHINE_SERVER_FREE</state></root>"@
}

/// The client that a query names, or the empty text.
pub open spec fn client_of(query: Map<Seq<char>, String>) -> Seq<char> {
    match param(query, "uniqueid"@) {
        Some(id) => id,
        None => Seq::empty(),
    }
}

/// Describes the host, and whether it knows the client that asks.
pub fn serverinfo(
    config: &SunshineConfig,
    rtsp: &RtspConfig,
    unique_id: &str,
    clients: &Vec<PairedClient>,
    local_ip: &str,
    query: &TextMap<String>,
) -> (r: HttpReply)
    ensures
        is_xml(
            r,
            200,
            serverinfo_body(
                *config,
                rtsp.codec,
                unique_id@,
                local_ip@,
                is_paired(clients@, client_of(query@)),
            ),
        ),
{
    let client = param_or_empty(query, "uniqueid");
    let paired = is_client_paired(clients, client.as_str());
    let mut body = owned(
        "<root protocol_version=\"0.1\" query=\"serverinfo\" status_code=\"200\" status_message=\"OK\"><hostname>",
    );
    body.append(xml_escape(config.hostname.as_str()).as_str());
    body.append("</hostname><appversion>");
    body.append(VERSION);
    body.append("</appversion><GfeVersion>");
    body.append(GFE_VERSION);
    body.append("</GfeVersion><uniqueid>");
    body.append(xml_escape(unique_id).as_str());
    body.append("</uniqueid><HttpsPort>");
    append_decimal(&mut body, config.https_port as u64);
    body.append("</HttpsPort><ExternalPort>");
    append_decimal(&mut body, config.http_port as u64);
    body.append("</ExternalPort><MaxLumaPixelsHEVC>");
    if rtsp.codec == RtspCodec::H265 {
        body.append("1869449984");
    } else {
        body.append("0");
    }
    body.append("</MaxLumaPixelsHEVC><mac>00:00:00:00:00:00</mac><LocalIP>");
    body.append(xml_escape(local_ip).as_str());
    body.append("</LocalIP><ServerCodecModeSupport>");
    append_decimal(&mut body, server_codec_flags(rtsp.codec) as u64);
    body.append("</ServerCodecModeSupport><PairStatus>");
    if paired {
        body.append("1");
    } else {
        body.append("0");
    }
    body.append(
        "</PairStatus><currentgame>0</currentgame><state>SUNSHINE_SERVER_FREE</state></root>",
    );
    xml_response(body)
}

/// The list of applications: the one that the host streams.
pub open spec fn applist_body(config: SunshineConfig, codec: RtspCodec) -> Seq<char> {
    let id = decimal(config.app_id as nat);
    "<root protocol_version=\"0.1\" query=\"applist\" status_code=\"200\" status_message=\"OK\"><App><AppInstallPath>One-KVM</AppInstallPath><AppTitle>"@
        + escape(config.app_title@) + "</AppTitle><CmsId>"@ + id
        + "</CmsId><Distributor>One-KVM</Distributor><ID>"@ + id
        + "</ID><IsAppCollectorGame>0</IsAppCollectorGame><IsHdrSupported>"@ + (if codec
        == RtspCodec::H265 {
        "1"@
    } else {
        "0"@
    })
        + "</IsHdrSupported><MaxControllersForSingleSession>4</MaxControllersForSingleSession><ShortName>one_kvm_hdmi</ShortName><SupportedSOPS><SOPS><Height>2160</Height><RefreshRate>60</RefreshRate><Width>3840</Width></SOPS><SOPS><Height>1440</Height><RefreshRate>60</RefreshRate><Width>2560</Width></SOPS><SOPS><Height>1080</Height><RefreshRate>120</RefreshRate><Width>1920</Width></SOPS><SOPS><Height>1080</Height><RefreshRate>60</RefreshRate><Width>1920</Width></SOPS><SOPS><Height>720</Height><RefreshRate>60</RefreshRate><Width>1280</Width></SOPS></SupportedSOPS><UniqueId>"@
        + id + "</UniqueId><simulateControllers>0</simulateControllers></App></root>"@
}

/// Lists the application that the host streams.
pub fn applist(config: &SunshineConfig, rtsp: &RtspConfig) -> (r: HttpReply)
    ensures
        is_xml(r, 200, applist_body(*config, rtsp.codec)),
{
    let mut body = owned(
        "<root protocol_version=\"0.1\" query=\"applist\" status_code=\"200\" status_message=\"OK\"><App><AppInstallPath>One-KVM</AppInstallPath><AppTitle>",
    );
    body.append(xml_escape(config.app_title.as_str()).as_str());
    body.append("</AppTitle><CmsId>");
    append_decimal(&mut body, config.app_id as u64);
    body.append("</CmsId><Distributor>One-KVM</Distributor><ID>");
    append_decimal(&mut body, config.app_id as u64);
    body.append("</ID><IsAppCollectorGame>0</IsAppCollectorGame><IsHdrSupported>");
    if rtsp.codec == RtspCodec::H265 {
        body.append("1");
    } else {
        body.append("0");
    }
    body.append(
        "</IsHdrSupported><MaxControllersForSingleSession>4</MaxControllersForSingleSession><ShortName>one_kvm_hdmi</ShortName><SupportedSOPS><SOPS><Height>2160</Height><RefreshRate>60</RefreshRate><Width>3840</Width></SOPS><SOPS><Height>1440</Height><RefreshRate>60</RefreshRate><Width>2560</Width></SOPS><SOPS><Height>1080</Height><RefreshRate>120</RefreshRate><Width>1920</Width></SOPS><SOPS><Height>1080</Height><RefreshRate>60</RefreshRate><Width>1920</Width></SOPS><SOPS><Height>720</Height><RefreshRate>60</RefreshRate><Width>1280</Width></SOPS></SupportedSOPS><UniqueId>",
    );
    append_decimal(&mut body, config.app_id as u64);
    body.append("</UniqueId><simulateControllers>0</simulateControllers></App></root>");
    xml_response(body)
}

/// The answer to a request that ends the session.
pub fn cancel_response() -> (r: HttpReply)
    ensures
        is_xml(r, 200, "<root status_code=\"200\"><cancel>1</cancel></root>"@),
{
    xml_response(owned("<root status_code=\"200\"><cancel>1</cancel></root>"))
}

// ---------------------------------------------------------------- launching

/// The number that a query parameter writes, where it writes one of 32 bits.
pub open spec fn param_number(query: Map<Seq<char>, String>, name: Seq<char>) -> Option<nat> {
    match param(query, name) {
        Some(text) => parse_unsigned(text, u32::MAX as nat),
        None => None,
    }
}

/// The value of a query parameter, or the empty text.
pub open spec fn param_default(query: Map<Seq<char>, String>, name: Seq<char>) -> Seq<char> {
    match param(query, name) {
        Some(text) => text,
        None => Seq::empty(),
    }
}

fn param_or_empty(query: &TextMap<String>, name: &str) -> (r: String)
    ensures
        r@ == param_default(query@, name@),
{
    match query.get(name) {
        Some(v) => v.clone(),
        None => {
            let empty = String::new();
            assert(empty@ == Seq::<char>::empty());
            empty
        },
    }
}

fn read_u32(text: &[char]) -> (r: Option<u32>)
    ensures
        match r {
            Some(n) => parse_unsigned(text@, u32::MAX as nat) == Some(n as nat),
            None => parse_unsigned(text@, u32::MAX as nat) is None,
        },
{
    match read_unsigned(text, u32::MAX as u64) {
        Some(n) => Some(n as u32),
        None => None,
    }
}

fn param_u32(query: &TextMap<String>, name: &str, default: u32) -> (r: u32)
    ensures
        r == (match param_number(query@, name@) {
            Some(n) => n as int,
            None => default as int,
        }),
{
    match query.get(name) {
        Some(v) => {
            let chars = str_chars(v.as_str());
            match read_u32(chars.as_slice()) {
                Some(n) => n,
                None => default,
            }
        },
        None => default,
    }
}

/// The frame rate that a session gets for one that was asked for.
pub open spec fn session_fps(asked: nat) -> nat {
    if asked == 0 {
        1
    } else if asked > GAMESTREAM_MAX_FPS {
        GAMESTREAM_MAX_FPS as nat
    } else {
        asked
    }
}

fn limit_fps(asked: u32) -> (r: u32)
    ensures
        r == session_fps(asked as nat),
        1 <= r <= GAMESTREAM_MAX_FPS,
{
    if asked == 0 {
        1
    } else if asked > GAMESTREAM_MAX_FPS {
        GAMESTREAM_MAX_FPS
    } else {
        asked
    }
}

/// The width, the height and the frame rate that a mode such as `1920x1080x60` names; further
/// parts are ignored.
pub open spec fn mode_numbers(mode: Seq<char>) -> Option<(nat, nat, nat)> {
    let parts = split(mode, 'x');
    if parts.len() < 3 {
        None
    } else {
        let w = parse_unsigned(parts[0], u32::MAX as nat);
        let h = parse_unsigned(parts[1], u32::MAX as nat);
        let f = parse_unsigned(parts[2], u32::MAX as nat);
        if w is Some && h is Some && f is Some {
            Some((w->0, h->0, f->0))
        } else {
            None
        }
    }
}

/// Reads a mode.
pub fn parse_mode(mode: &str) -> (r: Option<(u32, u32, u32)>)
    ensures
        match r {
            Some((w, h, f)) => mode_numbers(mode@) == Some((w as nat, h as nat, f as nat)),
            None => mode_numbers(mode@) is None,
        },
{
    let chars = str_chars(mode);
    let parts = split_at_char(chars.as_slice(), 'x');
    assert(views(parts@) == split(mode@, 'x'));
    if parts.len() < 3 {
        return None;
    }
    assert(views(parts@)[0] == parts@[0]@);
    assert(views(parts@)[1] == parts@[1]@);
    assert(views(parts@)[2] == parts@[2]@);
    match (read_u32(parts[0]), read_u32(parts[1]), read_u32(parts[2])) {
        (Some(w), Some(h), Some(f)) => Some((w, h, f)),
        _ => None,
    }
}

/// The width, the height and the frame rate that a launch request asks for: those of a mode that
/// can be read, or else the single parameters with their defaults.
pub open spec fn launch_resolution(query: Map<Seq<char>, String>) -> (nat, nat, nat) {
    let mode = match param(query, "mode"@) {
        Some(text) => mode_numbers(text),
        None => None,
    };
    match mode {
        Some((w, h, f)) => (w, h, session_fps(f)),
        None => (
            match param_number(query, "width"@) {
                Some(n) => n,
                None => 1920,
            },
            match param_number(query, "height"@) {
                Some(n) => n,
                None => 1080,
            },
            session_fps(
                match param_number(query, "fps"@) {
                    Some(n) => n,
                    None => 60,
                },
            ),
        ),
    }
}

/// Reads the width, the height and the frame rate of a launch request.
pub fn parse_launch_resolution(query: &TextMap<String>) -> (r: (u32, u32, u32))
    ensures
        launch_resolution(query@) == (r.0 as nat, r.1 as nat, r.2 as nat),
        1 <= r.2 <= GAMESTREAM_MAX_FPS,
{
    if let Some(mode) = query.get("mode") {
        if let Some((w, h, f)) = parse_mode(mode.as_str()) {
            return (w, h, limit_fps(f));
        }
    }
    let width: u32 = param_u32(query, "width", 1920);
    let height: u32 = param_u32(query, "height", 1080);
    let fps: u32 = param_u32(query, "fps", 60);
    (width, height, limit_fps(fps))
}

/// Whether a session is the one that a launch request asks for, up to what is drawn at random.
pub open spec fn is_launch_session(
    s: GameStreamLaunchSession,
    query: Map<Seq<char>, String>,
    default_app: u32,
    codec: RtspCodec,
) -> bool {
    &&& s.unique_id@ == client_of(query)
    &&& s.app_id == (match param_number(query, "appid"@) {
        Some(n) => n as int,
        None => default_app as int,
    })
    &&& launch_resolution(query) == (s.width as nat, s.height as nat, s.fps as nat)
    &&& 1 <= s.fps <= GAMESTREAM_MAX_FPS
    &&& s.ri_key@ == param_default(query, "rikey"@)
    &&& s.ri_key_id@ == param_default(query, "rikeyid"@)
    &&& s.codec == codec
    &&& s.video_client is None
    &&& s.video_packet_size == GAMESTREAM_DEFAULT_VIDEO_PACKET_SIZE
}

/// Prepares the session that a launch request asks for, with a ping payload and connect data.
pub fn prepare_session(
    query: &TextMap<String>,
    default_app: u32,
    codec: RtspCodec,
    ping: &[u8],
    connect_data: u32,
) -> (r: GameStreamLaunchSession)
    ensures
        is_launch_session(r, query@, default_app, codec),
        r.av_ping_payload@ == encode_hex(ping@),
        r.control_connect_data == connect_data,
{
    let (width, height, fps) = parse_launch_resolution(query);
    GameStreamLaunchSession {
        unique_id: param_or_empty(query, "uniqueid"),
        app_id: param_u32(query, "appid", default_app),
        width,
        height,
        fps,
        ri_key: param_or_empty(query, "rikey"),
        ri_key_id: param_or_empty(query, "rikeyid"),
        codec,
        av_ping_payload: hex_encode(ping),
        control_connect_data: connect_data,
        video_client: None,
        video_packet_size: GAMESTREAM_DEFAULT_VIDEO_PACKET_SIZE,
    }
}

/// Whether a ping payload is one that can be drawn: eight bytes in hexadecimal digits.
pub open spec fn is_drawn_payload(payload: Seq<char>) -> bool {
    exists|ping: Seq<u8>| ping.len() == 8 && payload == #[trigger] encode_hex(ping)
}

/// Whether a launch request carries the key that a session needs.
pub open spec fn launch_has_key(query: Map<Seq<char>, String>) -> bool {
    query.contains_key("rikey"@) && query.contains_key("rikeyid"@)
}

/// The answer to a launch request that succeeds.
pub open spec fn launch_body(local_ip: Seq<char>) -> Seq<char> {
    "<root protocol_version=\"0.1\" query=\"launch\" status_code=\"200\" status_message=\"OK\"><sessionUrl0>"@
        + escape("rtsp://"@ + local_ip + ":"@ + decimal(GAMESTREAM_RTSP_PORT as nat))
        + "</sessionUrl0><gamesession>1</gamesession><resume>1</resume></root>"@
}

/// Takes up a launch request: a session with a fresh ping payload and fresh connect data takes
/// the place of one before it. Gives the answer, and whether the video of the session before is
/// to be stopped.
pub fn launch(
    slot: &mut Option<GameStreamLaunchSession>,
    config: &SunshineConfig,
    rtsp: &RtspConfig,
    local_ip: &str,
    query: &TextMap<String>,
) -> (r: (HttpReply, bool))
    ensures
        r.1 == launch_has_key(query@),
        if launch_has_key(query@) {
            &&& is_xml(r.0, 200, launch_body(local_ip@))
            &&& *final(slot) matches Some(s) && is_launch_session(
                s,
                query@,
                config.app_id,
                rtsp.codec,
            ) && is_drawn_payload(s.av_ping_payload@)
        } else {
            &&& is_xml(
                r.0,
                200,
                "<root protocol_version=\"0.1\" query=\"launch\" status_code=\"400\" status_message=\"Missing required launch parameter\"><gamesession>0</gamesession></root>"@,
            )
            &&& *final(slot) == *old(slot)
        },
{
    if !(query.contains_key("rikey") && query.contains_key("rikeyid")) {
        return (
            xml_response(
                owned(
                    "<root protocol_version=\"0.1\" query=\"launch\" status_code=\"400\" status_message=\"Missing required launch parameter\"><gamesession>0</gamesession></root>",
                ),
            ),
            false,
        );
    }
    let ping = random_bytes(8);
    let connect_data: u32 = random_u32();
    *slot = Some(prepare_session(query, config.app_id, rtsp.codec, ping.as_slice(), connect_data));
    let mut url = owned("rtsp://");
    url.append(local_ip);
    url.append(":");
    append_decimal(&mut url, GAMESTREAM_RTSP_PORT as u64);
    let body = wrapped(
        "<root protocol_version=\"0.1\" query=\"launch\" status_code=\"200\" status_message=\"OK\"><sessionUrl0>",
        xml_escape(url.as_str()).as_str(),
        "</sessionUrl0><gamesession>1</gamesession><resume>1</resume></root>",
    );
    (xml_response(body), true)
}

/// Ends the session. Gives whether there was one.
pub fn stop_session(slot: &mut Option<GameStreamLaunchSession>) -> (r: bool)
    ensures
        *final(slot) is None,
        r == (*old(slot) is Some),
{
    slot.take().is_some()
}

// ---------------------------------------------------------------- laws

/// Whatever a launch request asks for, the session's frame rate lies between one and the
/// greatest that the host streams; a rate in between is granted as it is.
pub proof fn session_fps_is_bounded(asked: nat)
    ensures
        1 <= session_fps(asked) <= GAMESTREAM_MAX_FPS,
        1 <= asked <= GAMESTREAM_MAX_FPS ==> session_fps(asked) == asked,
{
}

/// A host that streams H.264 offers that alone; one that streams H.265 offers H.264 and both
/// depths of HEVC.
pub proof fn the_host_offers_its_codecs()
    ensures
        codec_flags(RtspCodec::H264) == 0x1,
        codec_flags(RtspCodec::H265) == 0x301,
{
}

proof fn lemma_first_separator(a: Seq<char>, b: Seq<char>, c: char)
    requires
        forall|i: int| 0 <= i < a.len() ==> a[i] != c,
    ensures
        crate::text::first_index(a + seq![c] + b, c) == a.len(),
        split(a + seq![c] + b, c) == seq![a] + split(b, c),
{
    let s = a + seq![c] + b;
    crate::text::lemma_first_index(s, c);
    let i = crate::text::first_index(s, c) as int;
    assert(s[a.len() as int] == c);
    if i < a.len() {
        assert(s[i] == a[i]);
    }
    assert(s.take(i) =~= a);
    assert(s.skip(i + 1) =~= b);
}

proof fn lemma_decimal_has_no_separator(n: nat)
    ensures
        forall|i: int| 0 <= i < decimal(n).len() ==> decimal(n)[i] != 'x',
{
    crate::text::lemma_decimal(n);
    assert forall|i: int| 0 <= i < decimal(n).len() implies decimal(n)[i] != 'x' by {
        assert(crate::text::is_digit(decimal(n)[i]));
    }
}

/// A mode that a client writes is the picture that it gets: width, height and frame rate in this
/// order, with the rate held between one and sixty; whatever else the request says of them does
/// not count.
pub proof fn a_written_mode_is_the_picture(
    query: Map<Seq<char>, String>,
    width: u32,
    height: u32,
    fps: u32,
)
    requires
        param(query, "mode"@) == Some(
            decimal(width as nat) + seq!['x'] + (decimal(height as nat) + seq!['x'] + decimal(
                fps as nat,
            )),
        ),
    ensures
        launch_resolution(query).0 == width,
        launch_resolution(query).1 == height,
        1 <= fps <= 60 ==> launch_resolution(query).2 == fps,
        fps == 0 ==> launch_resolution(query).2 == 1,
        fps > 60 ==> launch_resolution(query).2 == 60,
{
    let w = decimal(width as nat);
    let h = decimal(height as nat);
    let f = decimal(fps as nat);
    lemma_decimal_has_no_separator(width as nat);
    lemma_decimal_has_no_separator(height as nat);
    lemma_decimal_has_no_separator(fps as nat);
    lemma_first_separator(w, h + seq!['x'] + f, 'x');
    lemma_first_separator(h, f, 'x');
    crate::text::lemma_first_index(f, 'x');
    assert(split(f, 'x') == seq![f]);
    assert(split(w + seq!['x'] + (h + seq!['x'] + f), 'x') =~= seq![w, h, f]);
    crate::text::parse_of_decimal(width as nat, u32::MAX as nat);
    crate::text::parse_of_decimal(height as nat, u32::MAX as nat);
    crate::text::parse_of_decimal(fps as nat, u32::MAX as nat);
}

/// Without a mode the single parameters count, each on its own: a width, a height and a rate that
/// are written are taken, and the rate is held between one and sixty; one that is missing is
/// 1920, 1080 or 60.
pub proof fn single_parameters_are_the_picture(
    query: Map<Seq<char>, String>,
    width: u32,
    height: u32,
    fps: u32,
)
    requires
        param(query, "mode"@) is None,
    ensures
        param(query, "width"@) == Some(decimal(width as nat)) ==> launch_resolution(query).0
            == width,
        param(query, "height"@) == Some(decimal(height as nat)) ==> launch_resolution(query).1
            == height,
        param(query, "fps"@) == Some(decimal(fps as nat)) && 1 <= fps <= 60 ==> launch_resolution(
            query,
        ).2 == fps,
        param(query, "width"@) is None ==> launch_resolution(query).0 == 1920,
        param(query, "height"@) is None ==> launch_resolution(query).1 == 1080,
        param(query, "fps"@) is None ==> launch_resolution(query).2 == 60,
{
    crate::text::parse_of_decimal(width as nat, u32::MAX as nat);
    crate::text::parse_of_decimal(height as nat, u32::MAX as nat);
    crate::text::parse_of_decimal(fps as nat, u32::MAX as nat);
}

/// A session belongs to the client that asked for it, with the keys that the client sent, and in
/// the host's codec; the application is the one that was asked for, or the host's own. It begins
/// without a client's address and with packets of 1024 bytes.
pub proof fn a_session_is_the_clients_own(
    s: GameStreamLaunchSession,
    query: Map<Seq<char>, String>,
    default_app: u32,
    codec: RtspCodec,
    app: u32,
)
    requires
        is_launch_session(s, query, default_app, codec),
    ensures
        param(query, "uniqueid"@) matches Some(id) ==> s.unique_id@ == id,
        param(query, "rikey"@) matches Some(key) ==> s.ri_key@ == key,
        param(query, "rikeyid"@) matches Some(id) ==> s.ri_key_id@ == id,
        param(query, "appid"@) == Some(decimal(app as nat)) ==> s.app_id == app,
        param(query, "appid"@) is None ==> s.app_id == default_app,
        (s.width as nat, s.height as nat, s.fps as nat) == launch_resolution(query),
        s.codec == codec,
        s.video_client is None,
        s.video_packet_size == 1024,
{
    crate::text::parse_of_decimal(app as nat, u32::MAX as nat);
}

/// The payload that a client is to send back is what was drawn, in sixteen hexadecimal digits:
/// reading them gives the eight bytes.
pub proof fn the_payload_writes_what_was_drawn(
    query: TextMap<String>,
    default_app: u32,
    codec: RtspCodec,
    ping: &[u8],
    connect_data: u32,
    r: GameStreamLaunchSession,
)
    requires
        call_ensures(prepare_session, (&query, default_app, codec, ping, connect_data), r),
    ensures
        crate::sunshine::hex::decode_hex(vstd::utf8::encode_utf8(r.av_ping_payload@)) == Some(ping@),
        r.av_ping_payload@.len() == 2 * ping@.len(),
        r.control_connect_data == connect_data,
{
    crate::sunshine::hex::hex_round_trip(ping@);
}

/// What a host tells of itself: its names are escaped, its ports and its codecs are written in
/// decimal, and whether it knows the client stands at the end.
pub proof fn the_host_tells_whether_it_knows_the_client(
    config: SunshineConfig,
    codec: RtspCodec,
    unique_id: Seq<char>,
    local_ip: Seq<char>,
    paired: bool,
)
    ensures
        ({
            let body = serverinfo_body(config, codec, unique_id, local_ip, paired);
            let end = (if paired {
                "1"@
            } else {
                "0"@
            })
                + "</PairStatus><currentgame>0</currentgame><state>SUNSHINE_SERVER_FREE</state></root>"@;
            &&& body.len() >= end.len()
            &&& body.skip(body.len() - end.len()) == end
        }),
{
    let body = serverinfo_body(config, codec, unique_id, local_ip, paired);
    let end = (if paired {
        "1"@
    } else {
        "0"@
    }) + "</PairStatus><currentgame>0</currentgame><state>SUNSHINE_SERVER_FREE</state></root>"@;
    assert(body.skip(body.len() - end.len()) =~= end);
}

/// The answer to a launch names the address of the session: the host's own, on the port 48010.
pub proof fn a_launch_names_the_session(local_ip: Seq<char>)
    ensures
        launch_body(local_ip)
            == "<root protocol_version=\"0.1\" query=\"launch\" status_code=\"200\" status_message=\"OK\"><sessionUrl0>"@
            + escape("rtsp://"@ + local_ip + ":"@ + decimal(48010))
            + "</sessionUrl0><gamesession>1</gamesession><resume>1</resume></root>"@,
{
}

/// The host describes itself, each fact in its own element.
pub proof fn the_host_describes_itself(
    config: SunshineConfig,
    codec: RtspCodec,
    unique_id: Seq<char>,
    local_ip: Seq<char>,
    paired: bool,
)
    ensures
        serverinfo_body(config, codec, unique_id, local_ip, paired)
            == "<root protocol_version=\"0.1\" query=\"serverinfo\" status_code=\"200\" status_message=\"OK\"><hostname>"@
            + escape(config.hostname@) + "</hostname><appversion>"@ + "7.1.431.-1"@
            + "</appversion><GfeVersion>"@ + "3.23.0.74"@ + "</GfeVersion><uniqueid>"@ + escape(
            unique_id,
        ) + "</uniqueid><HttpsPort>"@ + decimal(config.https_port as nat)
            + "</HttpsPort><ExternalPort>"@ + decimal(config.http_port as nat)
            + "</ExternalPort><MaxLumaPixelsHEVC>"@ + (if codec == RtspCodec::H265 {
            "1869449984"@
        } else {
            "0"@
        }) + "</MaxLumaPixelsHEVC><mac>00:00:00:00:00:00</mac><LocalIP>"@ + escape(local_ip)
            + "</LocalIP><ServerCodecModeSupport>"@ + decimal(
            (if codec == RtspCodec::H265 {
                0x301nat
            } else {
                1nat
            }),
        ) + "</ServerCodecModeSupport><PairStatus>"@ + (if paired {
            "1"@
        } else {
            "0"@
        }) + "</PairStatus><currentgame>0</currentgame><state>SUNSHINE_SERVER_FREE</state></root>"@,
{
}

/// The host lists one application, under the number and the title that are set; it shows high
/// range where the host offers H.265.
pub proof fn one_application_is_listed(config: SunshineConfig, codec: RtspCodec)
    ensures
        ({
            let id = decimal(config.app_id as nat);
            applist_body(config, codec)
                == "<root protocol_version=\"0.1\" query=\"applist\" status_code=\"200\" status_message=\"OK\"><App><AppInstallPath>One-KVM</AppInstallPath><AppTitle>"@
                + escape(config.app_title@) + "</AppTitle><CmsId>"@ + id
                + "</CmsId><Distributor>One-KVM</Distributor><ID>"@ + id
                + "</ID><IsAppCollectorGame>0</IsAppCollectorGame><IsHdrSupported>"@ + (if codec
                == RtspCodec::H265 {
                "1"@
            } else {
                "0"@
            })
                + "</IsHdrSupported><MaxControllersForSingleSession>4</MaxControllersForSingleSession><ShortName>one_kvm_hdmi</ShortName><SupportedSOPS><SOPS><Height>2160</Height><RefreshRate>60</RefreshRate><Width>3840</Width></SOPS><SOPS><Height>1440</Height><RefreshRate>60</RefreshRate><Width>2560</Width></SOPS><SOPS><Height>1080</Height><RefreshRate>120</RefreshRate><Width>1920</Width></SOPS><SOPS><Height>1080</Height><RefreshRate>60</RefreshRate><Width>1920</Width></SOPS><SOPS><Height>720</Height><RefreshRate>60</RefreshRate><Width>1280</Width></SOPS></SupportedSOPS><UniqueId>"@
                + id + "</UniqueId><simulateControllers>0</simulateControllers></App></root>"@
        }),
{
}

/// A payload that was drawn has sixteen hexadecimal digits, which read back as eight bytes.
pub proof fn a_drawn_payload_has_sixteen_digits(payload: Seq<char>)
    requires
        is_drawn_payload(payload),
    ensures
        payload.len() == 16,
        crate::sunshine::hex::decode_hex(vstd::utf8::encode_utf8(payload)) is Some,
        (crate::sunshine::hex::decode_hex(vstd::utf8::encode_utf8(payload))->0).len() == 8,
{
    let ping = choose|ping: Seq<u8>| ping.len() == 8 && payload == #[trigger] encode_hex(ping);
    crate::sunshine::hex::hex_round_trip(ping);
}

} // verus!
