//! Audio capture devices.
use crate::text::{
    append_signed, before, contains, cut_before, decimal, find_char, has_prefix, is_digit,
    joined, lemma_first_index, lines, lowercase, lowercased, owned, signed_decimal, split,
    split_at_char, starts_with, str_chars, str_has, str_same, string_of, text_lines, trim,
    trimmed, views,
};
use crate::types::AppError;
use vstd::prelude::*;
use vstd::slice::slice_subrange;
use vstd::string::StringExecFns;

verus! {

/// A device that sound can be captured from.
#[derive(Debug, Clone)]
pub struct AudioDeviceInfo {
    pub name: String,
    pub description: String,
    pub card_index: i32,
    pub device_index: i32,
    pub sample_rates: Vec<u32>,
    pub channels: Vec<u32>,
    pub is_capture: bool,
    pub is_hdmi: bool,
    pub usb_bus: Option<String>,
}

/// A sound card, as the system describes it.
#[derive(Debug, Clone)]
pub struct AudioCard {
    pub index: i32,
    pub name: Option<String>,
    pub longname: Option<String>,
    /// Where the card hangs, as a path of the device tree.
    pub device_link: Option<String>,
}

/// What trying to open an endpoint of a card came to.
#[derive(Debug)]
pub enum EndpointProbe {
    /// It opened, and supports these rates and channel counts.
    Opened { sample_rates: Vec<u32>, channels: Vec<u32> },
    /// It did not open.
    Unavailable,
}

/// How many endpoints of a card are looked at.
pub const ENDPOINTS_PER_CARD: usize = 9;

// ---------------------------------------------------------------- reading descriptions

/// Whether a part of a device path is the place of a USB device, such as `1-1.2`.
pub open spec fn is_usb_place(part: Seq<char>) -> bool {
    &&& part.contains('-')
    &&& !part.contains(':')
    &&& part.len() > 0
    &&& is_digit(part[0])
}

/// The first part that is the place of a USB device.
pub open spec fn first_usb_place(parts: Seq<Seq<char>>) -> Option<Seq<char>>
    decreases parts.len(),
{
    if parts.len() == 0 {
        None
    } else if is_usb_place(parts[0]) {
        Some(parts[0])
    } else {
        first_usb_place(parts.skip(1))
    }
}

fn has_char(s: &[char], c: char) -> (r: bool)
    ensures
        r == s@.contains(c),
{
    let i: usize = find_char(s, c);
    proof {
        lemma_first_index(s@, c);
        if s@.contains(c) {
            let k = choose|k: int| 0 <= k < s@.len() && s@[k] == c;
            assert(s@[k] == c);
        }
    }
    i < s.len()
}

/// The place of a USB card, out of the path of its device.
pub fn usb_place(link: &str) -> (r: Option<String>)
    ensures
        match r {
            Some(place) => first_usb_place(split(link@, '/')) == Some(place@),
            None => first_usb_place(split(link@, '/')) is None,
        },
{
    let chars = str_chars(link);
    let parts = split_at_char(chars.as_slice(), '/');
    let ghost all = views(parts@);
    let mut i: usize = 0;
    assert(all.skip(0) == all);
    while i < parts.len()
        invariant
            i <= parts@.len(),
            all == views(parts@),
            all == split(link@, '/'),
            first_usb_place(all) == first_usb_place(all.skip(i as int)),
        decreases parts.len() - i,
    {
        let part = parts[i];
        assert(all.skip(i as int)[0] == part@);
        assert(all.skip(i as int).skip(1) == all.skip(i + 1));
        if has_char(part, '-') && !has_char(part, ':') && part.len() > 0 {
            let c: char = part[0];
            if '0' <= c && c <= '9' {
                return Some(string_of(part));
            }
        }
        i = i + 1;
    }
    None
}

/// The place of a card, where it is a USB card.
pub open spec fn card_usb(card: AudioCard) -> Option<Seq<char>> {
    if card.index < 0 {
        None
    } else {
        match card.device_link {
            Some(link) => first_usb_place(split(link@, '/')),
            None => None,
        }
    }
}

/// Tells the place of a USB card.
pub fn get_usb_bus_info(card: &AudioCard) -> (r: Option<String>)
    ensures
        match r {
            Some(place) => card_usb(*card) == Some(place@),
            None => card_usb(*card) is None,
        },
{
    if card.index < 0 {
        return None;
    }
    match &card.device_link {
        Some(link) => usb_place(link.as_str()),
        None => None,
    }
}

/// A number in at least two places.
pub open spec fn two_places(n: i32) -> Seq<char> {
    if 0 <= n < 10 {
        "0"@ + decimal(n as nat)
    } else {
        signed_decimal(n as int)
    }
}

fn append_two_places(out: &mut String, n: i32)
    ensures
        final(out)@ == old(out)@ + two_places(n),
{
    let ghost start = out@;
    if 0 <= n && n < 10 {
        out.append("0");
        append_signed(out, n as i64);
        assert(out@ == start + ("0"@ + decimal(n as nat)));
    } else {
        append_signed(out, n as i64);
    }
}

/// The rest of the first line that starts with a text.
pub open spec fn first_rest(rows: Seq<Seq<char>>, prefix: Seq<char>) -> Option<Seq<char>>
    decreases rows.len(),
{
    if rows.len() == 0 {
        None
    } else if starts_with(rows[0], prefix) {
        Some(rows[0].skip(prefix.len() as int))
    } else {
        first_rest(rows.skip(1), prefix)
    }
}

/// What the system's list says of an endpoint: the first field of its line.
pub open spec fn listed_description(
    list: Seq<char>,
    card_index: i32,
    device_index: i32,
) -> Option<Seq<char>> {
    match first_rest(
        lines(list),
        two_places(card_index) + "-"@ + two_places(device_index) + ":"@,
    ) {
        Some(rest) => {
            let field = trim(before(trim(rest), " : "@));
            if field.len() > 0 {
                Some(field)
            } else {
                None
            }
        },
        None => None,
    }
}

/// Reads the description of an endpoint out of the system's list.
pub fn get_pcm_description(list: &str, card_index: i32, device_index: i32) -> (r: Option<String>)
    ensures
        match r {
            Some(text) => listed_description(list@, card_index, device_index) == Some(text@),
            None => listed_description(list@, card_index, device_index) is None,
        },
{
    let mut prefix_text = String::new();
    append_two_places(&mut prefix_text, card_index);
    prefix_text.append("-");
    append_two_places(&mut prefix_text, device_index);
    prefix_text.append(":");
    let ghost wanted = two_places(card_index) + "-"@ + two_places(device_index) + ":"@;
    assert(prefix_text@ == wanted);
    let prefix = str_chars(prefix_text.as_str());
    let chars = str_chars(list);
    let rows = text_lines(chars.as_slice());
    let separator = str_chars(" : ");
    let ghost all = views(rows@);
    let mut i: usize = 0;
    assert(all.skip(0) == all);
    while i < rows.len()
        invariant
            i <= rows@.len(),
            all == views(rows@),
            all == lines(list@),
            prefix@ == wanted,
            wanted == two_places(card_index) + "-"@ + two_places(device_index) + ":"@,
            separator@ == " : "@,
            first_rest(all, wanted) == first_rest(all.skip(i as int), wanted),
        decreases rows.len() - i,
    {
        let row = rows[i];
        assert(all.skip(i as int)[0] == row@);
        assert(all.skip(i as int).skip(1) == all.skip(i + 1));
        if has_prefix(row, prefix.as_slice()) {
            let rest = slice_subrange(row, prefix.len(), row.len());
            assert(rest@ == row@.skip(prefix@.len() as int));
            let field = trimmed(cut_before(trimmed(rest), separator.as_slice()));
            return if field.len() > 0 {
                Some(string_of(field))
            } else {
                None
            };
        }
        i = i + 1;
    }
    None
}

// ---------------------------------------------------------------- kinds of endpoints

/// Whether a description in lower case names the HDMI receiver.
pub open spec fn names_hdmi_rx(lowered: Seq<char>) -> bool {
    contains(lowered, "hdmirx"@) || contains(lowered, "hdmi-rx"@) || contains(
        lowered,
        "i2s4hdmirx"@,
    )
}

/// Whether a description in lower case names the HDMI receiver.
pub fn lowered_names_hdmi_rx(lowered: &str) -> (r: bool)
    ensures
        r == names_hdmi_rx(lowered@),
{
    str_has(lowered, "hdmirx") || str_has(lowered, "hdmi-rx") || str_has(lowered, "i2s4hdmirx")
}

/// Whether a card's name in lower case is that of the system's own card.
pub open spec fn names_aml_card(lowered: Seq<char>) -> bool {
    contains(lowered, "aml-augesound"@) || contains(lowered, "amlogic"@)
}

/// Whether a card's name in lower case is that of the system's own card.
pub fn lowered_names_aml_card(lowered: &str) -> (r: bool)
    ensures
        r == names_aml_card(lowered@),
{
    str_has(lowered, "aml-augesound") || str_has(lowered, "amlogic")
}

/// Whether a card is the system's own.
pub fn is_aml_audio_card(card_longname: &str) -> (r: bool)
    ensures
        r == names_aml_card(lowercase(card_longname@)),
{
    let lowered = lowercased(card_longname);
    lowered_names_aml_card(lowered.as_str())
}

/// Whether a description names the HDMI receiver.
pub fn is_hdmi_rx_description(description: &str) -> (r: bool)
    ensures
        r == names_hdmi_rx(lowercase(description@)),
{
    let lowered = lowercased(description);
    lowered_names_hdmi_rx(lowered.as_str())
}

/// The description of an endpoint, or the empty text.
pub open spec fn text_or_empty(text: Option<&str>) -> Seq<char> {
    match text {
        Some(t) => t@,
        None => Seq::empty(),
    }
}

/// Whether names in lower case are those of an endpoint for the picture's sound: the HDMI
/// receiver, a USB device, or HDMI that is not the S/PDIF port.
pub open spec fn names_capture(card: Seq<char>, pcm: Seq<char>, is_rx: bool) -> bool {
    ||| is_rx
    ||| contains(pcm, "usb"@)
    ||| contains(pcm, "hdmi"@) && !contains(pcm, "spdif"@)
    ||| contains(card, "usb"@)
}

/// Whether names in lower case are those of an endpoint for the picture's sound.
pub fn lowered_names_capture(card: &str, pcm: &str, is_rx: bool) -> (r: bool)
    ensures
        r == names_capture(card@, pcm@, is_rx),
{
    is_rx || str_has(pcm, "usb") || (str_has(pcm, "hdmi") && !str_has(pcm, "spdif")) || str_has(
        card,
        "usb",
    )
}

/// Whether an endpoint carries the picture's sound.
pub open spec fn carries_hdmi(card_longname: Seq<char>, pcm: Seq<char>) -> bool {
    names_capture(
        lowercase(card_longname),
        lowercase(pcm),
        names_hdmi_rx(lowercase(lowercase(pcm))),
    )
}

/// Whether an endpoint carries the picture's sound.
pub fn is_hdmi_capture_device(card_longname: &str, pcm_description: Option<&str>) -> (r: bool)
    ensures
        r == carries_hdmi(card_longname@, text_or_empty(pcm_description)),
{
    let card_lower = lowercased(card_longname);
    let empty = String::new();
    assert(empty@ == Seq::<char>::empty());
    let pcm_lower = match pcm_description {
        Some(text) => lowercased(text),
        None => lowercased(empty.as_str()),
    };
    let is_rx = is_hdmi_rx_description(pcm_lower.as_str());
    lowered_names_capture(card_lower.as_str(), pcm_lower.as_str(), is_rx)
}

/// Whether an endpoint's description names the HDMI receiver; one without does not.
pub open spec fn pcm_is_rx(pcm_description: Option<&str>) -> bool {
    match pcm_description {
        Some(text) => names_hdmi_rx(lowercase(text@)),
        None => false,
    }
}

fn pcm_names_rx(pcm_description: Option<&str>) -> (r: bool)
    ensures
        r == pcm_is_rx(pcm_description),
{
    match pcm_description {
        Some(text) => is_hdmi_rx_description(text),
        None => false,
    }
}

/// Whether an endpoint is shown: USB endpoints and the HDMI receiver are, and of the system's own
/// card nothing else.
pub open spec fn is_exposed(is_usb: bool, is_rx: bool, is_aml: bool) -> bool {
    is_usb || is_rx || !is_aml
}

/// Whether an endpoint is shown to the user.
pub fn should_expose_capture_device(
    card_longname: &str,
    pcm_description: Option<&str>,
    usb_bus: Option<&str>,
) -> (r: bool)
    ensures
        r == is_exposed(
            usb_bus is Some,
            pcm_is_rx(pcm_description),
            names_aml_card(lowercase(card_longname@)),
        ),
{
    if usb_bus.is_some() {
        return true;
    }
    if pcm_names_rx(pcm_description) {
        return true;
    }
    !is_aml_audio_card(card_longname)
}

/// What the user sees of an endpoint.
pub open spec fn friendly_text(
    card_longname: Seq<char>,
    device_name: Seq<char>,
    pcm_description: Option<&str>,
    usb_bus: Option<&str>,
    is_rx: bool,
) -> Seq<char> {
    if is_rx {
        "HDMI IN Audio ("@ + device_name + ")"@
    } else {
        match (usb_bus, pcm_description) {
            (Some(bus), _) => "USB Audio Capture "@ + bus@ + " ("@ + device_name + ")"@,
            (None, Some(pcm)) => card_longname + " - "@ + pcm@ + " ("@ + device_name + ")"@,
            (None, None) => card_longname + " ("@ + device_name + ")"@,
        }
    }
}

/// Names an endpoint for the user, given whether it is the HDMI receiver.
pub fn friendly_description(
    card_longname: &str,
    device_name: &str,
    pcm_description: Option<&str>,
    usb_bus: Option<&str>,
    is_rx: bool,
) -> (r: String)
    ensures
        r@ == friendly_text(card_longname@, device_name@, pcm_description, usb_bus, is_rx),
{
    let mut out = if is_rx {
        owned("HDMI IN Audio")
    } else {
        match usb_bus {
            Some(bus) => joined("USB Audio Capture ", bus),
            None => match pcm_description {
                Some(pcm) => {
                    let mut text = joined(card_longname, " - ");
                    text.append(pcm);
                    text
                },
                None => owned(card_longname),
            },
        }
    };
    out.append(" (");
    out.append(device_name);
    out.append(")");
    proof {
        reveal_strlit("HDMI IN Audio");
        reveal_strlit("HDMI IN Audio (");
        reveal_strlit(" (");
        assert("HDMI IN Audio"@ + " ("@ == "HDMI IN Audio ("@);
    }
    out
}

/// Names an endpoint for the user.
pub fn friendly_audio_description(
    card_longname: &str,
    device_name: &str,
    pcm_description: Option<&str>,
    usb_bus: Option<&str>,
) -> (r: String)
    ensures
        r@ == friendly_text(
            card_longname@,
            device_name@,
            pcm_description,
            usb_bus,
            pcm_is_rx(pcm_description),
        ),
{
    let is_rx = pcm_names_rx(pcm_description);
    friendly_description(card_longname, device_name, pcm_description, usb_bus, is_rx)
}

// ---------------------------------------------------------------- endpoints

/// The name of an endpoint.
pub open spec fn endpoint_name(card_index: i32, device_index: i32) -> Seq<char> {
    "hw:"@ + signed_decimal(card_index as int) + ","@ + signed_decimal(device_index as int)
}

fn endpoint_text(card_index: i32, device_index: i32) -> (r: String)
    ensures
        r@ == endpoint_name(card_index, device_index),
{
    let mut name = owned("hw:");
    append_signed(&mut name, card_index as i64);
    name.append(",");
    append_signed(&mut name, device_index as i64);
    name
}

/// What a card is called: its long name, or its short one, or a stand-in.
pub open spec fn card_title(card: AudioCard) -> Seq<char> {
    match (card.longname, card.name) {
        (Some(text), _) => text@,
        (None, Some(text)) => text@,
        (None, None) => "Unknown"@,
    }
}

fn title_of(card: &AudioCard) -> (r: String)
    ensures
        r@ == card_title(*card),
{
    match &card.longname {
        Some(text) => text.clone(),
        None => match &card.name {
            Some(text) => text.clone(),
            None => owned("Unknown"),
        },
    }
}

/// What is known of an endpoint before it is opened.
#[derive(Debug)]
pub struct EndpointPlan {
    pub name: String,
    pub description: String,
    pub card_index: i32,
    pub device_index: i32,
    pub is_hdmi: bool,
    pub usb_bus: Option<String>,
    /// Whether it is the endpoint that is in use.
    pub is_current: bool,
}

/// An optional string as text.
pub open spec fn opt_view(text: Option<String>) -> Option<Seq<char>> {
    match text {
        Some(t) => Some(t@),
        None => None,
    }
}

/// The description of an endpoint in the system's list, where there is a list.
pub open spec fn pcm_of(
    pcm_list: Option<String>,
    card_index: i32,
    device_index: i32,
) -> Option<Seq<char>> {
    match pcm_list {
        Some(list) => listed_description(list@, card_index, device_index),
        None => None,
    }
}

/// Whether an endpoint is to be opened: the one in use, and those that are shown.
pub open spec fn is_wanted(
    card: AudioCard,
    device_index: i32,
    pcm_list: Option<String>,
    current: Option<String>,
) -> bool {
    let pcm = pcm_of(pcm_list, card.index, device_index);
    ||| opt_view(current) == Some(endpoint_name(card.index, device_index))
    ||| is_exposed(
        card_usb(card) is Some,
        pcm is Some && names_hdmi_rx(lowercase(pcm->0)),
        names_aml_card(lowercase(card_title(card))),
    )
}

/// What the user sees of an endpoint, over plain texts.
pub open spec fn endpoint_description(
    title: Seq<char>,
    name: Seq<char>,
    pcm: Option<Seq<char>>,
    usb: Option<Seq<char>>,
) -> Seq<char> {
    if pcm is Some && names_hdmi_rx(lowercase(pcm->0)) {
        "HDMI IN Audio ("@ + name + ")"@
    } else {
        match (usb, pcm) {
            (Some(bus), _) => "USB Audio Capture "@ + bus + " ("@ + name + ")"@,
            (None, Some(text)) => title + " - "@ + text + " ("@ + name + ")"@,
            (None, None) => title + " ("@ + name + ")"@,
        }
    }
}

/// Whether a plan is that of an endpoint.
pub open spec fn is_plan(
    plan: EndpointPlan,
    card: AudioCard,
    device_index: i32,
    pcm_list: Option<String>,
    current: Option<String>,
) -> bool {
    let pcm = pcm_of(pcm_list, card.index, device_index);
    &&& plan.name@ == endpoint_name(card.index, device_index)
    &&& plan.description@ == endpoint_description(
        card_title(card),
        plan.name@,
        pcm,
        card_usb(card),
    )
    &&& plan.card_index == card.index
    &&& plan.device_index == device_index
    &&& plan.is_hdmi == carries_hdmi(
        card_title(card),
        match pcm {
            Some(text) => text,
            None => Seq::empty(),
        },
    )
    &&& opt_view(plan.usb_bus) == card_usb(card)
    &&& plan.is_current == (opt_view(current) == Some(endpoint_name(card.index, device_index)))
}

/// Plans an endpoint: nothing where it is not to be opened.
pub fn plan_endpoint(
    card: &AudioCard,
    device_index: i32,
    pcm_list: &Option<String>,
    current: &Option<String>,
) -> (r: Option<EndpointPlan>)
    ensures
        r is Some <==> is_wanted(*card, device_index, *pcm_list, *current),
        r matches Some(plan) ==> is_plan(plan, *card, device_index, *pcm_list, *current),
{
    let title = title_of(card);
    let usb_bus = get_usb_bus_info(card);
    let name = endpoint_text(card.index, device_index);
    let is_current = match current {
        Some(text) => str_same(text.as_str(), name.as_str()),
        None => false,
    };
    let pcm = match pcm_list {
        Some(list) => get_pcm_description(list.as_str(), card.index, device_index),
        None => None,
    };
    let pcm_str: Option<&str> = match &pcm {
        Some(text) => Some(text.as_str()),
        None => None,
    };
    let usb_str: Option<&str> = match &usb_bus {
        Some(text) => Some(text.as_str()),
        None => None,
    };
    if !is_current && !should_expose_capture_device(title.as_str(), pcm_str, usb_str) {
        return None;
    }
    let is_hdmi = is_hdmi_capture_device(title.as_str(), pcm_str);
    let description = friendly_audio_description(title.as_str(), name.as_str(), pcm_str, usb_str);
    Some(
        EndpointPlan {
            name,
            description,
            card_index: card.index,
            device_index,
            is_hdmi,
            usb_bus,
            is_current,
        },
    )
}

/// Whether an entry is that of a planned endpoint.
pub open spec fn is_entry(
    d: AudioDeviceInfo,
    plan: EndpointPlan,
    description: Seq<char>,
    rates: Seq<u32>,
    channels: Seq<u32>,
) -> bool {
    &&& d.name@ == plan.name@
    &&& d.description@ == description
    &&& d.card_index == plan.card_index
    &&& d.device_index == plan.device_index
    &&& d.sample_rates@ == rates
    &&& d.channels@ == channels
    &&& d.is_capture
    &&& d.is_hdmi == plan.is_hdmi
    &&& opt_view(d.usb_bus) == opt_view(plan.usb_bus)
}

/// The entry of an endpoint: one that opened and supports something, or the one in use, which
/// cannot be opened a second time.
pub open spec fn endpoint_entry(
    plan: EndpointPlan,
    probe: EndpointProbe,
    r: Option<AudioDeviceInfo>,
) -> bool {
    match probe {
        EndpointProbe::Opened { sample_rates, channels } => if sample_rates@.len() > 0
            && channels@.len() > 0 {
            r matches Some(d) && is_entry(
                d,
                plan,
                plan.description@,
                sample_rates@,
                channels@,
            )
        } else {
            r is None
        },
        EndpointProbe::Unavailable => if plan.is_current {
            r matches Some(d) && is_entry(
                d,
                plan,
                plan.description@ + " (in use)"@,
                seq![44100u32, 48000u32],
                seq![2u32],
            )
        } else {
            r is None
        },
    }
}

fn copy_numbers(v: &Vec<u32>) -> (r: Vec<u32>)
    ensures
        r@ == v@,
{
    vstd::slice::slice_to_vec(v.as_slice())
}

/// Turns a planned endpoint and what opening it came to into an entry.
pub fn endpoint_info(plan: EndpointPlan, probe: &EndpointProbe) -> (r: Option<AudioDeviceInfo>)
    ensures
        endpoint_entry(plan, *probe, r),
{
    match probe {
        EndpointProbe::Opened { sample_rates, channels } => {
            if sample_rates.len() > 0 && channels.len() > 0 {
                Some(
                    AudioDeviceInfo {
                        name: plan.name,
                        description: plan.description,
                        card_index: plan.card_index,
                        device_index: plan.device_index,
                        sample_rates: copy_numbers(sample_rates),
                        channels: copy_numbers(channels),
                        is_capture: true,
                        is_hdmi: plan.is_hdmi,
                        usb_bus: plan.usb_bus,
                    },
                )
            } else {
                None
            }
        },
        EndpointProbe::Unavailable => {
            if plan.is_current {
                let sample_rates: Vec<u32> = vec![44100, 48000];
                let channels: Vec<u32> = vec![2];
                assert(sample_rates@ == seq![44100u32, 48000u32]);
                assert(channels@ == seq![2u32]);
                Some(
                    AudioDeviceInfo {
                        name: plan.name,
                        description: joined(plan.description.as_str(), " (in use)"),
                        card_index: plan.card_index,
                        device_index: plan.device_index,
                        sample_rates,
                        channels,
                        is_capture: true,
                        is_hdmi: plan.is_hdmi,
                        usb_bus: plan.usb_bus,
                    },
                )
            } else {
                None
            }
        },
    }
}

/// The rates that an endpoint is asked about.
pub fn common_rates() -> (r: Vec<u32>)
    ensures
        r@ == seq![8000u32, 16000u32, 22050u32, 44100u32, 48000u32, 96000u32],
{
    let r: Vec<u32> = vec![8000, 16000, 22050, 44100, 48000, 96000];
    assert(r@ == seq![8000u32, 16000u32, 22050u32, 44100u32, 48000u32, 96000u32]);
    r
}

/// The channel counts that an endpoint is asked about.
pub fn channel_counts() -> (r: Vec<u32>)
    ensures
        r@ == seq![1u32, 2u32, 3u32, 4u32, 5u32, 6u32, 7u32, 8u32],
{
    let r: Vec<u32> = vec![1, 2, 3, 4, 5, 6, 7, 8];
    assert(r@ == seq![1u32, 2u32, 3u32, 4u32, 5u32, 6u32, 7u32, 8u32]);
    r
}

/// Those of the candidates that were answered with yes, in order.
pub open spec fn supported(candidates: Seq<u32>, answers: Seq<bool>) -> Seq<u32>
    decreases candidates.len(),
{
    if candidates.len() == 0 || answers.len() < candidates.len() {
        Seq::empty()
    } else {
        let rest = supported(candidates.drop_last(), answers);
        if answers[candidates.len() - 1] {
            rest.push(candidates.last())
        } else {
            rest
        }
    }
}

/// Keeps the candidates that were answered with yes.
pub fn query_device_caps(candidates: &Vec<u32>, answers: &Vec<bool>) -> (r: Vec<u32>)
    requires
        answers@.len() == candidates@.len(),
    ensures
        r@ == supported(candidates@, answers@),
{
    let mut out: Vec<u32> = Vec::new();
    let mut i: usize = 0;
    assert(candidates@.take(0) == Seq::<u32>::empty());
    while i < candidates.len()
        invariant
            i <= candidates@.len(),
            answers@.len() == candidates@.len(),
            out@ == supported(candidates@.take(i as int), answers@),
        decreases candidates.len() - i,
    {
        assert(candidates@.take(i + 1).drop_last() == candidates@.take(i as int));
        if answers[i] {
            out.push(candidates[i]);
        }
        i = i + 1;
    }
    assert(candidates@.take(i as int) == candidates@);
    out
}

// ---------------------------------------------------------------- the list

/// An entry of the list, over plain values.
#[verifier::ext_equal]
pub struct AudioEntry {
    pub name: Seq<char>,
    pub description: Seq<char>,
    pub card_index: i32,
    pub device_index: i32,
    pub sample_rates: Seq<u32>,
    pub channels: Seq<u32>,
    pub is_capture: bool,
    pub is_hdmi: bool,
    pub usb_bus: Option<Seq<char>>,
}

/// What an entry says.
pub open spec fn entry_of(d: AudioDeviceInfo) -> AudioEntry {
    AudioEntry {
        name: d.name@,
        description: d.description@,
        card_index: d.card_index,
        device_index: d.device_index,
        sample_rates: d.sample_rates@,
        channels: d.channels@,
        is_capture: d.is_capture,
        is_hdmi: d.is_hdmi,
        usb_bus: opt_view(d.usb_bus),
    }
}

/// What several entries say.
pub open spec fn entries_of(devices: Seq<AudioDeviceInfo>) -> Seq<AudioEntry> {
    devices.map_values(|d: AudioDeviceInfo| entry_of(d))
}

/// The entry of an endpoint, if it gets one.
pub open spec fn entry_for(
    card: AudioCard,
    device_index: i32,
    pcm_list: Option<String>,
    current: Option<String>,
    probe: EndpointProbe,
) -> Option<AudioEntry> {
    let name = endpoint_name(card.index, device_index);
    let pcm = pcm_of(pcm_list, card.index, device_index);
    let description = endpoint_description(card_title(card), name, pcm, card_usb(card));
    let base = AudioEntry {
        name,
        description,
        card_index: card.index,
        device_index,
        sample_rates: Seq::empty(),
        channels: Seq::empty(),
        is_capture: true,
        is_hdmi: carries_hdmi(
            card_title(card),
            match pcm {
                Some(text) => text,
                None => Seq::empty(),
            },
        ),
        usb_bus: card_usb(card),
    };
    if !is_wanted(card, device_index, pcm_list, current) {
        None
    } else {
        match probe {
            EndpointProbe::Opened { sample_rates, channels } => if sample_rates@.len() > 0
                && channels@.len() > 0 {
                Some(AudioEntry { sample_rates: sample_rates@, channels: channels@, ..base })
            } else {
                None
            },
            EndpointProbe::Unavailable => if opt_view(current) == Some(name) {
                Some(
                    AudioEntry {
                        description: description + " (in use)"@,
                        sample_rates: seq![44100u32, 48000u32],
                        channels: seq![2u32],
                        ..base
                    },
                )
            } else {
                None
            },
        }
    }
}

/// A card, with what trying to open its endpoints came to.
#[derive(Debug)]
pub struct CardProbes {
    pub card: AudioCard,
    pub endpoints: Vec<EndpointProbe>,
}

/// What trying to open an endpoint came to; one that was not tried counts as not opened.
pub open spec fn probe_at(endpoints: Seq<EndpointProbe>, i: int) -> EndpointProbe {
    if 0 <= i < endpoints.len() {
        endpoints[i]
    } else {
        EndpointProbe::Unavailable
    }
}

/// The entries of a card's first endpoints.
pub open spec fn card_entries(
    c: CardProbes,
    pcm_list: Option<String>,
    current: Option<String>,
    n: nat,
) -> Seq<AudioEntry>
    decreases n,
{
    if n == 0 {
        Seq::empty()
    } else {
        let before = card_entries(c, pcm_list, current, (n - 1) as nat);
        match entry_for(
            c.card,
            (n - 1) as i32,
            pcm_list,
            current,
            probe_at(c.endpoints@, n - 1),
        ) {
            Some(entry) => before.push(entry),
            None => before,
        }
    }
}

/// The entries of all cards, card by card.
pub open spec fn all_entries(
    cards: Seq<CardProbes>,
    pcm_list: Option<String>,
    current: Option<String>,
) -> Seq<AudioEntry>
    decreases cards.len(),
{
    if cards.len() == 0 {
        Seq::empty()
    } else {
        all_entries(cards.drop_last(), pcm_list, current) + card_entries(
            cards.last(),
            pcm_list,
            current,
            ENDPOINTS_PER_CARD as nat,
        )
    }
}

fn push_card_entries(
    out: &mut Vec<AudioDeviceInfo>,
    c: &CardProbes,
    pcm_list: &Option<String>,
    current: &Option<String>,
)
    ensures
        entries_of(final(out)@) == entries_of(old(out)@) + card_entries(
            *c,
            *pcm_list,
            *current,
            ENDPOINTS_PER_CARD as nat,
        ),
{
    let ghost start = entries_of(out@);
    assert(start + Seq::<AudioEntry>::empty() == start);
    let unavailable = EndpointProbe::Unavailable;
    let mut i: usize = 0;
    while i < ENDPOINTS_PER_CARD
        invariant
            i <= ENDPOINTS_PER_CARD,
            unavailable == EndpointProbe::Unavailable,
            entries_of(out@) == start + card_entries(*c, *pcm_list, *current, i as nat),
        decreases ENDPOINTS_PER_CARD - i,
    {
        let ghost before = out@;
        let ghost sofar = card_entries(*c, *pcm_list, *current, i as nat);
        let probe = if i < c.endpoints.len() {
            &c.endpoints[i]
        } else {
            &unavailable
        };
        let device_index: i32 = i as i32;
        match plan_endpoint(&c.card, device_index, pcm_list, current) {
            Some(plan) => match endpoint_info(plan, probe) {
                Some(device) => {
                    assert(Some(entry_of(device)) == entry_for(
                        c.card,
                        device_index,
                        *pcm_list,
                        *current,
                        *probe,
                    ));
                    out.push(device);
                    assert(entries_of(out@) == entries_of(before).push(entry_of(device)));
                    assert(entries_of(out@) == start + sofar.push(entry_of(device)));
                },
                None => {},
            },
            None => {},
        }
        i = i + 1;
    }
}

/// Lists the capture devices of all cards, the one in use among them.
pub fn enumerate_audio_devices_with_current(
    cards: &Vec<CardProbes>,
    pcm_list: &Option<String>,
    current: &Option<String>,
) -> (r: Result<Vec<AudioDeviceInfo>, AppError>)
    ensures
        r matches Ok(devices) && entries_of(devices@) == all_entries(cards@, *pcm_list, *current),
{
    let mut devices: Vec<AudioDeviceInfo> = Vec::new();
    let mut i: usize = 0;
    assert(cards@.take(0) == Seq::<CardProbes>::empty());
    assert(entries_of(devices@) == Seq::<AudioEntry>::empty());
    while i < cards.len()
        invariant
            i <= cards@.len(),
            entries_of(devices@) == all_entries(cards@.take(i as int), *pcm_list, *current),
        decreases cards.len() - i,
    {
        push_card_entries(&mut devices, &cards[i], pcm_list, current);
        assert(cards@.take(i + 1).drop_last() == cards@.take(i as int));
        i = i + 1;
    }
    assert(cards@.take(i as int) == cards@);
    Ok(devices)
}

/// Lists the capture devices of all cards.
pub fn enumerate_audio_devices(cards: &Vec<CardProbes>, pcm_list: &Option<String>) -> (r: Result<
    Vec<AudioDeviceInfo>,
    AppError,
>)
    ensures
        r matches Ok(devices) && entries_of(devices@) == all_entries(cards@, *pcm_list, None),
{
    enumerate_audio_devices_with_current(cards, pcm_list, &None)
}

// ---------------------------------------------------------------- the best device

/// What the choice among devices depends on.
#[derive(Debug, Clone, Copy, PartialEq, Eq, Structural)]
pub struct AudioClass {
    /// Whether the device captures stereo at 48 kHz.
    pub suits: bool,
    /// Whether it is the HDMI receiver.
    pub is_rx: bool,
    /// Whether it carries the picture's sound.
    pub is_hdmi: bool,
}

/// Whether a position is that of the first suitable HDMI receiver.
pub open spec fn first_rx(classes: Seq<AudioClass>, i: int) -> bool {
    &&& 0 <= i < classes.len()
    &&& classes[i].suits && classes[i].is_rx
    &&& forall|j: int| 0 <= j < i ==> !((#[trigger] classes[j]).suits && classes[j].is_rx)
}

/// Whether a position is that of the first suitable device with the picture's sound.
pub open spec fn first_hdmi(classes: Seq<AudioClass>, i: int) -> bool {
    &&& 0 <= i < classes.len()
    &&& classes[i].suits && classes[i].is_hdmi
    &&& forall|j: int| 0 <= j < i ==> !((#[trigger] classes[j]).suits && classes[j].is_hdmi)
}

/// Whether a position is that of the first suitable device.
pub open spec fn first_suiting(classes: Seq<AudioClass>, i: int) -> bool {
    &&& 0 <= i < classes.len()
    &&& classes[i].suits
    &&& forall|j: int| 0 <= j < i ==> !(#[trigger] classes[j]).suits
}

/// Whether a position is that of the best device: the first suitable HDMI receiver, or else the
/// first suitable one with the picture's sound, or else the first suitable one, or else the
/// first.
pub open spec fn is_best(classes: Seq<AudioClass>, i: int) -> bool {
    let no_rx = forall|j: int|
        0 <= j < classes.len() ==> !((#[trigger] classes[j]).suits && classes[j].is_rx);
    let no_hdmi = forall|j: int|
        0 <= j < classes.len() ==> !((#[trigger] classes[j]).suits && classes[j].is_hdmi);
    let none_suits = forall|j: int| 0 <= j < classes.len() ==> !(#[trigger] classes[j]).suits;
    ||| first_rx(classes, i)
    ||| no_rx && first_hdmi(classes, i)
    ||| no_rx && no_hdmi && first_suiting(classes, i)
    ||| none_suits && i == 0
}

/// Finds the best device.
pub fn best_position(classes: &Vec<AudioClass>) -> (r: usize)
    requires
        classes@.len() > 0,
    ensures
        r < classes@.len(),
        is_best(classes@, r as int),
{
    let n: usize = classes.len();
    let mut hdmi: usize = n;
    let mut plain: usize = n;
    let mut i: usize = 0;
    while i < n
        invariant
            n == classes@.len(),
            i <= n,
            forall|j: int| 0 <= j < i ==> !((#[trigger] classes@[j]).suits && classes@[j].is_rx),
            hdmi < n ==> hdmi < i && first_hdmi(classes@, hdmi as int),
            hdmi >= n ==> forall|j: int|
                0 <= j < i ==> !((#[trigger] classes@[j]).suits && classes@[j].is_hdmi),
            plain < n ==> plain < i && classes@[plain as int].suits
                && !classes@[plain as int].is_hdmi && forall|j: int|
                0 <= j < plain ==> !((#[trigger] classes@[j]).suits && !classes@[j].is_hdmi),
            plain >= n ==> forall|j: int|
                0 <= j < i ==> !((#[trigger] classes@[j]).suits && !classes@[j].is_hdmi),
        decreases n - i,
    {
        let class = classes[i];
        if class.suits {
            if class.is_rx {
                assert(first_rx(classes@, i as int));
                return i;
            }
            if class.is_hdmi {
                if hdmi >= n {
                    hdmi = i;
                }
            } else if plain >= n {
                plain = i;
            }
        }
        i = i + 1;
    }
    if hdmi < n {
        return hdmi;
    }
    if plain < n {
        assert(first_suiting(classes@, plain as int));
        return plain;
    }
    0
}

/// Whether a device is the HDMI receiver, by its description.
pub open spec fn is_rx_device(d: AudioDeviceInfo) -> bool {
    names_hdmi_rx(lowercase(d.description@)) || contains(
        lowercase(d.description@),
        "hdmi in audio"@,
    )
}

/// Whether a device is the HDMI receiver.
pub fn is_hdmi_rx_device(device: &AudioDeviceInfo) -> (r: bool)
    ensures
        r == is_rx_device(*device),
{
    let lowered = lowercased(device.description.as_str());
    lowered_names_hdmi_rx(lowered.as_str()) || str_has(lowered.as_str(), "hdmi in audio")
}

/// What the choice of a device depends on.
pub open spec fn class_of(d: AudioDeviceInfo) -> AudioClass {
    AudioClass {
        suits: d.sample_rates@.contains(48000) && d.channels@.contains(2),
        is_rx: is_rx_device(d),
        is_hdmi: d.is_hdmi,
    }
}

fn has_number(v: &Vec<u32>, n: u32) -> (r: bool)
    ensures
        r == v@.contains(n),
{
    let mut i: usize = 0;
    while i < v.len()
        invariant
            i <= v@.len(),
            forall|j: int| 0 <= j < i ==> v@[j] != n,
        decreases v.len() - i,
    {
        if v[i] == n {
            assert(v@[i as int] == n);
            return true;
        }
        i = i + 1;
    }
    false
}

/// Picks the device to capture from.
pub fn find_best_audio_device(devices: Vec<AudioDeviceInfo>) -> (r: Result<
    AudioDeviceInfo,
    AppError,
>)
    ensures
        r is Ok <==> devices@.len() > 0,
        match r {
            Ok(d) => exists|i: int|
                #![trigger devices@[i]]
                0 <= i < devices@.len() && d == devices@[i] && is_best(
                    devices@.map_values(|x: AudioDeviceInfo| class_of(x)),
                    i,
                ),
            Err(e) => e matches AppError::AudioError(m) && m@ == "No audio capture devices found"@,
        },
{
    if devices.len() == 0 {
        return Err(AppError::AudioError(owned("No audio capture devices found")));
    }
    let mut classes: Vec<AudioClass> = Vec::new();
    let mut i: usize = 0;
    while i < devices.len()
        invariant
            i <= devices@.len(),
            classes@.len() == i,
            forall|j: int| 0 <= j < i ==> classes@[j] == class_of(devices@[j]),
        decreases devices.len() - i,
    {
        let d = &devices[i];
        classes.push(
            AudioClass {
                suits: has_number(&d.sample_rates, 48000) && has_number(&d.channels, 2),
                is_rx: is_hdmi_rx_device(d),
                is_hdmi: d.is_hdmi,
            },
        );
        i = i + 1;
    }
    assert(classes@ == devices@.map_values(|x: AudioDeviceInfo| class_of(x)));
    let best: usize = best_position(&classes);
    let ghost all = devices@;
    let mut devices = devices;
    assert(all[best as int] == devices@[best as int]);
    Ok(devices.remove(best))
}

// ---------------------------------------------------------------- laws

/// A suitable device is preferred to any that is not, and among suitable ones the HDMI receiver
/// to any other and the picture's sound to any other sound.
pub proof fn better_devices_are_preferred(classes: Seq<AudioClass>, best: int, other: int)
    requires
        is_best(classes, best),
        0 <= best < classes.len(),
        0 <= other < classes.len(),
    ensures
        classes[other].suits ==> classes[best].suits,
        classes[other].suits && classes[other].is_rx ==> classes[best].is_rx,
        classes[other].suits && classes[other].is_hdmi ==> classes[best].is_rx
            || classes[best].is_hdmi,
{
}

/// The endpoint in use is always wanted, whatever it is called.
pub proof fn current_endpoint_is_always_wanted(
    card: AudioCard,
    device_index: i32,
    pcm_list: Option<String>,
    current: Option<String>,
)
    requires
        opt_view(current) == Some(endpoint_name(card.index, device_index)),
    ensures
        is_wanted(card, device_index, pcm_list, current),
{
}

/// The entry of an endpoint that opened is that endpoint's, field by field, with the rates and the
/// channels that it supports; one that supports nothing has none. Of the endpoints that do not
/// open only the one in use has an entry, marked as such, with the usual rates.
pub proof fn an_entry_is_its_endpoints(
    card: AudioCard,
    device_index: i32,
    pcm_list: Option<String>,
    current: Option<String>,
    probe: EndpointProbe,
)
    ensures
        ({
            let entry = entry_for(card, device_index, pcm_list, current, probe);
            let name = "hw:"@ + signed_decimal(card.index as int) + ","@ + signed_decimal(
                device_index as int,
            );
            let in_use = current is Some && current->0@ == name;
            &&& entry is Some ==> {
                &&& entry->0.name == name
                &&& entry->0.card_index == card.index && entry->0.device_index == device_index
                &&& entry->0.is_capture
                &&& entry->0.usb_bus == card_usb(card)
                &&& is_wanted(card, device_index, pcm_list, current)
            }
            &&& probe matches EndpointProbe::Opened { sample_rates, channels } ==> {
                &&& sample_rates@.len() == 0 || channels@.len() == 0 ==> entry is None
                &&& sample_rates@.len() > 0 && channels@.len() > 0 && is_wanted(
                    card,
                    device_index,
                    pcm_list,
                    current,
                ) ==> entry is Some && entry->0.sample_rates == sample_rates@ && entry->0.channels
                    == channels@ && entry->0.description == endpoint_description(
                    card_title(card),
                    name,
                    pcm_of(pcm_list, card.index, device_index),
                    card_usb(card),
                )
            }
            &&& probe is Unavailable ==> (entry is Some <==> in_use)
            &&& probe is Unavailable && in_use ==> {
                &&& entry->0.description == endpoint_description(
                    card_title(card),
                    name,
                    pcm_of(pcm_list, card.index, device_index),
                    card_usb(card),
                ) + " (in use)"@
                &&& entry->0.sample_rates.len() == 2 && entry->0.sample_rates[0] == 44100
                    && entry->0.sample_rates[1] == 48000
                &&& entry->0.channels.len() == 1 && entry->0.channels[0] == 2
            }
        }),
{
}

/// USB endpoints and the HDMI receiver are always shown; of the system's own card nothing else
/// is, and of every other card everything.
pub proof fn which_endpoints_are_shown(is_usb: bool, is_rx: bool, is_aml: bool)
    ensures
        is_usb ==> is_exposed(is_usb, is_rx, is_aml),
        is_rx ==> is_exposed(is_usb, is_rx, is_aml),
        !is_aml ==> is_exposed(is_usb, is_rx, is_aml),
        is_aml && !is_usb && !is_rx ==> !is_exposed(is_usb, is_rx, is_aml),
{
}

/// The words by which endpoints and cards are known, in small letters.
pub proof fn names_tell_the_kind(card: Seq<char>, pcm: Seq<char>, is_rx: bool)
    ensures
        names_hdmi_rx(pcm) <==> contains(pcm, "hdmirx"@) || contains(pcm, "hdmi-rx"@) || contains(
            pcm,
            "i2s4hdmirx"@,
        ),
        names_aml_card(card) <==> contains(card, "aml-augesound"@) || contains(card, "amlogic"@),
        is_rx ==> names_capture(card, pcm, is_rx),
        contains(pcm, "usb"@) || contains(card, "usb"@) ==> names_capture(card, pcm, is_rx),
        contains(pcm, "hdmi"@) && !contains(pcm, "spdif"@) ==> names_capture(card, pcm, is_rx),
        !is_rx && !contains(pcm, "usb"@) && !contains(card, "usb"@) && (!contains(pcm, "hdmi"@)
            || contains(pcm, "spdif"@)) ==> !names_capture(card, pcm, is_rx),
{
}

/// What the user reads: the HDMI input by that name, a USB device with its place, anything else by
/// its card and what the system's list says; always with the endpoint's own name.
pub proof fn what_the_user_reads(
    title: Seq<char>,
    name: Seq<char>,
    pcm: Option<Seq<char>>,
    usb: Option<Seq<char>>,
)
    ensures
        ({
            let text = endpoint_description(title, name, pcm, usb);
            let is_rx = pcm is Some && names_hdmi_rx(lowercase(pcm->0));
            &&& is_rx ==> text == "HDMI IN Audio ("@ + name + ")"@
            &&& !is_rx && usb is Some ==> text == "USB Audio Capture "@ + usb->0 + " ("@ + name
                + ")"@
            &&& !is_rx && usb is None && pcm is Some ==> text == title + " - "@ + pcm->0 + " ("@
                + name + ")"@
            &&& usb is None && pcm is None ==> text == title + " ("@ + name + ")"@
        }),
{
}

/// The function that names an endpoint and the list agree.
pub proof fn both_names_agree(
    title: Seq<char>,
    name: Seq<char>,
    pcm: Option<&str>,
    usb: Option<&str>,
)
    ensures
        friendly_text(title, name, pcm, usb, pcm_is_rx(pcm)) == endpoint_description(
            title,
            name,
            match pcm {
                Some(t) => Some(t@),
                None => None,
            },
            match usb {
                Some(t) => Some(t@),
                None => None,
            },
        ),
{
}

/// The candidates that were answered with yes are kept, and no others.
pub proof fn yes_keeps_a_candidate(candidates: Seq<u32>, answers: Seq<bool>, x: u32)
    requires
        answers.len() >= candidates.len(),
    ensures
        supported(candidates, answers).contains(x) <==> exists|i: int|
            0 <= i < candidates.len() && answers[i] && #[trigger] candidates[i] == x,
        supported(candidates, answers).len() <= candidates.len(),
    decreases candidates.len(),
{
    let kept = supported(candidates, answers);
    if candidates.len() > 0 {
        let n = candidates.len() - 1;
        let front = candidates.drop_last();
        let rest = supported(front, answers);
        yes_keeps_a_candidate(front, answers, x);
        if kept.contains(x) {
            let k = choose|k: int| 0 <= k < kept.len() && kept[k] == x;
            if k < rest.len() {
                assert(rest[k] == x);
                assert(rest.contains(x));
                let i = choose|i: int|
                    0 <= i < front.len() && answers[i] && #[trigger] front[i] == x;
                assert(candidates[i] == x);
            } else {
                assert(candidates[n] == x && answers[n]);
            }
        }
        if exists|i: int| 0 <= i < candidates.len() && answers[i] && #[trigger] candidates[i] == x {
            let i = choose|i: int|
                0 <= i < candidates.len() && answers[i] && #[trigger] candidates[i] == x;
            if i < n {
                assert(front[i] == x);
                let k = choose|k: int| 0 <= k < rest.len() && rest[k] == x;
                assert(kept[k] == x);
            } else {
                assert(kept[kept.len() - 1] == x);
            }
        }
    }
}

/// What is kept stays in order.
pub proof fn kept_candidates_stay_in_order(candidates: Seq<u32>, answers: Seq<bool>)
    requires
        answers.len() >= candidates.len(),
        forall|i: int, j: int| 0 <= i < j < candidates.len() ==> candidates[i] < candidates[j],
    ensures
        forall|i: int, j: int|
            0 <= i < j < supported(candidates, answers).len() ==> supported(candidates, answers)[i]
                < supported(candidates, answers)[j],
    decreases candidates.len(),
{
    if candidates.len() > 0 {
        let n = candidates.len() - 1;
        let front = candidates.drop_last();
        let rest = supported(front, answers);
        kept_candidates_stay_in_order(front, answers);
        assert forall|i: int| 0 <= i < rest.len() implies #[trigger] rest[i] < candidates[n] by {
            yes_keeps_a_candidate(front, answers, rest[i]);
            assert(rest.contains(rest[i]));
            let k = choose|k: int|
                0 <= k < front.len() && answers[k] && #[trigger] front[k] == rest[i];
            assert(candidates[k] < candidates[n]);
        }
    }
}

/// The place of a USB card is the first part of its path that is one: a digit in front, a hyphen
/// in it and no colon.
pub proof fn the_first_usb_place_counts(parts: Seq<Seq<char>>)
    ensures
        match first_usb_place(parts) {
            Some(place) => exists|i: int|
                0 <= i < parts.len() && #[trigger] parts[i] == place && place.len() > 0 && '0'
                    <= place[0] <= '9' && place.contains('-') && !place.contains(':') && (forall|
                    j: int,
                |
                    0 <= j < i ==> !is_usb_place(#[trigger] parts[j])),
            None => forall|j: int|
                0 <= j < parts.len() ==> !((#[trigger] parts[j]).contains('-') && !parts[j].contains(
                    ':',
                ) && parts[j].len() > 0 && '0' <= parts[j][0] <= '9'),
        },
    decreases parts.len(),
{
    if parts.len() > 0 {
        if is_usb_place(parts[0]) {
            assert(parts[0] == first_usb_place(parts)->0);
        } else {
            let rest = parts.skip(1);
            the_first_usb_place_counts(rest);
            match first_usb_place(parts) {
                Some(place) => {
                    let i = choose|i: int|
                        0 <= i < rest.len() && #[trigger] rest[i] == place && place.len() > 0 && '0'
                            <= place[0] <= '9' && place.contains('-') && !place.contains(':') && (
                        forall|j: int| 0 <= j < i ==> !is_usb_place(#[trigger] rest[j]));
                    assert(parts[i + 1] == place);
                    assert forall|j: int| 0 <= j < i + 1 implies !is_usb_place(
                        #[trigger] parts[j],
                    ) by {
                        if j > 0 {
                            assert(rest[j - 1] == parts[j]);
                        }
                    }
                },
                None => {
                    assert forall|j: int| 0 <= j < parts.len() implies !((
                    #[trigger] parts[j]).contains('-') && !parts[j].contains(':') && parts[j].len()
                        > 0 && '0' <= parts[j][0] <= '9') by {
                        if j > 0 {
                            assert(rest[j - 1] == parts[j]);
                        }
                    }
                },
            }
        }
    }
}

/// The first line of an endpoint counts, and what is read is what stands behind its number.
pub proof fn the_first_line_of_an_endpoint_counts(rows: Seq<Seq<char>>, prefix: Seq<char>)
    ensures
        match first_rest(rows, prefix) {
            Some(rest) => exists|i: int|
                0 <= i < rows.len() && #[trigger] rows[i] == prefix + rest && (forall|j: int|
                    0 <= j < i ==> !prefix.is_prefix_of(#[trigger] rows[j])),
            None => forall|j: int|
                0 <= j < rows.len() ==> !prefix.is_prefix_of(#[trigger] rows[j]),
        },
    decreases rows.len(),
{
    if rows.len() > 0 {
        let row = rows[0];
        if starts_with(row, prefix) {
            assert(row =~= prefix + row.skip(prefix.len() as int));
            assert(rows[0] == prefix + first_rest(rows, prefix)->0);
        } else {
            if prefix.is_prefix_of(row) {
                assert(row.take(prefix.len() as int) =~= prefix);
            }
            let later = rows.skip(1);
            the_first_line_of_an_endpoint_counts(later, prefix);
            match first_rest(rows, prefix) {
                Some(rest) => {
                    let i = choose|i: int|
                        0 <= i < later.len() && #[trigger] later[i] == prefix + rest && (forall|
                            j: int,
                        |
                            0 <= j < i ==> !prefix.is_prefix_of(#[trigger] later[j]));
                    assert(rows[i + 1] == prefix + rest);
                    assert forall|j: int| 0 <= j < i + 1 implies !prefix.is_prefix_of(
                        #[trigger] rows[j],
                    ) by {
                        if j > 0 {
                            assert(later[j - 1] == rows[j]);
                        }
                    }
                },
                None => {
                    assert forall|j: int| 0 <= j < rows.len() implies !prefix.is_prefix_of(
                        #[trigger] rows[j],
                    ) by {
                        if j > 0 {
                            assert(later[j - 1] == rows[j]);
                        }
                    }
                },
            }
        }
    }
}

/// Card and endpoint numbers below one hundred are written with two digits.
pub proof fn numbers_have_two_places(n: i32)
    requires
        0 <= n < 100,
    ensures
        two_places(n).len() == 2,
        two_places(n)[0] as u32 == 0x30 + n / 10,
        two_places(n)[1] as u32 == 0x30 + n % 10,
{
    reveal_strlit("0");
    reveal_with_fuel(decimal, 3);
}

/// Every endpoint of every card that gets an entry is in the list, and nothing else is: the
/// entries of the first nine endpoints.
pub proof fn every_endpoint_is_listed(
    c: CardProbes,
    pcm_list: Option<String>,
    current: Option<String>,
    n: nat,
    entry: AudioEntry,
)
    requires
        n <= 9,
    ensures
        card_entries(c, pcm_list, current, n).contains(entry) <==> exists|i: int|
            0 <= i < n && #[trigger] entry_for(
                c.card,
                i as i32,
                pcm_list,
                current,
                probe_at(c.endpoints@, i),
            ) == Some(entry),
    decreases n,
{
    let all = card_entries(c, pcm_list, current, n);
    if n > 0 {
        let m = (n - 1) as nat;
        let front = card_entries(c, pcm_list, current, m);
        every_endpoint_is_listed(c, pcm_list, current, m, entry);
        let last = entry_for(
            c.card,
            m as int as i32,
            pcm_list,
            current,
            probe_at(c.endpoints@, m as int),
        );
        if all.contains(entry) {
            let k = choose|k: int| 0 <= k < all.len() && all[k] == entry;
            if k < front.len() {
                assert(front[k] == entry);
                assert(front.contains(entry));
            } else {
                assert(last == Some(entry));
            }
        }
        if front.contains(entry) {
            let k = choose|k: int| 0 <= k < front.len() && front[k] == entry;
            assert(all[k] == entry);
        }
        if last == Some(entry) {
            assert(all[all.len() - 1] == entry);
        }
    }
}

/// The list has the entries of every card, and no others.
pub proof fn every_card_is_listed(
    cards: Seq<CardProbes>,
    pcm_list: Option<String>,
    current: Option<String>,
    entry: AudioEntry,
)
    ensures
        all_entries(cards, pcm_list, current).contains(entry) <==> exists|k: int, i: int|
            #![trigger cards[k], probe_at(cards[k].endpoints@, i)]
            0 <= k < cards.len() && 0 <= i < 9 && entry_for(
                cards[k].card,
                i as i32,
                pcm_list,
                current,
                probe_at(cards[k].endpoints@, i),
            ) == Some(entry),
    decreases cards.len(),
{
    let all = all_entries(cards, pcm_list, current);
    if cards.len() > 0 {
        let front = cards.drop_last();
        let n = cards.len() - 1;
        let before = all_entries(front, pcm_list, current);
        let last = card_entries(cards.last(), pcm_list, current, 9);
        every_card_is_listed(front, pcm_list, current, entry);
        every_endpoint_is_listed(cards.last(), pcm_list, current, 9, entry);
        if all.contains(entry) {
            let k = choose|k: int| 0 <= k < all.len() && all[k] == entry;
            if k < before.len() {
                assert(before[k] == entry);
                assert(before.contains(entry));
                let (c, i) = choose|c: int, i: int|
                    #![trigger front[c], probe_at(front[c].endpoints@, i)]
                    0 <= c < front.len() && 0 <= i < 9 && entry_for(
                        front[c].card,
                        i as i32,
                        pcm_list,
                        current,
                        probe_at(front[c].endpoints@, i),
                    ) == Some(entry);
                assert(cards[c] == front[c]);
                assert(probe_at(cards[c].endpoints@, i) == probe_at(front[c].endpoints@, i));
            } else {
                assert(last[k - before.len()] == entry);
                assert(last.contains(entry));
                let i = choose|i: int|
                    0 <= i < 9 && #[trigger] entry_for(
                        cards.last().card,
                        i as i32,
                        pcm_list,
                        current,
                        probe_at(cards.last().endpoints@, i),
                    ) == Some(entry);
                assert(cards[n] == cards.last());
                assert(probe_at(cards[n].endpoints@, i) == probe_at(cards.last().endpoints@, i));
            }
        }
        if exists|k: int, i: int|
            #![trigger cards[k], probe_at(cards[k].endpoints@, i)]
            0 <= k < cards.len() && 0 <= i < 9 && entry_for(
                cards[k].card,
                i as i32,
                pcm_list,
                current,
                probe_at(cards[k].endpoints@, i),
            ) == Some(entry) {
            let (c, i) = choose|k: int, i: int|
                #![trigger cards[k], probe_at(cards[k].endpoints@, i)]
                0 <= k < cards.len() && 0 <= i < 9 && entry_for(
                    cards[k].card,
                    i as i32,
                    pcm_list,
                    current,
                    probe_at(cards[k].endpoints@, i),
                ) == Some(entry);
            if c < n {
                assert(front[c] == cards[c]);
                assert(probe_at(front[c].endpoints@, i) == probe_at(cards[c].endpoints@, i));
                assert(before.contains(entry));
                let k = choose|k: int| 0 <= k < before.len() && before[k] == entry;
                assert(all[k] == entry);
            } else {
                assert(cards[n] == cards.last());
                assert(entry_for(
                    cards.last().card,
                    i as i32,
                    pcm_list,
                    current,
                    probe_at(cards.last().endpoints@, i),
                ) == Some(entry));
                assert(last.contains(entry));
                let k = choose|k: int| 0 <= k < last.len() && last[k] == entry;
                assert(all[before.len() + k] == entry);
            }
        }
    }
}

/// A device suits where it captures stereo at 48 kHz; it is the HDMI receiver where its
/// description says so.
pub proof fn what_the_choice_depends_on(d: AudioDeviceInfo)
    ensures
        class_of(d).suits <==> d.sample_rates@.contains(48000) && d.channels@.contains(2),
        class_of(d).is_hdmi == d.is_hdmi,
        contains(lowercase(d.description@), "hdmi in audio"@) ==> class_of(d).is_rx,
        names_hdmi_rx(lowercase(d.description@)) ==> class_of(d).is_rx,
        !contains(lowercase(d.description@), "hdmi in audio"@) && !names_hdmi_rx(
            lowercase(d.description@),
        ) ==> !class_of(d).is_rx,
{
}

/// What the system's list says of an endpoint is the field behind its number, up to the next
/// separator, without the white space around it; an empty field says nothing.
pub proof fn what_is_listed_of_an_endpoint(
    list: Seq<char>,
    card_index: i32,
    device_index: i32,
    rest: Seq<char>,
)
    requires
        first_rest(
            lines(list),
            two_places(card_index) + "-"@ + two_places(device_index) + ":"@,
        ) == Some(rest),
    ensures
        ({
            let field = trim(before(trim(rest), " : "@));
            &&& field.len() > 0 ==> listed_description(list, card_index, device_index) == Some(
                field,
            )
            &&& field.len() == 0 ==> listed_description(list, card_index, device_index) is None
        }),
        ENDPOINTS_PER_CARD == 9,
{
}

} // verus!
