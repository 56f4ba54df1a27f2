//! Discovery by multicast DNS.
use crate::bytes::{be16, be32, from_be16, push_be16, push_be32, read_be16};
use crate::text::{
    char_is_space, first_index, is_space, lower, owned, read_utf8, same, split, split_at_char,
    str_chars, string_of, to_lower, utf8_decoded, views,
};
use vstd::prelude::*;
use vstd::slice::slice_subrange;
use vstd::string::StringExecFns;
use vstd::utf8::*;

verus! {

/// The name of the service.
pub const MDNS_SERVICE: &'static str = "_nvstream._tcp.local";

/// The port of multicast DNS.
pub const MDNS_PORT: u16 = 5353;

// ---------------------------------------------------------------- host labels

/// What one character of a host name contributes to its label.
pub open spec fn label_char(c: char) -> Seq<char> {
    if ('a' <= c <= 'z') || ('A' <= c <= 'Z') || ('0' <= c <= '9') || c == '-' {
        seq![c]
    } else if is_space(c) || c == '_' {
        seq!['-']
    } else {
        Seq::empty()
    }
}

/// The characters of a host name's label, with hyphens at its ends.
pub open spec fn label_chars(s: Seq<char>) -> Seq<char>
    decreases s.len(),
{
    if s.len() == 0 {
        Seq::empty()
    } else {
        label_chars(s.drop_last()) + label_char(s.last())
    }
}

/// A text without the hyphens at its front.
pub open spec fn strip_front(s: Seq<char>) -> Seq<char>
    decreases s.len(),
{
    if s.len() > 0 && s[0] == '-' {
        strip_front(s.drop_first())
    } else {
        s
    }
}

/// A text without the occurrences of a character at its end.
pub open spec fn strip_back(s: Seq<char>, c: char) -> Seq<char>
    decreases s.len(),
{
    if s.len() > 0 && s.last() == c {
        strip_back(s.drop_last(), c)
    } else {
        s
    }
}

/// The label that a host name gives: letters, digits and hyphens, no hyphen at either end, and
/// a fixed one where nothing is left.
pub open spec fn host_label(hostname: Seq<char>) -> Seq<char> {
    let label = strip_back(strip_front(label_chars(hostname)), '-');
    if label.len() == 0 {
        "One-KVM"@
    } else {
        label
    }
}

fn without_front_hyphens(s: &[char]) -> (r: &[char])
    ensures
        r@ == strip_front(s@),
{
    let mut i: usize = 0;
    assert(s@.skip(0) == s@);
    while i < s.len() && s[i] == '-'
        invariant
            i <= s@.len(),
            strip_front(s@) == strip_front(s@.skip(i as int)),
        decreases s.len() - i,
    {
        assert(s@.skip(i as int).drop_first() == s@.skip(i + 1));
        i = i + 1;
    }
    let r = slice_subrange(s, i, s.len());
    assert(r@ == s@.skip(i as int));
    r
}

fn without_back(s: &[char], c: char) -> (r: &[char])
    ensures
        r@ == strip_back(s@, c),
{
    let mut n: usize = s.len();
    assert(s@.take(n as int) == s@);
    while n > 0 && s[n - 1] == c
        invariant
            n <= s@.len(),
            strip_back(s@, c) == strip_back(s@.take(n as int), c),
        decreases n,
    {
        assert(s@.take(n as int).drop_last() == s@.take(n - 1));
        n = n - 1;
    }
    let r = slice_subrange(s, 0, n);
    assert(r@ == s@.take(n as int));
    r
}

/// The label that a host name gives.
pub fn mdns_label(input: &str) -> (r: String)
    ensures
        r@ == host_label(input@),
{
    let chars = str_chars(input);
    let mut label: Vec<char> = Vec::new();
    let mut i: usize = 0;
    assert(input@.take(0) == Seq::<char>::empty());
    while i < chars.len()
        invariant
            i <= chars@.len(),
            chars@ == input@,
            label@ == label_chars(input@.take(i as int)),
        decreases chars.len() - i,
    {
        let c: char = chars[i];
        let ghost before = label@;
        assert(input@.take(i + 1).drop_last() == input@.take(i as int));
        if ('a' <= c && c <= 'z') || ('A' <= c && c <= 'Z') || ('0' <= c && c <= '9') || c == '-' {
            label.push(c);
            assert(label@ == before + seq![c]);
        } else if char_is_space(c) || c == '_' {
            label.push('-');
            assert(label@ == before + seq!['-']);
        } else {
            assert(before + Seq::<char>::empty() == before);
        }
        i = i + 1;
    }
    assert(input@.take(i as int) == input@);
    let inner = without_back(without_front_hyphens(label.as_slice()), '-');
    if inner.len() == 0 {
        owned("One-KVM")
    } else {
        string_of(inner)
    }
}

// ---------------------------------------------------------------- names

/// One label of a name: its length and its bytes, of which at most 63 count.
pub open spec fn label_bytes(label: Seq<char>) -> Seq<u8> {
    let bytes = encode_utf8(label);
    let n = if bytes.len() < 63 {
        bytes.len()
    } else {
        63
    };
    seq![n as u8] + bytes.take(n as int)
}

/// Several labels.
pub open spec fn labels_bytes(labels: Seq<Seq<char>>) -> Seq<u8>
    decreases labels.len(),
{
    if labels.len() == 0 {
        Seq::empty()
    } else {
        labels_bytes(labels.drop_last()) + label_bytes(labels.last())
    }
}

/// The labels of a name: the parts between its dots, those at its end left out.
pub open spec fn name_labels(name: Seq<char>) -> Seq<Seq<char>> {
    split(strip_back(name, '.'), '.')
}

/// A name as DNS writes it.
pub open spec fn name_bytes(name: Seq<char>) -> Seq<u8> {
    labels_bytes(name_labels(name)).push(0)
}

/// Appends a name.
pub fn push_dns_name(out: &mut Vec<u8>, name: &str)
    ensures
        final(out)@ == old(out)@ + name_bytes(name@),
{
    let ghost start = out@;
    let chars = str_chars(name);
    let trimmed_name = without_back(chars.as_slice(), '.');
    let labels = split_at_char(trimmed_name, '.');
    let ghost all = views(labels@);
    let mut i: usize = 0;
    assert(all.take(0) == Seq::<Seq<char>>::empty());
    assert(start + Seq::<u8>::empty() == start);
    while i < labels.len()
        invariant
            i <= labels@.len(),
            all == views(labels@),
            out@ == start + labels_bytes(all.take(i as int)),
        decreases labels.len() - i,
    {
        let text = string_of(labels[i]);
        let bytes = text.as_str().as_bytes();
        let n: usize = if bytes.len() < 63 {
            bytes.len()
        } else {
            63
        };
        let ghost before = labels_bytes(all.take(i as int));
        out.push(n as u8);
        out.extend_from_slice(slice_subrange(bytes, 0, n));
        assert(bytes@.take(n as int) == bytes@.subrange(0, n as int));
        assert(all.take(i + 1).drop_last() == all.take(i as int));
        assert(all.take(i + 1).last() == text@);
        assert(out@ == start + (before + label_bytes(text@)));
        i = i + 1;
    }
    assert(all.take(i as int) == all);
    out.push(0);
    assert(out@ == start + labels_bytes(all).push(0));
}

/// The labels of the name at a place of a packet, and where the name ends there. A name may go
/// on at another place; at most so many labels and jumps are read.
pub open spec fn read_labels(packet: Seq<u8>, offset: nat, steps: nat) -> Option<
    (Seq<Seq<char>>, nat),
>
    decreases steps,
{
    if steps == 0 || offset >= packet.len() {
        None
    } else {
        let n = packet[offset as int];
        if n >= 0xc0 {
            if offset + 1 >= packet.len() {
                None
            } else {
                let target = ((n - 0xc0) * 256 + packet[offset as int + 1]) as nat;
                match read_labels(packet, target, (steps - 1) as nat) {
                    Some((labels, _)) => Some((labels, offset + 2)),
                    None => None,
                }
            }
        } else if n == 0 {
            Some((Seq::empty(), offset + 1))
        } else {
            let end = offset + 1 + n;
            if end > packet.len() {
                None
            } else {
                match utf8_decoded(packet.subrange(offset as int + 1, end as int)) {
                    Some(label) => match read_labels(packet, end as nat, (steps - 1) as nat) {
                        Some((labels, next)) => Some((seq![label] + labels, next)),
                        None => None,
                    },
                    None => None,
                }
            }
        }
    }
}

/// The most labels and jumps of a name.
pub const DNS_NAME_STEPS: usize = 32;

/// Labels with dots between them.
pub open spec fn join_dots(labels: Seq<Seq<char>>) -> Seq<char>
    decreases labels.len(),
{
    if labels.len() == 0 {
        Seq::empty()
    } else if labels.len() == 1 {
        labels[0]
    } else {
        labels[0] + seq!['.'] + join_dots(labels.skip(1))
    }
}

/// The name at a place of a packet, and where it ends there.
pub open spec fn dns_name(packet: Seq<u8>, offset: nat) -> Option<(Seq<char>, nat)> {
    match read_labels(packet, offset, DNS_NAME_STEPS as nat) {
        Some((labels, next)) => Some((join_dots(labels), next)),
        None => None,
    }
}

/// Reads the labels of a name, joined by dots. The flag says whether there was no label at all.
fn read_name_part(packet: &[u8], offset: usize, steps: usize) -> (r: Option<(Vec<char>, usize, bool)>)
    ensures
        match r {
            Some((name, next, empty)) => read_labels(packet@, offset as nat, steps as nat) matches Some(
                (labels, end),
            ) && name@ == join_dots(labels) && next == end && next <= packet@.len() && empty == (
            labels.len() == 0),
            None => read_labels(packet@, offset as nat, steps as nat) is None,
        },
    decreases steps,
{
    if steps == 0 || offset >= packet.len() {
        return None;
    }
    let n: u8 = packet[offset];
    assert(n & 0xc0u8 == 0xc0u8 <==> n >= 0xc0u8) by (bit_vector);
    if n & 0xc0 == 0xc0 {
        if offset + 1 >= packet.len() {
            return None;
        }
        let low: u8 = packet[offset + 1];
        assert(n & 0x3fu8 == n - 0xc0u8) by (bit_vector)
            requires
                n >= 0xc0u8,
        ;
        let target: usize = (n & 0x3f) as usize * 256 + low as usize;
        return match read_name_part(packet, target, steps - 1) {
            Some((name, _, empty)) => Some((name, offset + 2, empty)),
            None => None,
        };
    }
    if n == 0 {
        let name: Vec<char> = Vec::new();
        assert(name@ == join_dots(Seq::<Seq<char>>::empty()));
        return Some((name, offset + 1, true));
    }
    let start: usize = offset + 1;
    if packet.len() - start < n as usize {
        return None;
    }
    let end: usize = start + n as usize;
    let label = match read_utf8(slice_subrange(packet, start, end)) {
        Some(text) => str_chars(text),
        None => {
            return None;
        },
    };
    match read_name_part(packet, end, steps - 1) {
        Some((rest, next, empty)) => {
            let mut name = label;
            let ghost (labels, _e) = read_labels(packet@, end as nat, (steps - 1) as nat)->0;
            let ghost all = seq![label@] + labels;
            assert(all.skip(1) == labels);
            assert(all[0] == label@);
            if !empty {
                let mut tail = rest;
                name.push('.');
                name.append(&mut tail);
                assert(name@ == label@ + seq!['.'] + join_dots(labels));
            }
            Some((name, next, false))
        },
        None => None,
    }
}

/// Reads the name at a place of a packet; gives it with the place behind it.
pub fn read_dns_name(packet: &[u8], offset: usize) -> (r: Option<(String, usize)>)
    ensures
        match r {
            Some((name, next)) => dns_name(packet@, offset as nat) == Some((name@, next as nat))
                && next <= packet@.len(),
            None => dns_name(packet@, offset as nat) is None,
        },
{
    match read_name_part(packet, offset, DNS_NAME_STEPS) {
        Some((name, next, _)) => Some((string_of(name.as_slice()), next)),
        None => None,
    }
}

// ---------------------------------------------------------------- queries

/// The name of a host.
pub open spec fn host_name(hostname: Seq<char>) -> Seq<char> {
    host_label(hostname) + ".local"@
}

/// The name of the service of a host.
pub open spec fn instance_name(hostname: Seq<char>) -> Seq<char> {
    host_label(hostname) + "._nvstream._tcp.local"@
}

/// Whether one of so many questions from a place on asks for the service or for a host. A
/// question that cannot be read ends the search.
pub open spec fn asks_for(packet: Seq<u8>, offset: nat, questions: nat, host: Seq<char>) -> bool
    decreases questions,
{
    if questions == 0 {
        false
    } else {
        match dns_name(packet, offset) {
            None => false,
            Some((name, next)) => {
                ||| lower(name) == MDNS_SERVICE@
                ||| lower(name) == lower(host)
                ||| asks_for(packet, next + 4, (questions - 1) as nat, host)
            },
        }
    }
}

/// Whether a packet asks for the service or for the host.
pub open spec fn query_mentions(packet: Seq<u8>, hostname: Seq<char>) -> bool {
    packet.len() >= 12 && asks_for(
        packet,
        12,
        from_be16(packet[4], packet[5]) as nat,
        host_name(hostname),
    )
}

/// Whether a packet asks for the service or for the host.
pub fn mdns_query_mentions_nvstream(packet: &[u8], hostname: &str) -> (r: bool)
    ensures
        r == query_mentions(packet@, hostname@),
{
    if packet.len() < 12 {
        return false;
    }
    let count: u16 = read_be16(packet[4], packet[5]);
    let mut host = mdns_label(hostname);
    host.append(".local");
    let host_chars = str_chars(host.as_str());
    let host_lower = to_lower(host_chars.as_slice());
    let service = str_chars(MDNS_SERVICE);
    let size: usize = packet.len();
    let mut offset: usize = 12;
    let mut left: u16 = count;
    while left > 0
        invariant
            size == packet@.len(),
            service@ == MDNS_SERVICE@,
            host@ == host_name(hostname@),
            host_lower@ == lower(host@),
            query_mentions(packet@, hostname@) == asks_for(
                packet@,
                offset as nat,
                left as nat,
                host@,
            ),
        decreases left,
    {
        match read_dns_name(packet, offset) {
            None => {
                return false;
            },
            Some((name, next)) => {
                let name_chars = str_chars(name.as_str());
                let name_lower = to_lower(name_chars.as_slice());
                if same(name_lower.as_slice(), service.as_slice()) || same(
                    name_lower.as_slice(),
                    host_lower.as_slice(),
                ) {
                    return true;
                }
                offset = next.saturating_add(4);
                proof {
                    if offset != next + 4 {
                        assert(dns_name(packet@, offset as nat) is None);
                        assert(dns_name(packet@, (next + 4) as nat) is None);
                        assert(!asks_for(packet@, offset as nat, (left - 1) as nat, host@));
                    }
                    assert(asks_for(packet@, offset as nat, (left - 1) as nat, host@) == asks_for(
                        packet@,
                        (next + 4) as nat,
                        (left - 1) as nat,
                        host@,
                    ));
                }
                left = left - 1;
            },
        }
    }
    false
}

// ---------------------------------------------------------------- responses

/// A resource record that lives for two minutes.
pub open spec fn record_bytes(name: Seq<char>, kind: u16, class: u16, data: Seq<u8>) -> Seq<u8> {
    name_bytes(name) + be16(kind) + be16(class) + be32(120) + be16((data.len() % 65536) as u16)
        + data
}

/// Appends a resource record.
pub fn push_dns_record(out: &mut Vec<u8>, name: &str, kind: u16, class: u16, data: &[u8])
    ensures
        final(out)@ == old(out)@ + record_bytes(name@, kind, class, data@),
{
    let ghost start = out@;
    push_dns_name(out, name);
    push_be16(out, kind);
    push_be16(out, class);
    push_be32(out, 120);
    push_be16(out, (data.len() % 65536) as u16);
    out.extend_from_slice(data);
    assert(out@ == start + record_bytes(name@, kind, class, data@));
}

/// A text of a text record: its length and its bytes, of which at most 255 count.
pub open spec fn txt_bytes(text: Seq<char>) -> Seq<u8> {
    let bytes = encode_utf8(text);
    let n = if bytes.len() < 255 {
        bytes.len()
    } else {
        255
    };
    seq![n as u8] + bytes.take(n as int)
}

fn push_txt(out: &mut Vec<u8>, text: &str)
    ensures
        final(out)@ == old(out)@ + txt_bytes(text@),
{
    let bytes = text.as_bytes();
    let n: usize = if bytes.len() < 255 {
        bytes.len()
    } else {
        255
    };
    let ghost start = out@;
    out.push(n as u8);
    out.extend_from_slice(slice_subrange(bytes, 0, n));
    assert(bytes@.take(n as int) == bytes@.subrange(0, n as int));
    assert(out@ == start + txt_bytes(text@));
}

/// The data of the service record: no priority, no weight, the port and the host.
pub open spec fn srv_data(hostname: Seq<char>, http_port: u16) -> Seq<u8> {
    be16(0) + be16(0) + be16(http_port) + name_bytes(host_name(hostname))
}

/// The data of the text record.
pub open spec fn txt_data(hostname: Seq<char>, unique_id: Seq<char>) -> Seq<u8> {
    txt_bytes("txtvers=1"@) + txt_bytes("name="@ + hostname) + txt_bytes("uuid="@ + unique_id)
        + txt_bytes("version=7.1"@)
}

/// The response to a query: its number, and the records of the service, the instance and the
/// host.
pub open spec fn mdns_response(
    packet: Seq<u8>,
    hostname: Seq<char>,
    unique_id: Seq<char>,
    http_port: u16,
    ip: Seq<u8>,
) -> Seq<u8> {
    (if packet.len() >= 2 {
        packet.take(2)
    } else {
        seq![0u8, 0u8]
    }) + be16(0x8400) + be16(0) + be16(4) + be16(0) + be16(0) + record_bytes(
        MDNS_SERVICE@,
        12,
        1,
        name_bytes(instance_name(hostname)),
    ) + record_bytes(instance_name(hostname), 33, 0x8001, srv_data(hostname, http_port))
        + record_bytes(instance_name(hostname), 16, 0x8001, txt_data(hostname, unique_id))
        + record_bytes(host_name(hostname), 1, 0x8001, ip)
}

/// Builds the response to a query.
pub fn build_mdns_response(
    packet: &[u8],
    hostname: &str,
    unique_id: &str,
    http_port: u16,
    ip: &[u8; 4],
) -> (r: Vec<u8>)
    ensures
        r@ == mdns_response(packet@, hostname@, unique_id@, http_port, ip@),
{
    let mut instance = mdns_label(hostname);
    instance.append("._nvstream._tcp.local");
    let mut host = mdns_label(hostname);
    host.append(".local");

    let mut out: Vec<u8> = Vec::new();
    if packet.len() >= 2 {
        out.push(packet[0]);
        out.push(packet[1]);
        assert(out@ == packet@.take(2));
    } else {
        out.push(0);
        out.push(0);
        assert(out@ == seq![0u8, 0u8]);
    }
    push_be16(&mut out, 0x8400);
    push_be16(&mut out, 0);
    push_be16(&mut out, 4);
    push_be16(&mut out, 0);
    push_be16(&mut out, 0);

    let mut pointer: Vec<u8> = Vec::new();
    push_dns_name(&mut pointer, instance.as_str());
    assert(pointer@ == name_bytes(instance@));
    push_dns_record(&mut out, MDNS_SERVICE, 12, 1, pointer.as_slice());

    let mut service: Vec<u8> = Vec::new();
    push_be16(&mut service, 0);
    push_be16(&mut service, 0);
    push_be16(&mut service, http_port);
    push_dns_name(&mut service, host.as_str());
    assert(service@ == srv_data(hostname@, http_port));
    push_dns_record(&mut out, instance.as_str(), 33, 0x8001, service.as_slice());

    let mut txt: Vec<u8> = Vec::new();
    let mut name_text = owned("name=");
    name_text.append(hostname);
    let mut uuid_text = owned("uuid=");
    uuid_text.append(unique_id);
    push_txt(&mut txt, "txtvers=1");
    push_txt(&mut txt, name_text.as_str());
    push_txt(&mut txt, uuid_text.as_str());
    push_txt(&mut txt, "version=7.1");
    assert(txt@ == txt_data(hostname@, unique_id@));
    push_dns_record(&mut out, instance.as_str(), 16, 0x8001, txt.as_slice());

    push_dns_record(&mut out, host.as_str(), 1, 0x8001, ip.as_slice());
    out
}

// ---------------------------------------------------------------- laws

/// Labels that DNS can write as they are: not empty and at most 63 bytes long.
pub open spec fn plain_labels(labels: Seq<Seq<char>>) -> bool {
    forall|i: int|
        0 <= i < labels.len() ==> 1 <= encode_utf8(#[trigger] labels[i]).len() <= 63
}

proof fn lemma_labels_first(labels: Seq<Seq<char>>)
    requires
        labels.len() > 0,
    ensures
        labels_bytes(labels) == label_bytes(labels[0]) + labels_bytes(labels.skip(1)),
    decreases labels.len(),
{
    if labels.len() == 1 {
        assert(labels.drop_last() == Seq::<Seq<char>>::empty());
        assert(labels.skip(1) == Seq::<Seq<char>>::empty());
        assert(labels_bytes(labels.drop_last()) == Seq::<u8>::empty());
        assert(labels_bytes(labels.skip(1)) == Seq::<u8>::empty());
        assert(labels_bytes(labels) == label_bytes(labels[0]));
    } else {
        lemma_labels_first(labels.drop_last());
        assert(labels.drop_last().skip(1) == labels.skip(1).drop_last());
        assert(labels_bytes(labels) == label_bytes(labels[0]) + labels_bytes(
            labels.skip(1).drop_last(),
        ) + label_bytes(labels.last()));
    }
}

proof fn lemma_read_written(
    before: Seq<u8>,
    labels: Seq<Seq<char>>,
    after: Seq<u8>,
    steps: nat,
)
    requires
        plain_labels(labels),
        labels.len() < steps,
    ensures
        read_labels(before + labels_bytes(labels).push(0) + after, before.len(), steps) == Some(
            (labels, before.len() + labels_bytes(labels).len() + 1),
        ),
    decreases labels.len(),
{
    let packet = before + labels_bytes(labels).push(0) + after;
    let offset = before.len();
    if labels.len() == 0 {
        assert(packet[offset as int] == 0);
        assert(labels == Seq::<Seq<char>>::empty());
    } else {
        lemma_labels_first(labels);
        let first = labels[0];
        let rest = labels.skip(1);
        let bytes = encode_utf8(first);
        let n = bytes.len();
        assert(1 <= n <= 63);
        assert(bytes.take(n as int) == bytes);
        let head = seq![n as u8] + bytes;
        assert(label_bytes(first) == head);
        assert(packet == before + head + labels_bytes(rest).push(0) + after);
        assert(packet[offset as int] == n as u8);
        let end = offset + 1 + n;
        assert(packet.subrange(offset as int + 1, end as int) == bytes);
        encode_utf8_valid_utf8(first);
        encode_utf8_decode_utf8(first);
        assert(plain_labels(rest)) by {
            assert forall|i: int| 0 <= i < rest.len() implies 1 <= encode_utf8(
                #[trigger] rest[i],
            ).len() <= 63 by {
                assert(rest[i] == labels[i + 1]);
            }
        }
        lemma_read_written(before + head, rest, after, (steps - 1) as nat);
        assert((before + head) + labels_bytes(rest).push(0) + after == packet);
        assert((before + head).len() == end);
        assert(seq![first] + rest == labels);
    }
}

proof fn lemma_join_of_split(s: Seq<char>)
    ensures
        join_dots(split(s, '.')) == s,
        split(s, '.').len() >= 1,
    decreases s.len(),
{
    crate::text::lemma_first_index(s, '.');
    let i = first_index(s, '.');
    if i < s.len() {
        let tail = s.skip(i as int + 1);
        lemma_join_of_split(tail);
        let parts = split(s, '.');
        assert(parts == seq![s.take(i as int)] + split(tail, '.'));
        assert(parts.skip(1) == split(tail, '.'));
        assert(parts[0] == s.take(i as int));
        assert(s == s.take(i as int) + seq!['.'] + tail);
    } else {
        assert(split(s, '.') == seq![s]);
    }
}

/// A name that was written is read back, wherever it stands in a packet: a name without dots at
/// its end, of fewer than 32 labels of one to 63 bytes.
pub proof fn written_name_is_read_back(before: Seq<u8>, name: Seq<char>, after: Seq<u8>)
    requires
        strip_back(name, '.') == name,
        plain_labels(name_labels(name)),
        name_labels(name).len() < DNS_NAME_STEPS,
    ensures
        dns_name(before + name_bytes(name) + after, before.len()) == Some(
            (name, before.len() + name_bytes(name).len()),
        ),
{
    lemma_read_written(before, name_labels(name), after, DNS_NAME_STEPS as nat);
    lemma_join_of_split(name);
}

/// A response carries the number of the query, whenever the query has one.
pub proof fn response_carries_the_query_number(
    packet: Seq<u8>,
    hostname: Seq<char>,
    unique_id: Seq<char>,
    http_port: u16,
    ip: Seq<u8>,
)
    requires
        packet.len() >= 2,
    ensures
        mdns_response(packet, hostname, unique_id, http_port, ip).len() >= 12,
        mdns_response(packet, hostname, unique_id, http_port, ip)[0] == packet[0],
        mdns_response(packet, hostname, unique_id, http_port, ip)[1] == packet[1],
{
}

proof fn lemma_label_chars(s: Seq<char>, i: int)
    requires
        0 <= i < label_chars(s).len(),
    ensures
        ({
            let c = label_chars(s)[i];
            ('a' <= c <= 'z') || ('A' <= c <= 'Z') || ('0' <= c <= '9') || c == '-'
        }),
    decreases s.len(),
{
    let head = label_chars(s.drop_last());
    if i < head.len() {
        lemma_label_chars(s.drop_last(), i);
    } else {
        assert(label_chars(s)[i] == label_char(s.last())[i - head.len()]);
    }
}

proof fn lemma_strip_front(s: Seq<char>)
    ensures
        strip_front(s).len() <= s.len(),
        strip_front(s) == s.skip(s.len() - strip_front(s).len()),
        strip_front(s).len() > 0 ==> strip_front(s)[0] != '-',
    decreases s.len(),
{
    if s.len() > 0 && s[0] == '-' {
        lemma_strip_front(s.drop_first());
        assert(strip_front(s) == s.skip(s.len() - strip_front(s).len()));
    } else {
        assert(s.skip(0) == s);
    }
}

proof fn lemma_strip_back(s: Seq<char>, c: char)
    ensures
        strip_back(s, c).len() <= s.len(),
        strip_back(s, c) == s.take(strip_back(s, c).len() as int),
        strip_back(s, c).len() > 0 ==> strip_back(s, c).last() != c,
    decreases s.len(),
{
    if s.len() > 0 && s.last() == c {
        lemma_strip_back(s.drop_last(), c);
        assert(strip_back(s, c) == s.take(strip_back(s, c).len() as int));
    } else {
        assert(s.take(s.len() as int) == s);
    }
}

/// Whatever a host is called, its label is one that DNS takes: not empty, of letters, digits
/// and hyphens, with no hyphen at either end.
pub proof fn host_label_is_valid(hostname: Seq<char>)
    ensures
        host_label(hostname).len() > 0,
        host_label(hostname)[0] != '-',
        host_label(hostname).last() != '-',
        forall|i: int|
            0 <= i < host_label(hostname).len() ==> {
                let c = #[trigger] host_label(hostname)[i];
                ('a' <= c <= 'z') || ('A' <= c <= 'Z') || ('0' <= c <= '9') || c == '-'
            },
{
    reveal_strlit("One-KVM");
    let all = label_chars(hostname);
    let front = strip_front(all);
    let inner = strip_back(front, '-');
    lemma_strip_front(all);
    lemma_strip_back(front, '-');
    if inner.len() > 0 {
        assert(inner[0] == front[0]);
        assert forall|i: int| 0 <= i < inner.len() implies {
            let c = #[trigger] inner[i];
            ('a' <= c <= 'z') || ('A' <= c <= 'Z') || ('0' <= c <= '9') || c == '-'
        } by {
            lemma_label_chars(hostname, i + all.len() - front.len());
        }
    } else {
        let label = "One-KVM"@;
        assert(label.len() == 7);
        assert forall|i: int| 0 <= i < label.len() implies {
            let c = #[trigger] label[i];
            ('a' <= c <= 'z') || ('A' <= c <= 'Z') || ('0' <= c <= '9') || c == '-'
        } by {
            if i == 0 {
            } else if i == 1 {
            } else if i == 2 {
            } else if i == 3 {
            } else if i == 4 {
            } else if i == 5 {
            } else {
                assert(i == 6);
            }
        }
    }
}

/// A record is its name, its type and its class, a life of 120 seconds, the length of its data
/// and the data.
pub proof fn a_record_has_its_parts(name: Seq<char>, kind: u16, class: u16, data: Seq<u8>)
    requires
        data.len() < 0x1_0000,
    ensures
        ({
            let r = record_bytes(name, kind, class, data);
            let n = name_bytes(name).len() as int;
            &&& r.len() == n + 10 + data.len()
            &&& r.take(n) == name_bytes(name)
            &&& r[n] * 256 + r[n + 1] == kind
            &&& r[n + 2] * 256 + r[n + 3] == class
            &&& r[n + 4] == 0 && r[n + 5] == 0 && r[n + 6] == 0 && r[n + 7] == 120
            &&& r[n + 8] * 256 + r[n + 9] == data.len()
            &&& r.skip(n + 10) == data
        }),
{
    let r = record_bytes(name, kind, class, data);
    let n = name_bytes(name).len() as int;
    crate::bytes::bytes_write_their_number(kind, 120);
    crate::bytes::bytes_write_their_number(class, 120);
    crate::bytes::bytes_write_their_number((data.len() % 65536) as u16, 120);
    assert(r.take(n) =~= name_bytes(name));
    assert(r.skip(n + 10) =~= data);
    assert(r[n] == be16(kind)[0] && r[n + 1] == be16(kind)[1]);
    assert(r[n + 2] == be16(class)[0] && r[n + 3] == be16(class)[1]);
    assert(r[n + 4] == be32(120)[0] && r[n + 5] == be32(120)[1] && r[n + 6] == be32(120)[2]
        && r[n + 7] == be32(120)[3]);
    assert(r[n + 8] == be16((data.len() % 65536) as u16)[0]);
    assert(r[n + 9] == be16((data.len() % 65536) as u16)[1]);
}

/// The service record tells the port and the host, with no priority and no weight.
pub proof fn the_service_record_tells_the_port(hostname: Seq<char>, http_port: u16)
    ensures
        ({
            let d = srv_data(hostname, http_port);
            &&& d[0] == 0 && d[1] == 0 && d[2] == 0 && d[3] == 0
            &&& d[4] * 256 + d[5] == http_port
            &&& d.skip(6) == name_bytes(host_label(hostname) + ".local"@)
        }),
{
    let d = srv_data(hostname, http_port);
    crate::bytes::bytes_write_their_number(http_port, 0);
    crate::bytes::bytes_write_their_number(0, 0);
    assert(d[0] == be16(0)[0] && d[1] == be16(0)[1] && d[2] == be16(0)[0] && d[3] == be16(0)[1]);
    assert(d[4] == be16(http_port)[0] && d[5] == be16(http_port)[1]);
    assert(d.skip(6) =~= name_bytes(host_name(hostname)));
}

/// A text of a text record is told by its length, as long as it fits.
pub proof fn a_text_states_its_length(text: Seq<char>)
    requires
        encode_utf8(text).len() < 256,
    ensures
        txt_bytes(text)[0] == encode_utf8(text).len(),
        txt_bytes(text).skip(1) == encode_utf8(text),
{
    assert(txt_bytes(text).skip(1) =~= encode_utf8(text));
}

/// A response is marked as one, asks nothing and has four answers, in this order: from the service
/// to the instance, from the instance to the port, what the host says of itself, and from the
/// host to its address.
pub proof fn a_response_has_four_answers(
    packet: Seq<u8>,
    hostname: Seq<char>,
    unique_id: Seq<char>,
    http_port: u16,
    ip: Seq<u8>,
)
    ensures
        ({
            let r = mdns_response(packet, hostname, unique_id, http_port, ip);
            let instance = host_label(hostname) + "._nvstream._tcp.local"@;
            let first = record_bytes("_nvstream._tcp.local"@, 12, 1, name_bytes(instance));
            let second = record_bytes(instance, 33, 0x8001, srv_data(hostname, http_port));
            let third = record_bytes(
                instance,
                16,
                0x8001,
                txt_bytes("txtvers=1"@) + txt_bytes("name="@ + hostname) + txt_bytes(
                    "uuid="@ + unique_id,
                ) + txt_bytes("version=7.1"@),
            );
            let fourth = record_bytes(host_label(hostname) + ".local"@, 1, 0x8001, ip);
            &&& r.skip(12) == first + second + third + fourth
            &&& r[2] == 0x84 && r[3] == 0
            &&& r[4] == 0 && r[5] == 0
            &&& r[6] == 0 && r[7] == 4
            &&& r[8] == 0 && r[9] == 0 && r[10] == 0 && r[11] == 0
            &&& packet.len() < 2 ==> r[0] == 0 && r[1] == 0
        }),
{
    let r = mdns_response(packet, hostname, unique_id, http_port, ip);
    let number = if packet.len() >= 2 {
        packet.take(2)
    } else {
        seq![0u8, 0u8]
    };
    let header = number + be16(0x8400) + be16(0) + be16(4) + be16(0) + be16(0);
    let first = record_bytes(MDNS_SERVICE@, 12, 1, name_bytes(instance_name(hostname)));
    let second = record_bytes(
        instance_name(hostname),
        33,
        0x8001,
        srv_data(hostname, http_port),
    );
    let third = record_bytes(instance_name(hostname), 16, 0x8001, txt_data(hostname, unique_id));
    let fourth = record_bytes(host_name(hostname), 1, 0x8001, ip);
    lemma_behind(header, first, second, third, fourth);
    assert(header.len() == 12);
    assert(r == header + first + second + third + fourth);
    assert forall|i: int| 0 <= i < 12 implies r[i] == header[i] by {}
    assert(be16(0x8400) =~= seq![0x84u8, 0u8]);
    assert(be16(4) =~= seq![0u8, 4u8]);
    assert(be16(0) =~= seq![0u8, 0u8]);
}

proof fn lemma_behind(h: Seq<u8>, a: Seq<u8>, b: Seq<u8>, c: Seq<u8>, d: Seq<u8>)
    ensures
        (h + a + b + c + d).skip(h.len() as int) == a + b + c + d,
        (h + a + b + c + d).take(h.len() as int) == h,
{
    assert(h + a + b + c + d =~= h + (a + b + c + d));
    assert((h + (a + b + c + d)).skip(h.len() as int) =~= a + b + c + d);
    assert((h + (a + b + c + d)).take(h.len() as int) =~= h);
}

/// A name that DNS can write as it is, and that is read back.
pub open spec fn plain_name(name: Seq<char>) -> bool {
    &&& strip_back(name, '.') == name
    &&& plain_labels(name_labels(name))
    &&& name_labels(name).len() < DNS_NAME_STEPS
}

/// A question for the service or for the host is heard, whatever its case and whatever follows;
/// one for another name is not, nor is a packet without questions.
pub proof fn a_question_is_heard(
    header: Seq<u8>,
    name: Seq<char>,
    rest: Seq<u8>,
    hostname: Seq<char>,
)
    requires
        header.len() == 12,
        plain_name(name),
    ensures
        ({
            let packet = header + name_bytes(name) + rest;
            let count = header[4] * 256 + header[5];
            let asked = lower(name) == "_nvstream._tcp.local"@ || lower(name) == lower(
                host_label(hostname) + ".local"@,
            );
            &&& count >= 1 && asked ==> query_mentions(packet, hostname)
            &&& count == 1 && !asked ==> !query_mentions(packet, hostname)
            &&& count == 0 ==> !query_mentions(packet, hostname)
        }),
{
    written_name_is_read_back(header, name, rest);
    let packet = header + name_bytes(name) + rest;
    assert(packet[4] == header[4] && packet[5] == header[5]);
    crate::bytes::bytes_read_as_their_number(header[4], header[5], 0, 0);
    reveal_with_fuel(asks_for, 2);
}

/// A second question is heard as well: the type and the class of the first one, four bytes, are
/// passed over.
pub proof fn a_second_question_is_heard(
    header: Seq<u8>,
    other: Seq<char>,
    kind_and_class: Seq<u8>,
    name: Seq<char>,
    rest: Seq<u8>,
    hostname: Seq<char>,
)
    requires
        header.len() == 12,
        header[4] * 256 + header[5] >= 2,
        plain_name(other),
        kind_and_class.len() == 4,
        plain_name(name),
        lower(name) == "_nvstream._tcp.local"@ || lower(name) == lower(
            host_label(hostname) + ".local"@,
        ),
    ensures
        query_mentions(
            header + name_bytes(other) + kind_and_class + name_bytes(name) + rest,
            hostname,
        ),
{
    let packet = header + name_bytes(other) + kind_and_class + name_bytes(name) + rest;
    let behind = kind_and_class + name_bytes(name) + rest;
    let front = header + name_bytes(other) + kind_and_class;
    assert(packet =~= header + name_bytes(other) + behind);
    assert(packet =~= front + name_bytes(name) + rest);
    written_name_is_read_back(header, other, behind);
    written_name_is_read_back(front, name, rest);
    assert(packet[4] == header[4] && packet[5] == header[5]);
    crate::bytes::bytes_read_as_their_number(header[4], header[5], 0, 0);
    reveal_with_fuel(asks_for, 3);
}

/// Whether a character stands in a label as it is, but for a hyphen.
pub open spec fn is_label_char(c: char) -> bool {
    ('a' <= c <= 'z') || ('A' <= c <= 'Z') || ('0' <= c <= '9')
}

proof fn lemma_label_of_plain(s: Seq<char>)
    requires
        forall|i: int|
            0 <= i < s.len() ==> is_label_char(#[trigger] s[i]) || s[i] == '-' || s[i] == '_'
                || is_space(s[i]),
    ensures
        label_chars(s).len() == s.len(),
        forall|i: int|
            0 <= i < s.len() ==> label_chars(s)[i] == (if is_label_char(#[trigger] s[i]) {
                s[i]
            } else {
                '-'
            }),
    decreases s.len(),
{
    if s.len() > 0 {
        let t = s.drop_last();
        assert forall|i: int| 0 <= i < t.len() implies is_label_char(#[trigger] t[i]) || t[i] == '-'
            || t[i] == '_' || is_space(t[i]) by {
            assert(t[i] == s[i]);
        }
        lemma_label_of_plain(t);
        assert(is_label_char(s.last()) || s.last() == '-' || s.last() == '_' || is_space(s.last()));
        assert(label_char(s.last()).len() == 1);
        assert forall|i: int| 0 <= i < s.len() implies label_chars(s)[i] == (if is_label_char(
            #[trigger] s[i],
        ) {
            s[i]
        } else {
            '-'
        }) by {
            if i < t.len() {
                assert(t[i] == s[i]);
            }
        }
    }
}

/// A host name of letters and digits, hyphens, underscores and white space that begins and ends
/// with a letter or a digit gives a label of the same length: letters and digits stay, and all
/// else becomes a hyphen.
pub proof fn a_host_name_gives_its_label(s: Seq<char>)
    requires
        s.len() > 0,
        forall|i: int|
            0 <= i < s.len() ==> is_label_char(#[trigger] s[i]) || s[i] == '-' || s[i] == '_'
                || is_space(s[i]),
        is_label_char(s[0]),
        is_label_char(s.last()),
    ensures
        host_label(s).len() == s.len(),
        forall|i: int|
            0 <= i < s.len() ==> host_label(s)[i] == (if is_label_char(#[trigger] s[i]) {
                s[i]
            } else {
                '-'
            }),
{
    lemma_label_of_plain(s);
    let label = label_chars(s);
    assert(label[0] == s[0] && label.last() == s.last());
    assert(strip_front(label) == label);
    assert(strip_back(label, '-') == label);
}

/// A jump in a name is two bytes, the upper two bits set: the name goes on at the place that the
/// other fourteen bits tell, and ends, for the reader, behind the jump.
pub proof fn a_jump_leads_to_its_place(packet: Seq<u8>, offset: nat, steps: nat)
    requires
        offset + 1 < packet.len(),
        packet[offset as int] >= 0xc0,
        steps > 0,
    ensures
        ({
            let target = ((packet[offset as int] - 0xc0) * 256 + packet[offset as int + 1]) as nat;
            match read_labels(packet, target, (steps - 1) as nat) {
                Some((labels, _)) => read_labels(packet, offset, steps) == Some(
                    (labels, offset + 2),
                ),
                None => read_labels(packet, offset, steps) is None,
            }
        }),
{
}

/// A name that jumps to itself is no name: so many steps and no more are taken.
pub proof fn a_jump_in_place_is_no_name(packet: Seq<u8>, offset: nat, steps: nat)
    requires
        offset + 1 < packet.len(),
        packet[offset as int] >= 0xc0,
        (packet[offset as int] - 0xc0) * 256 + packet[offset as int + 1] == offset,
    ensures
        read_labels(packet, offset, steps) is None,
        DNS_NAME_STEPS == 32 && MDNS_PORT == 5353,
    decreases steps,
{
    if steps > 0 {
        a_jump_in_place_is_no_name(packet, offset, (steps - 1) as nat);
    }
}

/// Labels that are written as they are have at least one byte and at most 63.
pub proof fn a_plain_label_fits(label: Seq<char>)
    ensures
        plain_labels(seq![label]) <==> 1 <= encode_utf8(label).len() <= 63,
{
    assert(seq![label][0] == label);
}

} // verus!
