//! Announcing the host on the local network.
use one_kvm::sunshine::hex::hex_encode;
use one_kvm::sunshine::mdns::{
    build_mdns_response, mdns_label, mdns_query_mentions_nvstream, push_dns_name,
    push_dns_record, read_dns_name,
};

fn asking(name: &str) -> Vec<u8> {
    let mut packet = vec![0x12, 0x34, 0, 0, 0, 1, 0, 0, 0, 0, 0, 0];
    push_dns_name(&mut packet, name);
    packet.extend_from_slice(&[0, 12, 0, 1]);
    packet
}

#[test]
fn labels_keep_letters_digits_and_hyphens() {
    assert_eq!(mdns_label("My Box"), "My-Box");
    assert_eq!(mdns_label("a_b.c!d"), "a-bcd");
    assert_eq!(mdns_label("--x y--"), "x-y");
    assert_eq!(mdns_label("  "), "One-KVM");
    assert_eq!(mdns_label("客厅"), "One-KVM");
    assert_eq!(mdns_label(""), "One-KVM");
}

#[test]
fn names_are_written_label_by_label() {
    let mut out = vec![9];
    push_dns_name(&mut out, "ab.c.");
    assert_eq!(out, vec![9, 2, b'a', b'b', 1, b'c', 0]);
    let mut out = Vec::new();
    push_dns_name(&mut out, &"x".repeat(70));
    assert_eq!(out.len(), 65);
    assert_eq!(out[0], 63);
    let mut out = Vec::new();
    push_dns_name(&mut out, "");
    assert_eq!(out, vec![0, 0]);
}

#[test]
fn a_written_name_is_read_back() {
    let mut packet = vec![7, 7];
    push_dns_name(&mut packet, "_nvstream._tcp.local");
    packet.push(1);
    let end = packet.len() - 1;
    assert_eq!(
        read_dns_name(&packet, 2),
        Some(("_nvstream._tcp.local".to_string(), end))
    );
}

#[test]
fn names_can_point_back() {
    let packet = [2, b'h', b'i', 0, 1, b'a', 0xc0, 0, 5];
    assert_eq!(read_dns_name(&packet, 4), Some(("a.hi".to_string(), 8)));
    assert_eq!(read_dns_name(&packet, 3), Some((String::new(), 4)));
    assert_eq!(read_dns_name(&[0xc0, 0], 0), None);
    assert_eq!(read_dns_name(&[3, b'a'], 0), None);
    assert_eq!(read_dns_name(&[1, 0xff, 0], 0), None);
    assert_eq!(read_dns_name(&[0xc0], 0), None);
    assert_eq!(read_dns_name(&[], 0), None);
}

#[test]
fn queries_for_the_service_or_the_host_are_known() {
    assert!(mdns_query_mentions_nvstream(&asking("_NVSTREAM._tcp.local"), "My Box"));
    assert!(mdns_query_mentions_nvstream(&asking("my-box.LOCAL"), "My Box"));
    assert!(!mdns_query_mentions_nvstream(&asking("other.local"), "My Box"));
    assert!(!mdns_query_mentions_nvstream(&asking("_nvstream._tcp.local")[..11], "My Box"));
    let mut two = asking("other.local");
    two[5] = 2;
    push_dns_name(&mut two, "_nvstream._tcp.local");
    assert!(mdns_query_mentions_nvstream(&two, "My Box"));
    two[5] = 1;
    assert!(!mdns_query_mentions_nvstream(&two, "My Box"));
}

#[test]
fn records_state_the_length_of_their_data() {
    let mut out = Vec::new();
    push_dns_record(&mut out, "a", 1, 0x8001, &[10, 0, 0, 7]);
    assert_eq!(
        out,
        vec![1, b'a', 0, 0, 1, 0x80, 1, 0, 0, 0, 120, 0, 4, 10, 0, 0, 7]
    );
}

#[test]
fn the_response_is_four_records() {
    let query = asking("_nvstream._tcp.local");
    let response = build_mdns_response(&query, "My Box", "u1", 47989, &[10, 0, 0, 7]);
    let expected = [
        "123484000000000400000000",
        "095f6e7673747265616d045f746370056c6f63616c00000c000100000078001d",
        "064d792d426f78095f6e7673747265616d045f746370056c6f63616c00",
        "064d792d426f78095f6e7673747265616d045f746370056c6f63616c000021800100000078001400000000bb75",
        "064d792d426f78056c6f63616c00",
        "064d792d426f78095f6e7673747265616d045f746370056c6f63616c000010800100000078002a",
        "09747874766572733d310b6e616d653d4d7920426f7807757569643d75310b76657273696f6e3d372e31",
        "064d792d426f78056c6f63616c00000180010000007800040a000007",
    ]
    .concat();
    assert_eq!(hex_encode(&response), expected);

    let short = build_mdns_response(&[1], "My Box", "u1", 47989, &[10, 0, 0, 7]);
    assert_eq!(&short[..2], &[0, 0]);
    assert_eq!(&short[2..], &response[2..]);
}

#[test]
fn a_long_name_is_cut_in_the_text_record() {
    let name = "n".repeat(300);
    let response = build_mdns_response(&[], &name, "u", 1, &[1, 2, 3, 4]);
    let text: Vec<u8> = [vec![255], format!("name={}", "n".repeat(250)).into_bytes()].concat();
    assert!(response.windows(text.len()).any(|part| part == text.as_slice()));
}
