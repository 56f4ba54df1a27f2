//! Escaping, hexadecimal digits, ciphers and replies.
use one_kvm::sunshine::crypto::{
    aes128_ecb_decrypt_no_padding, aes128_ecb_encrypt_no_padding, cert_signature_from_pem,
    derive_pin_key,
};
use one_kvm::sunshine::hex::{hex_decode, hex_encode, hex_val};
use one_kvm::sunshine::http::{clients_response, not_found, pair_error, xml_response};
use one_kvm::sunshine::xml::xml_escape;

#[test]
fn escapes_xml_special_chars() {
    assert_eq!(
        xml_escape("HDMI & <Input> \"A\""),
        "HDMI &amp; &lt;Input&gt; &quot;A&quot;"
    );
}

#[test]
fn escapes_apostrophes_and_leaves_other_text() {
    assert_eq!(xml_escape("it's"), "it&apos;s");
    assert_eq!(xml_escape(""), "");
    assert_eq!(xml_escape("Küche 客厅"), "Küche 客厅");
}

#[test]
fn escaping_is_done_once() {
    assert_eq!(xml_escape("&lt;"), "&amp;lt;");
    assert_eq!(xml_escape("&&"), "&amp;&amp;");
}

#[test]
fn escaping_a_concatenation_concatenates_the_escapes() {
    let (a, b) = ("a&", "<b");
    assert_eq!(
        xml_escape(&format!("{a}{b}")),
        format!("{}{}", xml_escape(a), xml_escape(b))
    );
    assert_ne!(xml_escape("a&"), xml_escape("a<"));
    assert!(!xml_escape("<a b=\"c\">'&").contains(['<', '>', '"', '\'']));
}

#[test]
fn aes_ecb_round_trip() {
    let key = [7u8; 16];
    let plaintext = b"moonlight-16byte";
    let encrypted = aes128_ecb_encrypt_no_padding(&key, plaintext).unwrap();
    assert_ne!(encrypted, plaintext);
    assert_eq!(
        aes128_ecb_decrypt_no_padding(&key, &encrypted).unwrap(),
        plaintext
    );
}

#[test]
fn aes_gives_the_published_block() {
    let key: [u8; 16] = [0, 1, 2, 3, 4, 5, 6, 7, 8, 9, 10, 11, 12, 13, 14, 15];
    let plaintext = hex_decode("00112233445566778899aabbccddeeff").unwrap();
    let encrypted = aes128_ecb_encrypt_no_padding(&key, &plaintext).unwrap();
    assert_eq!(hex_encode(&encrypted), "69c4e0d86a7b0430d8cdb78070b4c55a");
    assert_eq!(aes128_ecb_decrypt_no_padding(&key, &encrypted).unwrap(), plaintext);
}

#[test]
fn aes_works_block_by_block() {
    let key = [9u8; 16];
    let one = aes128_ecb_encrypt_no_padding(&key, &[1u8; 16]).unwrap();
    let two = aes128_ecb_encrypt_no_padding(&key, &[1u8; 32]).unwrap();
    assert_eq!(&two[..16], &one[..]);
    assert_eq!(&two[16..], &one[..]);
}

#[test]
fn aes_wants_whole_blocks() {
    let key = [0u8; 16];
    assert!(aes128_ecb_encrypt_no_padding(&key, &[]).is_err());
    assert!(aes128_ecb_encrypt_no_padding(&key, &[0u8; 15]).is_err());
    assert!(aes128_ecb_decrypt_no_padding(&key, &[]).is_err());
    assert!(aes128_ecb_decrypt_no_padding(&key, &[0u8; 17]).is_err());
}

#[test]
fn hex_round_trip() {
    let data = b"abc123";
    assert_eq!(hex_decode(&hex_encode(data)).unwrap(), data);
}

#[test]
fn hex_digits_have_their_values() {
    assert_eq!(hex_val(b'0'), Some(0));
    assert_eq!(hex_val(b'9'), Some(9));
    assert_eq!(hex_val(b'a'), Some(10));
    assert_eq!(hex_val(b'F'), Some(15));
    assert_eq!(hex_val(b'g'), None);
    assert_eq!(hex_encode(&[0x00, 0x0f, 0xa0, 0xff]), "000fa0ff");
}

#[test]
fn hex_text_must_be_whole_bytes_of_digits() {
    assert_eq!(hex_decode("").unwrap(), Vec::<u8>::new());
    assert_eq!(hex_decode("DEADbeef").unwrap(), vec![0xde, 0xad, 0xbe, 0xef]);
    assert_eq!(hex_encode(&hex_decode("DEADbeef").unwrap()), "deadbeef");
    assert!(hex_decode("abc").is_err());
    assert!(hex_decode("zz").is_err());
    assert!(hex_decode("é").is_err());
}

#[test]
fn pin_key_is_the_front_of_a_digest() {
    let expected = "ba7816bf8f01cfea414140de5dae2223";
    assert_eq!(hex_encode(&derive_pin_key(b"", "abc")), expected);
    assert_eq!(hex_encode(&derive_pin_key(b"a", "bc")), expected);
    assert_ne!(hex_encode(&derive_pin_key(b"a", "bd")), expected);
}

#[test]
fn signature_of_a_text_that_is_no_certificate() {
    assert!(cert_signature_from_pem("").is_err());
    assert!(cert_signature_from_pem("no certificate").is_err());
    let empty = "-----BEGIN CERTIFICATE-----\nAAAA\n-----END CERTIFICATE-----\n";
    assert!(cert_signature_from_pem(empty).is_err());
}

#[test]
fn replies_have_their_status_and_type() {
    let reply = xml_response("<root/>".to_string());
    assert_eq!(reply.status, 200);
    assert_eq!(reply.content_type, "application/xml; charset=utf-8");
    assert_eq!(reply.body, "<root/>");

    let error = pair_error(408, "Timed <out>");
    assert_eq!(error.status, 200);
    assert_eq!(
        error.body,
        "<root status_code=\"408\" status_message=\"Timed &lt;out&gt;\"><paired>0</paired></root>"
    );

    let missing = not_found();
    assert_eq!(missing.status, 404);
    assert_eq!(missing.content_type, "application/xml; charset=utf-8");
    assert_eq!(missing.body, "<root status_code=\"404\"></root>");

    let clients = clients_response(Some("[1]".to_string()));
    assert_eq!(clients.content_type, "application/json; charset=utf-8");
    assert_eq!(clients.body, "[1]");
    assert_eq!(clients_response(None).body, "[]");
}
