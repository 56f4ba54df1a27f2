//! Pairing a client, from the first request to the entry in the list of clients.
use one_kvm::sunshine::crypto::{
    aes128_ecb_decrypt_no_padding, aes128_ecb_encrypt_no_padding, cert_signature_from_pem,
    derive_pin_key,
};
use one_kvm::sunshine::hex::{hex_decode, hex_encode};
use one_kvm::sunshine::http::HttpReply;
use one_kvm::sunshine::pair_server::{
    is_client_paired, pair, pending_pairings, phase_name, pin_request, submit_pin, valid_pin,
    PairStep,
};
use one_kvm::sunshine::pairing::{
    answer_clientchallenge, answer_serverchallengeresp, begin_getservercert,
    finish_getservercert, handle_clientchallenge, handle_clientpairingsecret,
    handle_serverchallengeresp, has_pin, HostCredentials, PairPhase, PairSession, PairedClient,
};
use one_kvm::sunshine::state::{
    after_default_key, after_rsa_key, generate_host_credentials, signed_credentials,
    stored_credentials, CertFailure, KeyStep, NewCredentials,
};
use one_kvm::text_map::TextMap;
use one_kvm::types::AppError;
use sha2::{Digest, Sha256};

const UID: &str = "0123456789ABCDEF";
const SALT: &str = "000102030405060708090a0b0c0d0e0f";

fn query(pairs: &[(&str, &str)]) -> TextMap<String> {
    let mut map = TextMap::new();
    for (name, value) in pairs {
        map.insert(name.to_string(), value.to_string());
    }
    map
}

fn credentials() -> NewCredentials {
    generate_host_credentials().unwrap()
}

fn broken_host() -> HostCredentials {
    HostCredentials {
        cert_pem: "pem".to_string(),
        cert_der: vec![1, 2, 3],
        key_der: vec![4, 5, 6],
    }
}

fn fresh_session(phase: PairPhase) -> PairSession {
    PairSession {
        unique_id: UID.to_string(),
        client_cert: String::new(),
        client_name: "Moonlight".to_string(),
        salt_hex: SALT.to_string(),
        phase,
        pin: Some("1234".to_string()),
        cipher_key: Some([7u8; 16]),
        client_hash: Vec::new(),
        server_secret: vec![3u8; 16],
        server_challenge: vec![4u8; 16],
    }
}

fn replied(step: PairStep) -> HttpReply {
    match step {
        PairStep::Reply(reply) => reply,
        other => panic!("{other:?}"),
    }
}

fn element(reply: &HttpReply, name: &str) -> String {
    let open = format!("<{name}>");
    let close = format!("</{name}>");
    let start = reply.body.find(&open).unwrap() + open.len();
    let end = reply.body.find(&close).unwrap();
    reply.body[start..end].to_string()
}

fn error(status: u16, message: &str) -> String {
    format!(
        "<root status_code=\"{status}\" status_message=\"{message}\"><paired>0</paired></root>"
    )
}

#[test]
fn a_client_pairs() {
    let host = credentials();
    let client = credentials();
    let mut sessions = TextMap::new();
    let mut clients: Vec<PairedClient> = Vec::new();

    let cert_hex = hex_encode(client.host.cert_pem.as_bytes());
    let first = query(&[
        ("uniqueid", UID),
        ("phrase", "getservercert"),
        ("clientcert", &cert_hex),
        ("salt", SALT),
    ]);
    match pair(&host.host, &mut sessions, &mut clients, &first) {
        PairStep::AwaitPin(uid) => assert_eq!(uid, UID),
        other => panic!("{other:?}"),
    }
    assert!(!has_pin(&sessions, UID));
    let pending = pending_pairings(&sessions);
    assert_eq!(pending.len(), 1);
    assert_eq!(pending[0].unique_id, UID);
    assert_eq!(pending[0].client_name, "Moonlight");
    assert!(!pending[0].has_pin);

    submit_pin(&mut sessions, "1234".to_string(), Some("Couch".to_string()), None).unwrap();
    assert!(has_pin(&sessions, UID));
    let reply = finish_getservercert(&mut sessions, UID, false, &host.host.cert_pem);
    assert_eq!(
        reply.body,
        format!(
            "<root status_code=\"200\"><paired>1</paired><plaincert>{}</plaincert></root>",
            hex_encode(host.host.cert_pem.as_bytes())
        )
    );
    assert_eq!(pending_pairings(&sessions)[0].phase, "GetServerCert");

    let key = derive_pin_key(&hex_decode(SALT).unwrap(), "1234");
    let challenge = [0x11u8; 16];
    let sent = hex_encode(&aes128_ecb_encrypt_no_padding(&key, &challenge).unwrap());
    let reply = replied(pair(
        &host.host,
        &mut sessions,
        &mut clients,
        &query(&[("uniqueid", UID), ("clientchallenge", &sent)]),
    ));
    let answer = hex_decode(&element(&reply, "challengeresponse")).unwrap();
    let answer = aes128_ecb_decrypt_no_padding(&key, &answer).unwrap();
    assert_eq!(answer.len(), 48);
    let secret = sessions.get(UID).unwrap().server_secret.clone();
    let mut hashed = challenge.to_vec();
    hashed.extend(cert_signature_from_pem(&host.host.cert_pem).unwrap());
    hashed.extend(&secret);
    assert_eq!(&answer[..32], Sha256::digest(&hashed).as_slice());
    let server_challenge = answer[32..].to_vec();

    let client_secret = [0x22u8; 16];
    let mut hashed = server_challenge;
    hashed.extend(cert_signature_from_pem(&client.host.cert_pem).unwrap());
    hashed.extend(client_secret);
    let digest = Sha256::digest(&hashed);
    let sent = hex_encode(&aes128_ecb_encrypt_no_padding(&key, &digest).unwrap());
    let reply = replied(pair(
        &host.host,
        &mut sessions,
        &mut clients,
        &query(&[("uniqueid", UID), ("serverchallengeresp", &sent)]),
    ));
    let handed = hex_decode(&element(&reply, "pairingsecret")).unwrap();
    assert_eq!(&handed[..16], &secret[..]);
    assert!(handed.len() > 16);

    let session = sessions.get(UID).unwrap();
    let mut kept = Vec::new();
    let mut shown = client_secret.to_vec();
    shown.push(0);
    let outcome = handle_clientpairingsecret(session, &hex_encode(&shown), &mut kept);
    assert!(outcome.paired);
    assert!(outcome.hash_matched);

    let step = pair(
        &host.host,
        &mut sessions,
        &mut clients,
        &query(&[("uniqueid", UID), ("clientpairingsecret", &hex_encode(&shown))]),
    );
    match step {
        PairStep::ReplyAndSave(reply) => {
            assert_eq!(reply.body, "<root status_code=\"200\"><paired>1</paired></root>")
        }
        other => panic!("{other:?}"),
    }
    assert_eq!(clients.len(), 1);
    assert_eq!(clients[0].name, "Couch");
    assert_eq!(clients[0].uuid, UID);
    assert_eq!(clients[0].cert, client.host.cert_pem);
    assert!(clients[0].enabled);
    assert!(sessions.get(UID).is_none());
    assert!(is_client_paired(&clients, UID));
}

#[test]
fn only_enabled_known_clients_are_paired() {
    let client = |uuid: &str, enabled: bool| PairedClient {
        name: "a".to_string(),
        uuid: uuid.to_string(),
        cert: String::new(),
        enabled,
    };
    let clients = vec![client("x", false), client("y", true), client("", true)];
    assert!(!is_client_paired(&clients, "x"));
    assert!(is_client_paired(&clients, "y"));
    assert!(!is_client_paired(&clients, "z"));
    assert!(!is_client_paired(&clients, ""));
}

#[test]
fn requests_without_a_pairing_are_refused() {
    let host = broken_host();
    let mut sessions = TextMap::new();
    let mut clients = Vec::new();
    let reply = replied(pair(&host, &mut sessions, &mut clients, &query(&[])));
    assert_eq!(reply.body, error(400, "Missing uniqueid parameter"));

    let unknown = query(&[("uniqueid", UID), ("clientchallenge", "00")]);
    let reply = replied(pair(&host, &mut sessions, &mut clients, &unknown));
    assert_eq!(reply.body, error(400, "Invalid uniqueid"));

    let challenge = query(&[("uniqueid", UID), ("phrase", "pairchallenge")]);
    let reply = replied(pair(&host, &mut sessions, &mut clients, &challenge));
    assert_eq!(reply.body, "<root status_code=\"200\"><paired>1</paired></root>");

    sessions.insert(UID.to_string(), fresh_session(PairPhase::Begun));
    let nothing = query(&[("uniqueid", UID), ("phrase", "other")]);
    let reply = replied(pair(&host, &mut sessions, &mut clients, &nothing));
    assert_eq!(reply.body, error(404, "Invalid pairing request"));
    assert!(sessions.get(UID).is_some());
    assert!(clients.is_empty());
}

#[test]
fn the_first_request_needs_a_certificate_and_a_salt() {
    let mut sessions: TextMap<PairSession> = TextMap::new();
    let refused = |sessions: &mut TextMap<PairSession>, pairs: &[(&str, &str)]| {
        begin_getservercert(sessions, UID, &query(pairs)).unwrap_err().body
    };
    assert_eq!(refused(&mut sessions, &[]), error(400, "Missing clientcert parameter"));
    assert_eq!(
        refused(&mut sessions, &[("clientcert", "00")]),
        error(400, "Missing salt parameter")
    );
    assert_eq!(
        refused(&mut sessions, &[("clientcert", "ff"), ("salt", SALT)]),
        error(400, "Invalid client certificate")
    );
    assert!(sessions.get(UID).is_none());

    let odd = query(&[("clientcert", "abc"), ("salt", SALT)]);
    begin_getservercert(&mut sessions, UID, &odd).unwrap();
    assert_eq!(sessions.get(UID).unwrap().client_cert, "");
    let text = query(&[("clientcert", "4869"), ("salt", SALT)]);
    begin_getservercert(&mut sessions, UID, &text).unwrap();
    let session = sessions.get(UID).unwrap();
    assert_eq!(session.client_cert, "Hi");
    assert_eq!(session.salt_hex, SALT);
    assert_eq!(session.phase, PairPhase::Begun);
    assert!(session.pin.is_none());
}

#[test]
fn waiting_for_the_pin_can_fail() {
    let mut sessions = TextMap::new();
    let reply = finish_getservercert(&mut sessions, UID, false, "pem");
    assert_eq!(reply.body, error(400, "Pairing session disappeared"));

    let mut session = fresh_session(PairPhase::Begun);
    session.pin = None;
    sessions.insert(UID.to_string(), session);
    let reply = finish_getservercert(&mut sessions, UID, false, "pem");
    assert_eq!(reply.body, error(400, "PIN not supplied"));

    let mut session = fresh_session(PairPhase::Begun);
    session.salt_hex = "xyz".to_string();
    sessions.insert(UID.to_string(), session);
    let reply = finish_getservercert(&mut sessions, UID, false, "pem");
    assert_eq!(reply.body, error(400, "Invalid salt"));

    let mut session = fresh_session(PairPhase::Begun);
    session.salt_hex = "00".to_string();
    sessions.insert(UID.to_string(), session);
    let reply = finish_getservercert(&mut sessions, UID, false, "pem");
    assert_eq!(reply.body, error(400, "Salt too short"));

    let reply = finish_getservercert(&mut sessions, UID, true, "pem");
    assert_eq!(reply.body, error(408, "Timed out waiting for PIN"));
    assert!(sessions.get(UID).is_none());
}

#[test]
fn phases_must_come_in_order() {
    let mut session = fresh_session(PairPhase::Begun);
    let reply = handle_clientchallenge(&mut session, "00", &[]);
    assert_eq!(reply.body, error(400, "Out of order clientchallenge"));
    let reply = handle_serverchallengeresp(&mut session, "00", &[]);
    assert_eq!(reply.body, error(400, "Out of order serverchallengeresp"));
    let mut clients = Vec::new();
    let outcome = handle_clientpairingsecret(&session, "00", &mut clients);
    assert_eq!(outcome.reply.body, error(400, "Out of order clientpairingsecret"));
    assert!(!outcome.paired);
    assert!(clients.is_empty());
    assert_eq!(session.phase, PairPhase::Begun);
}

#[test]
fn a_challenge_must_be_whole_blocks_of_hex() {
    let mut session = fresh_session(PairPhase::GetServerCert);
    let reply = handle_clientchallenge(&mut session, "zz", &[]);
    assert_eq!(reply.body, error(400, "Invalid clientchallenge"));
    let reply = handle_clientchallenge(&mut session, "00", &[]);
    assert_eq!(reply.body, error(400, "Invalid clientchallenge"));
    let reply = handle_clientchallenge(&mut session, &"00".repeat(16), &[1, 2]);
    assert_eq!(reply.body, error(500, "Invalid server certificate signature"));
    session.cipher_key = None;
    let reply = handle_clientchallenge(&mut session, &"00".repeat(16), &[1, 2]);
    assert_eq!(reply.body, error(400, "Cipher key not set"));
    assert_eq!(session.phase, PairPhase::GetServerCert);
}

#[test]
fn a_challenge_response_must_be_whole_blocks_of_hex() {
    let mut session = fresh_session(PairPhase::ClientChallenge);
    let reply = handle_serverchallengeresp(&mut session, "0", &[]);
    assert_eq!(reply.body, error(400, "Invalid serverchallengeresp"));
    let reply = handle_serverchallengeresp(&mut session, &"00".repeat(16), &[1, 2]);
    assert_eq!(reply.body, error(500, "Failed to sign pairing secret"));
    session.cipher_key = None;
    let reply = handle_serverchallengeresp(&mut session, &"00".repeat(16), &[1, 2]);
    assert_eq!(reply.body, error(400, "Cipher key not set"));
    assert_eq!(session.phase, PairPhase::ClientChallenge);
}

#[test]
fn a_challenge_is_answered_with_what_was_drawn() {
    let mut session = fresh_session(PairPhase::GetServerCert);
    let reply = answer_clientchallenge(&mut session, b"cc", b"ss", vec![1u8; 16], vec![2u8; 16]);
    let mut hashed = b"ccss".to_vec();
    hashed.extend([1u8; 16]);
    let mut plain = Sha256::digest(&hashed).to_vec();
    plain.extend([2u8; 16]);
    let encrypted = aes128_ecb_encrypt_no_padding(&[7u8; 16], &plain).unwrap();
    assert_eq!(element(&reply, "challengeresponse"), hex_encode(&encrypted));
    assert_eq!(session.phase, PairPhase::ClientChallenge);
    assert_eq!(session.server_secret, vec![1u8; 16]);
    assert_eq!(session.server_challenge, vec![2u8; 16]);
}

#[test]
fn a_signed_secret_is_handed_over() {
    let mut session = fresh_session(PairPhase::ClientChallenge);
    let reply = answer_serverchallengeresp(&mut session, vec![9u8; 32], Some(vec![0xee]));
    assert_eq!(element(&reply, "pairingsecret"), format!("{}ee", "03".repeat(16)));
    assert_eq!(session.client_hash, vec![9u8; 32]);
    assert_eq!(session.phase, PairPhase::ServerChallengeResp);

    let mut session = fresh_session(PairPhase::ClientChallenge);
    let reply = answer_serverchallengeresp(&mut session, vec![9u8; 32], None);
    assert_eq!(reply.body, error(500, "Failed to sign pairing secret"));
    assert_eq!(session.phase, PairPhase::ClientChallenge);
}

#[test]
fn the_last_secret_is_checked() {
    let mut clients = Vec::new();
    let session = fresh_session(PairPhase::ServerChallengeResp);
    let outcome = handle_clientpairingsecret(&session, "0", &mut clients);
    assert_eq!(outcome.reply.body, error(400, "Invalid clientpairingsecret"));
    let outcome = handle_clientpairingsecret(&session, &"00".repeat(16), &mut clients);
    assert_eq!(outcome.reply.body, error(400, "Client pairing secret too short"));
    let outcome = handle_clientpairingsecret(&session, &"00".repeat(17), &mut clients);
    assert_eq!(outcome.reply.body, error(400, "Invalid client certificate signature"));
    assert!(clients.is_empty());

    let mut session = fresh_session(PairPhase::ServerChallengeResp);
    session.client_cert = credentials().host.cert_pem;
    let outcome = handle_clientpairingsecret(&session, &"00".repeat(17), &mut clients);
    assert!(outcome.paired);
    assert!(!outcome.hash_matched);
    assert_eq!(clients.len(), 1);
}

#[test]
fn a_finished_or_failed_last_step_ends_the_session() {
    let host = broken_host();
    let mut sessions = TextMap::new();
    sessions.insert(UID.to_string(), fresh_session(PairPhase::ServerChallengeResp));
    let mut clients = Vec::new();
    let last = query(&[("uniqueid", UID), ("clientpairingsecret", "0")]);
    let reply = replied(pair(&host, &mut sessions, &mut clients, &last));
    assert_eq!(reply.body, error(400, "Invalid clientpairingsecret"));
    assert!(sessions.get(UID).is_none());
    assert!(clients.is_empty());
}

#[test]
fn a_pin_is_four_digits() {
    assert!(valid_pin("0000"));
    assert!(!valid_pin("123"));
    assert!(!valid_pin("12345"));
    assert!(!valid_pin("12a4"));
    assert!(!valid_pin("١٢"));
}

#[test]
fn a_pin_goes_to_its_session() {
    let mut sessions: TextMap<PairSession> = TextMap::new();
    let bad = submit_pin(&mut sessions, "12".to_string(), None, None);
    assert_eq!(bad, Err(AppError::BadRequest("PIN must be four digits".to_string())));
    let none = submit_pin(&mut sessions, "1234".to_string(), None, None);
    assert_eq!(
        none,
        Err(AppError::NotFound("No pending Moonlight pairing session".to_string()))
    );
    let mut session = fresh_session(PairPhase::Begun);
    session.pin = None;
    sessions.insert(UID.to_string(), session);
    let other = submit_pin(&mut sessions, "1234".to_string(), None, Some("other".to_string()));
    assert_eq!(
        other,
        Err(AppError::NotFound("No matching Moonlight pairing session".to_string()))
    );
    submit_pin(&mut sessions, "4321".to_string(), Some("  ".to_string()), Some(UID.to_string()))
        .unwrap();
    let session = sessions.get(UID).unwrap();
    assert_eq!(session.pin.as_deref(), Some("4321"));
    assert_eq!(session.client_name, "Moonlight");
}

#[test]
fn a_pin_can_come_over_http() {
    let mut sessions: TextMap<PairSession> = TextMap::new();
    let reply = pin_request(&mut sessions, &query(&[])).unwrap();
    assert_eq!(reply.body, error(400, "Missing pin"));
    let reply = pin_request(&mut sessions, &query(&[("pin", "12x4")])).unwrap();
    assert_eq!(reply.body, error(400, "PIN must be four digits"));
    assert!(pin_request(&mut sessions, &query(&[("pin", "1234")])).is_err());
    sessions.insert(UID.to_string(), fresh_session(PairPhase::Begun));
    let reply = pin_request(&mut sessions, &query(&[("pin", "9876"), ("name", "TV")])).unwrap();
    assert_eq!(reply.body, "<root status_code=\"200\"><pin>1</pin></root>");
    assert_eq!(sessions.get(UID).unwrap().pin.as_deref(), Some("9876"));
    assert_eq!(sessions.get(UID).unwrap().client_name, "TV");
}

#[test]
fn phases_have_names() {
    assert_eq!(phase_name(PairPhase::Begun), "None");
    assert_eq!(phase_name(PairPhase::GetServerCert), "GetServerCert");
    assert_eq!(phase_name(PairPhase::ClientChallenge), "ClientChallenge");
    assert_eq!(phase_name(PairPhase::ServerChallengeResp), "ServerChallengeResp");
}

#[test]
fn an_rsa_key_comes_first() {
    let key = ("pem".to_string(), vec![1u8, 2]);
    match after_rsa_key(Some(key.clone())) {
        KeyStep::Use(pem, der) => assert_eq!((pem, der), key),
        other => panic!("{other:?}"),
    }
    assert!(matches!(after_rsa_key(None), KeyStep::TryDefault));
    assert_eq!(after_default_key(Ok(key.clone())), Ok(key));
    assert_eq!(
        after_default_key(Err("no keys".to_string())),
        Err(AppError::Internal("generate Sunshine key failed: no keys".to_string()))
    );
}

#[test]
fn credentials_are_read_back_from_their_files() {
    let fresh = credentials();
    assert!(fresh.host.cert_pem.starts_with("-----BEGIN CERTIFICATE-----"));
    let read = stored_credentials(fresh.host.cert_pem.clone(), &fresh.key_pem).unwrap();
    assert_eq!(read.cert_pem, fresh.host.cert_pem);
    assert_eq!(read.cert_der, fresh.host.cert_der);
    assert_eq!(read.key_der, fresh.host.key_der);
    assert!(stored_credentials("bad".to_string(), &fresh.key_pem).is_none());
    assert!(stored_credentials(fresh.host.cert_pem, "bad").is_none());
}

#[test]
fn a_certificate_that_cannot_be_made_is_reported() {
    let made = |signed| signed_credentials("k".to_string(), vec![1], signed);
    assert_eq!(
        made(Err(CertFailure::Subject("bad".to_string()))).unwrap_err(),
        AppError::Internal("create cert params failed: bad".to_string())
    );
    assert_eq!(
        made(Err(CertFailure::Signing("bad".to_string()))).unwrap_err(),
        AppError::Internal("generate Sunshine cert failed: bad".to_string())
    );
    let kept = made(Ok(("c".to_string(), vec![2]))).unwrap();
    assert_eq!((kept.key_pem.as_str(), kept.host.cert_pem.as_str()), ("k", "c"));
    assert_eq!((kept.host.key_der, kept.host.cert_der), (vec![1], vec![2]));
}

#[test]
fn fresh_credentials_differ() {
    let (a, b) = (credentials(), credentials());
    assert_ne!(a.host.key_der, b.host.key_der);
    assert_ne!(a.host.cert_der, b.host.cert_der);
    let host_name = b"Sunshine Gamestream Host";
    assert!(a.host.cert_der.windows(host_name.len()).any(|part| part == host_name));
}
