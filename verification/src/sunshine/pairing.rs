//! Pairing with Moonlight clients.
//!
//! A client pairs in four requests: it hands over its certificate and a salt and waits for the
//! PIN, it sends a challenge, it answers the host's challenge, and it proves its secret. The
//! session of a client remembers how far it has come; a request out of order changes nothing.
use crate::bytes::same_bytes;
use crate::sunshine::crypto::{
    aes128_ecb_decrypt_no_padding, aes128_ecb_encrypt_no_padding, cert_signature,
    cert_signature_from_pem, derive_pin_key, ecb_decrypt, ecb_encrypt, is_whole_blocks,
    pem_signature, pin_key, random_bytes, sha256, sha256_digest, x509_signature,
};
use crate::sunshine::hex::{decode_hex, encode_hex, hex_decode, hex_encode};
use crate::sunshine::http::{
    is_pair_error, is_xml, pair_error, wrapped, xml_response, HttpReply,
};
use crate::text::{owned, read_utf8, utf8_decoded};
use crate::text_map::TextMap;
use rcgen::SigningKey;
use vstd::prelude::*;
use vstd::slice::slice_subrange;
use vstd::utf8::*;

verus! {

/// A client that has paired.
#[derive(Debug, Clone)]
pub struct PairedClient {
    pub name: String,
    pub uuid: String,
    pub cert: String,
    pub enabled: bool,
}

/// A pairing that has begun.
#[derive(Debug, Clone)]
pub struct PendingPairing {
    pub unique_id: String,
    pub client_name: String,
    pub phase: String,
    pub has_pin: bool,
}

/// How far a pairing has come.
#[derive(Debug, Clone, Copy, PartialEq, Eq, Structural)]
pub enum PairPhase {
    Begun,
    GetServerCert,
    ClientChallenge,
    ServerChallengeResp,
}

/// What the host remembers of a pairing.
#[derive(Debug, Clone)]
pub struct PairSession {
    pub unique_id: String,
    pub client_cert: String,
    pub client_name: String,
    pub salt_hex: String,
    pub phase: PairPhase,
    pub pin: Option<String>,
    pub cipher_key: Option<[u8; 16]>,
    pub client_hash: Vec<u8>,
    pub server_secret: Vec<u8>,
    pub server_challenge: Vec<u8>,
}

/// The certificate and the key that the host shows.
#[derive(Debug, Clone)]
pub struct HostCredentials {
    pub cert_pem: String,
    pub cert_der: Vec<u8>,
    pub key_der: Vec<u8>,
}

/// Every session stands under its own client's name.
pub open spec fn sessions_wf(sessions: Map<Seq<char>, PairSession>) -> bool {
    forall|k: Seq<char>| #[trigger] sessions.contains_key(k) ==> sessions[k].unique_id@ == k
}

/// The value of a query parameter.
pub open spec fn param(query: Map<Seq<char>, String>, name: Seq<char>) -> Option<Seq<char>> {
    if query.contains_key(name) {
        Some(query[name]@)
    } else {
        None
    }
}

/// The bytes that hexadecimal text decrypts to, where it is whole blocks.
pub open spec fn decrypt_hex(key: Seq<u8>, text: Seq<char>) -> Option<Seq<u8>> {
    match decode_hex(encode_utf8(text)) {
        Some(data) => if is_whole_blocks(data) {
            Some(ecb_decrypt(key, data))
        } else {
            None
        },
        None => None,
    }
}

/// Reads hexadecimal text and decrypts it.
fn read_encrypted(key: &[u8; 16], text: &str) -> (r: Option<Vec<u8>>)
    ensures
        match r {
            Some(v) => decrypt_hex(key@, text@) == Some(v@),
            None => decrypt_hex(key@, text@) is None,
        },
{
    match hex_decode(text) {
        Ok(data) => match aes128_ecb_decrypt_no_padding(key, data.as_slice()) {
            Ok(v) => Some(v),
            Err(_) => None,
        },
        Err(_) => None,
    }
}

/// A successful answer of the pairing protocol, with one more element inside.
pub open spec fn paired_body(open_tag: Seq<char>, value: Seq<char>, close_tag: Seq<char>) -> Seq<
    char,
> {
    "<root status_code=\"200\"><paired>1</paired>"@ + open_tag + value + close_tag + "</root>"@
}

fn paired_response(open_tag: &str, value: &str, close_tag: &str) -> (r: HttpReply)
    ensures
        is_xml(r, 200, paired_body(open_tag@, value@, close_tag@)),
{
    let head = wrapped("<root status_code=\"200\"><paired>1</paired>", open_tag, value);
    xml_response(wrapped(head.as_str(), close_tag, "</root>"))
}

/// The body that says that a client is paired.
pub open spec fn paired_plain_body() -> Seq<char> {
    "<root status_code=\"200\"><paired>1</paired></root>"@
}

// ---------------------------------------------------------------- the first request

/// The certificate that a client sends: the text that the hexadecimal parameter encodes, where
/// text that is not hexadecimal counts as empty.
pub open spec fn sent_cert(text: Seq<char>) -> Option<Seq<char>> {
    utf8_decoded(
        match decode_hex(encode_utf8(text)) {
            Some(bytes) => bytes,
            None => Seq::empty(),
        },
    )
}

/// A session as it begins.
pub open spec fn is_new_session(
    s: PairSession,
    unique_id: Seq<char>,
    cert: Seq<char>,
    salt: Seq<char>,
) -> bool {
    &&& s.unique_id@ == unique_id
    &&& s.client_cert@ == cert
    &&& s.client_name@ == "Moonlight"@
    &&& s.salt_hex@ == salt
    &&& s.phase == PairPhase::Begun
    &&& s.pin is None
    &&& s.cipher_key is None
    &&& s.client_hash@.len() == 0
    &&& s.server_secret@.len() == 0
    &&& s.server_challenge@.len() == 0
}

/// What refuses a client's first request.
pub open spec fn getservercert_error(query: Map<Seq<char>, String>) -> Option<(u16, Seq<char>)> {
    if param(query, "clientcert"@) is None {
        Some((400, "Missing clientcert parameter"@))
    } else if param(query, "salt"@) is None {
        Some((400, "Missing salt parameter"@))
    } else if sent_cert(param(query, "clientcert"@)->0) is None {
        Some((400, "Invalid client certificate"@))
    } else {
        None
    }
}

/// Takes up a client's first request: a fresh session takes the place of one that the client
/// may have had, and waits for the PIN. `Err` is the answer to a malformed request.
pub fn begin_getservercert(
    sessions: &mut TextMap<PairSession>,
    unique_id: &str,
    query: &TextMap<String>,
) -> (r: Result<(), HttpReply>)
    ensures
        sessions_wf(old(sessions)@) ==> sessions_wf(final(sessions)@),
        match r {
            Ok(_) => {
                &&& getservercert_error(query@) is None
                &&& final(sessions)@.contains_key(unique_id@)
                &&& is_new_session(
                    final(sessions)@[unique_id@],
                    unique_id@,
                    sent_cert(param(query@, "clientcert"@)->0)->0,
                    param(query@, "salt"@)->0,
                )
                &&& final(sessions)@ == old(sessions)@.insert(
                    unique_id@,
                    final(sessions)@[unique_id@],
                )
            },
            Err(reply) => {
                &&& getservercert_error(query@) matches Some((status, message)) && is_pair_error(
                    reply,
                    status,
                    message,
                )
                &&& final(sessions)@ == old(sessions)@
            },
        },
{
    let clientcert_hex = match query.get("clientcert") {
        Some(v) => v,
        None => {
            return Err(pair_error(400, "Missing clientcert parameter"));
        },
    };
    let salt_hex = match query.get("salt") {
        Some(v) => v,
        None => {
            return Err(pair_error(400, "Missing salt parameter"));
        },
    };
    let cert_bytes = match hex_decode(clientcert_hex.as_str()) {
        Ok(v) => v,
        Err(_) => {
            let empty: Vec<u8> = Vec::new();
            assert(empty@ == Seq::<u8>::empty());
            empty
        },
    };
    let client_cert = match read_utf8(cert_bytes.as_slice()) {
        Some(text) => owned(text),
        None => {
            return Err(pair_error(400, "Invalid client certificate"));
        },
    };
    let session = PairSession {
        unique_id: owned(unique_id),
        client_cert,
        client_name: owned("Moonlight"),
        salt_hex: salt_hex.clone(),
        phase: PairPhase::Begun,
        pin: None,
        cipher_key: None,
        client_hash: Vec::new(),
        server_secret: Vec::new(),
        server_challenge: Vec::new(),
    };
    sessions.insert(owned(unique_id), session);
    Ok(())
}

/// Whether the PIN of a client's pairing has been entered.
pub fn has_pin(sessions: &TextMap<PairSession>, unique_id: &str) -> (r: bool)
    ensures
        r == (sessions@.contains_key(unique_id@) && sessions@[unique_id@].pin is Some),
{
    match sessions.get(unique_id) {
        Some(session) => session.pin.is_some(),
        None => false,
    }
}

/// What refuses a client's first request once the wait for the PIN is over.
pub open spec fn after_pin_error(session: Option<PairSession>, timed_out: bool) -> Option<
    (u16, Seq<char>),
> {
    if timed_out {
        Some((408, "Timed out waiting for PIN"@))
    } else {
        match session {
            None => Some((400, "Pairing session disappeared"@)),
            Some(s) => if s.pin is None {
                Some((400, "PIN not supplied"@))
            } else {
                match decode_hex(encode_utf8(s.salt_hex@)) {
                    None => Some((400, "Invalid salt"@)),
                    Some(salt) => if salt.len() < 16 {
                        Some((400, "Salt too short"@))
                    } else {
                        None
                    },
                }
            },
        }
    }
}

/// A client's session, if it has one.
pub open spec fn session_of(
    sessions: Map<Seq<char>, PairSession>,
    unique_id: Seq<char>,
) -> Option<PairSession> {
    if sessions.contains_key(unique_id) {
        Some(sessions[unique_id])
    } else {
        None
    }
}

/// The key that a session's PIN and salt give.
pub open spec fn session_key(s: PairSession) -> Seq<u8> {
    pin_key(decode_hex(encode_utf8(s.salt_hex@))->0.take(16), s.pin->0@)
}

/// Answers a client's first request once the wait for the PIN is over. With the PIN the session
/// gets its key and the client the host's certificate; without it the session ends.
pub fn finish_getservercert(
    sessions: &mut TextMap<PairSession>,
    unique_id: &str,
    timed_out: bool,
    cert_pem: &str,
) -> (r: HttpReply)
    ensures
        sessions_wf(old(sessions)@) ==> sessions_wf(final(sessions)@),
        match after_pin_error(session_of(old(sessions)@, unique_id@), timed_out) {
            Some((status, message)) => {
                &&& is_pair_error(r, status, message)
                &&& final(sessions)@ == (if timed_out {
                    old(sessions)@.remove(unique_id@)
                } else {
                    old(sessions)@
                })
            },
            None => {
                let before = old(sessions)@[unique_id@];
                let after = final(sessions)@[unique_id@];
                &&& is_xml(
                    r,
                    200,
                    paired_body("<plaincert>"@, encode_hex(encode_utf8(cert_pem@)), "</plaincert>"@),
                )
                &&& final(sessions)@ == old(sessions)@.insert(unique_id@, after)
                &&& after.cipher_key is Some
                &&& after.cipher_key->0@ == session_key(before)
                &&& after == PairSession {
                    cipher_key: after.cipher_key,
                    phase: PairPhase::GetServerCert,
                    ..before
                }
            },
        },
{
    let ghost start = sessions@;
    if timed_out {
        let _ = sessions.remove(unique_id);
        return pair_error(408, "Timed out waiting for PIN");
    }
    let mut session = match sessions.remove(unique_id) {
        Some(s) => s,
        None => {
            assert(sessions@ =~= start);
            return pair_error(400, "Pairing session disappeared");
        },
    };
    let outcome = set_session_key(&mut session);
    sessions.insert(owned(unique_id), session);
    assert(sessions@ =~= start.insert(unique_id@, session));
    match outcome {
        Ok(_) => {
            let cert_hex = hex_encode(cert_pem.as_bytes());
            paired_response("<plaincert>", cert_hex.as_str(), "</plaincert>")
        },
        Err(reply) => {
            assert(sessions@ =~= start);
            reply
        },
    }
}

fn set_session_key(session: &mut PairSession) -> (r: Result<(), HttpReply>)
    ensures
        match after_pin_error(Some(*old(session)), false) {
            Some((status, message)) => *final(session) == *old(session) && (r matches Err(reply)
                && is_pair_error(reply, status, message)),
            None => {
                &&& r is Ok
                &&& final(session).cipher_key is Some
                &&& final(session).cipher_key->0@ == session_key(*old(session))
                &&& *final(session) == PairSession {
                    cipher_key: final(session).cipher_key,
                    phase: PairPhase::GetServerCert,
                    ..*old(session)
                }
            },
        },
{
    let key = match &session.pin {
        None => {
            return Err(pair_error(400, "PIN not supplied"));
        },
        Some(pin) => {
            let salt = match hex_decode(session.salt_hex.as_str()) {
                Ok(v) => v,
                Err(_) => {
                    return Err(pair_error(400, "Invalid salt"));
                },
            };
            if salt.len() < 16 {
                return Err(pair_error(400, "Salt too short"));
            }
            derive_pin_key(slice_subrange(salt.as_slice(), 0, 16), pin.as_str())
        },
    };
    session.cipher_key = Some(key);
    session.phase = PairPhase::GetServerCert;
    Ok(())
}

// ---------------------------------------------------------------- the client's challenge

/// What refuses a client's challenge, given the signature of the host's certificate.
pub open spec fn clientchallenge_error(
    s: PairSession,
    text: Seq<char>,
    signature: Option<Seq<u8>>,
) -> Option<(u16, Seq<char>)> {
    if s.phase != PairPhase::GetServerCert {
        Some((400, "Out of order clientchallenge"@))
    } else if s.cipher_key is None {
        Some((400, "Cipher key not set"@))
    } else if decrypt_hex(s.cipher_key->0@, text) is None {
        Some((400, "Invalid clientchallenge"@))
    } else if signature is None {
        Some((500, "Invalid server certificate signature"@))
    } else {
        None
    }
}

/// Checks a client's challenge; gives the challenge and the signature of the host's certificate.
pub fn check_clientchallenge(session: &PairSession, challenge_hex: &str, cert_der: &[u8]) -> (r:
    Result<(Vec<u8>, Vec<u8>), HttpReply>)
    ensures
        match clientchallenge_error(*session, challenge_hex@, x509_signature(cert_der@)) {
            Some((status, message)) => r matches Err(reply) && is_pair_error(
                reply,
                status,
                message,
            ),
            None => r matches Ok((challenge, signature)) && Some(challenge@) == decrypt_hex(
                session.cipher_key->0@,
                challenge_hex@,
            ) && Some(signature@) == x509_signature(cert_der@),
        },
{
    if session.phase != PairPhase::GetServerCert {
        return Err(pair_error(400, "Out of order clientchallenge"));
    }
    let key = match &session.cipher_key {
        Some(key) => key,
        None => {
            return Err(pair_error(400, "Cipher key not set"));
        },
    };
    let challenge = match read_encrypted(key, challenge_hex) {
        Some(v) => v,
        None => {
            return Err(pair_error(400, "Invalid clientchallenge"));
        },
    };
    match cert_signature(cert_der) {
        Ok(signature) => Ok((challenge, signature)),
        Err(_) => Err(pair_error(500, "Invalid server certificate signature")),
    }
}

/// What the host answers to a challenge, before encryption: the digest of the challenge, the
/// signature of its certificate and its secret, and then its own challenge.
pub open spec fn challenge_answer(
    challenge: Seq<u8>,
    signature: Seq<u8>,
    secret: Seq<u8>,
    server_challenge: Seq<u8>,
) -> Seq<u8> {
    sha256(challenge + signature + secret) + server_challenge
}

/// Answers a client's challenge with a secret and a challenge of the host.
pub fn answer_clientchallenge(
    session: &mut PairSession,
    challenge: &[u8],
    signature: &[u8],
    secret: Vec<u8>,
    server_challenge: Vec<u8>,
) -> (r: HttpReply)
    requires
        old(session).cipher_key is Some,
        server_challenge@.len() == 16,
    ensures
        *final(session) == (PairSession {
            server_secret: secret,
            server_challenge,
            phase: PairPhase::ClientChallenge,
            ..*old(session)
        }),
        is_xml(
            r,
            200,
            paired_body(
                "<challengeresponse>"@,
                encode_hex(
                    ecb_encrypt(
                        old(session).cipher_key->0@,
                        challenge_answer(challenge@, signature@, secret@, server_challenge@),
                    ),
                ),
                "</challengeresponse>"@,
            ),
        ),
        ecb_decrypt(
            old(session).cipher_key->0@,
            ecb_encrypt(
                old(session).cipher_key->0@,
                challenge_answer(challenge@, signature@, secret@, server_challenge@),
            ),
        ) == challenge_answer(challenge@, signature@, secret@, server_challenge@),
{
    let mut hash_input: Vec<u8> = Vec::new();
    hash_input.extend_from_slice(challenge);
    hash_input.extend_from_slice(signature);
    hash_input.extend_from_slice(secret.as_slice());
    assert(hash_input@ == challenge@ + signature@ + secret@);
    let mut plaintext = sha256_digest(hash_input.as_slice());
    plaintext.extend_from_slice(server_challenge.as_slice());
    assert(plaintext@ == challenge_answer(challenge@, signature@, secret@, server_challenge@));
    session.server_secret = secret;
    session.server_challenge = server_challenge;
    let encrypted = match &session.cipher_key {
        Some(key) => aes128_ecb_encrypt_no_padding(key, plaintext.as_slice()),
        None => Err(()),
    };
    session.phase = PairPhase::ClientChallenge;
    match encrypted {
        Ok(bytes) => {
            let text = hex_encode(bytes.as_slice());
            paired_response("<challengeresponse>", text.as_str(), "</challengeresponse>")
        },
        Err(_) => pair_error(500, "Invalid challengeresp plaintext length"),
    }
}

/// Whether a session and an answer are what a challenge leads to, for some secret and some
/// challenge of the host.
pub open spec fn clientchallenge_step(
    before: PairSession,
    text: Seq<char>,
    signature: Option<Seq<u8>>,
    after: PairSession,
    reply: HttpReply,
) -> bool {
    match clientchallenge_error(before, text, signature) {
        Some((status, message)) => after == before && is_pair_error(reply, status, message),
        None => {
            &&& after.server_secret@.len() == 16
            &&& after.server_challenge@.len() == 16
            &&& after == PairSession {
                server_secret: after.server_secret,
                server_challenge: after.server_challenge,
                phase: PairPhase::ClientChallenge,
                ..before
            }
            &&& ({
                let answer = challenge_answer(
                    decrypt_hex(before.cipher_key->0@, text)->0,
                    signature->0,
                    after.server_secret@,
                    after.server_challenge@,
                );
                ecb_decrypt(before.cipher_key->0@, ecb_encrypt(before.cipher_key->0@, answer))
                    == answer
            })
            &&& is_xml(
                reply,
                200,
                paired_body(
                    "<challengeresponse>"@,
                    encode_hex(
                        ecb_encrypt(
                            before.cipher_key->0@,
                            challenge_answer(
                                decrypt_hex(before.cipher_key->0@, text)->0,
                                signature->0,
                                after.server_secret@,
                                after.server_challenge@,
                            ),
                        ),
                    ),
                    "</challengeresponse>"@,
                ),
            )
        },
    }
}

/// Takes up a client's challenge, with a fresh secret and a fresh challenge of the host.
pub fn handle_clientchallenge(session: &mut PairSession, challenge_hex: &str, cert_der: &[u8])
    -> (r: HttpReply)
    ensures
        clientchallenge_step(
            *old(session),
            challenge_hex@,
            x509_signature(cert_der@),
            *final(session),
            r,
        ),
{
    match check_clientchallenge(session, challenge_hex, cert_der) {
        Ok((challenge, signature)) => {
            let secret = random_bytes(16);
            let server_challenge = random_bytes(16);
            answer_clientchallenge(
                session,
                challenge.as_slice(),
                signature.as_slice(),
                secret,
                server_challenge,
            )
        },
        Err(reply) => reply,
    }
}

// ---------------------------------------------------------------- the client's answer

/// What refuses a client's answer to the host's challenge.
pub open spec fn serverchallengeresp_error(s: PairSession, text: Seq<char>) -> Option<
    (u16, Seq<char>),
> {
    if s.phase != PairPhase::ClientChallenge {
        Some((400, "Out of order serverchallengeresp"@))
    } else if s.cipher_key is None {
        Some((400, "Cipher key not set"@))
    } else if decrypt_hex(s.cipher_key->0@, text) is None {
        Some((400, "Invalid serverchallengeresp"@))
    } else {
        None
    }
}

/// Checks a client's answer to the host's challenge; gives the hash that it carries.
pub fn check_serverchallengeresp(session: &PairSession, response_hex: &str) -> (r: Result<
    Vec<u8>,
    HttpReply,
>)
    ensures
        match serverchallengeresp_error(*session, response_hex@) {
            Some((status, message)) => r matches Err(reply) && is_pair_error(
                reply,
                status,
                message,
            ),
            None => r matches Ok(hash) && Some(hash@) == decrypt_hex(
                session.cipher_key->0@,
                response_hex@,
            ),
        },
{
    if session.phase != PairPhase::ClientChallenge {
        return Err(pair_error(400, "Out of order serverchallengeresp"));
    }
    let key = match &session.cipher_key {
        Some(key) => key,
        None => {
            return Err(pair_error(400, "Cipher key not set"));
        },
    };
    match read_encrypted(key, response_hex) {
        Some(v) => Ok(v),
        None => Err(pair_error(400, "Invalid serverchallengeresp")),
    }
}

/// Answers with the host's secret and its signature, where there is one.
pub fn answer_serverchallengeresp(
    session: &mut PairSession,
    client_hash: Vec<u8>,
    signature: Option<Vec<u8>>,
) -> (r: HttpReply)
    ensures
        match signature {
            None => *final(session) == *old(session) && is_pair_error(
                r,
                500,
                "Failed to sign pairing secret"@,
            ),
            Some(bytes) => {
                &&& *final(session) == PairSession {
                    client_hash,
                    phase: PairPhase::ServerChallengeResp,
                    ..*old(session)
                }
                &&& is_xml(
                    r,
                    200,
                    paired_body(
                        "<pairingsecret>"@,
                        encode_hex(old(session).server_secret@ + bytes@),
                        "</pairingsecret>"@,
                    ),
                )
            },
        },
{
    match signature {
        None => pair_error(500, "Failed to sign pairing secret"),
        Some(bytes) => {
            session.client_hash = client_hash;
            session.phase = PairPhase::ServerChallengeResp;
            let mut pairing_secret: Vec<u8> = Vec::new();
            pairing_secret.extend_from_slice(session.server_secret.as_slice());
            pairing_secret.extend_from_slice(bytes.as_slice());
            assert(pairing_secret@ == session.server_secret@ + bytes@);
            let text = hex_encode(pairing_secret.as_slice());
            paired_response("<pairingsecret>", text.as_str(), "</pairingsecret>")
        },
    }
}

/// Whether bytes are a signature of a message under a private key in DER form: what verifying
/// them with the public half of the key answers.
pub uninterp spec fn is_signature(key: Seq<u8>, message: Seq<u8>, signature: Seq<u8>) -> bool;

/// Calls `sign` of `rcgen::KeyPair`, on the key that `rcgen::KeyPair::try_from` reads from its
/// DER form: a signature of the message under the key, or nothing where either call fails. A
/// signature may be drawn at random, so which one it is stays open, and so does whether the calls
/// succeed.
#[verifier::external_body]
fn sign_with_key(key_der: &[u8], message: &[u8]) -> (r: Option<Vec<u8>>)
    ensures
        match r {
            Some(signature) => is_signature(key_der@, message@, signature@),
            None => true,
        },
{
    match rcgen::KeyPair::try_from(key_der) {
        Ok(key) => key.sign(message).ok(),
        Err(_) => None,
    }
}

/// Whether a session and an answer are what a client's answer leads to, for some signature of the
/// host's secret under the host's key.
pub open spec fn serverchallengeresp_step(
    before: PairSession,
    text: Seq<char>,
    key: Seq<u8>,
    after: PairSession,
    reply: HttpReply,
) -> bool {
    match serverchallengeresp_error(before, text) {
        Some((status, message)) => after == before && is_pair_error(reply, status, message),
        None => {
            ||| after == before && is_pair_error(reply, 500, "Failed to sign pairing secret"@)
            ||| {
                &&& Some(after.client_hash@) == decrypt_hex(before.cipher_key->0@, text)
                &&& after == PairSession {
                    client_hash: after.client_hash,
                    phase: PairPhase::ServerChallengeResp,
                    ..before
                }
                &&& exists|signature: Seq<u8>|
                    {
                        &&& #[trigger] is_signature(key, before.server_secret@, signature)
                        &&& is_xml(
                            reply,
                            200,
                            paired_body(
                                "<pairingsecret>"@,
                                encode_hex(before.server_secret@ + signature),
                                "</pairingsecret>"@,
                            ),
                        )
                    }
            }
        },
    }
}

/// Takes up a client's answer to the host's challenge.
pub fn handle_serverchallengeresp(session: &mut PairSession, response_hex: &str, key_der: &[u8])
    -> (r: HttpReply)
    ensures
        serverchallengeresp_step(*old(session), response_hex@, key_der@, *final(session), r),
{
    match check_serverchallengeresp(session, response_hex) {
        Ok(client_hash) => {
            let signature = sign_with_key(key_der, session.server_secret.as_slice());
            answer_serverchallengeresp(session, client_hash, signature)
        },
        Err(reply) => reply,
    }
}

// ---------------------------------------------------------------- the client's secret

/// What refuses a client's secret, given the signature of the client's certificate.
pub open spec fn clientpairingsecret_error(
    s: PairSession,
    text: Seq<char>,
    signature: Option<Seq<u8>>,
) -> Option<(u16, Seq<char>)> {
    if s.phase != PairPhase::ServerChallengeResp {
        Some((400, "Out of order clientpairingsecret"@))
    } else {
        match decode_hex(encode_utf8(text)) {
            None => Some((400, "Invalid clientpairingsecret"@)),
            Some(secret) => if secret.len() <= 16 {
                Some((400, "Client pairing secret too short"@))
            } else if signature is None {
                Some((400, "Invalid client certificate signature"@))
            } else {
                None
            },
        }
    }
}

/// Whether a client's secret matches the hash that it sent before.
pub open spec fn hash_matches(s: PairSession, secret: Seq<u8>, signature: Seq<u8>) -> bool {
    sha256(s.server_challenge@ + signature + secret.take(16)) == s.client_hash@
}

/// The client that a session turns into.
pub open spec fn is_client_of(c: PairedClient, s: PairSession) -> bool {
    &&& c.name@ == s.client_name@
    &&& c.uuid@ == s.unique_id@
    &&& c.cert@ == s.client_cert@
    &&& c.enabled
}

/// The outcome of a client's secret.
#[derive(Debug)]
pub struct SecretOutcome {
    pub reply: HttpReply,
    /// Whether the client joined the paired clients.
    pub paired: bool,
    /// Whether the secret matched the hash that the client had sent. A client whose secret does
    /// not match is paired all the same.
    pub hash_matched: bool,
}

/// Takes up a client's secret: the client joins the paired clients.
pub fn handle_clientpairingsecret(
    session: &PairSession,
    secret_hex: &str,
    clients: &mut Vec<PairedClient>,
) -> (r: SecretOutcome)
    ensures
        match clientpairingsecret_error(
            *session,
            secret_hex@,
            pem_signature(session.client_cert@),
        ) {
            Some((status, message)) => {
                &&& is_pair_error(r.reply, status, message)
                &&& !r.paired
                &&& !r.hash_matched
                &&& final(clients)@ == old(clients)@
            },
            None => {
                &&& is_xml(r.reply, 200, paired_plain_body())
                &&& r.paired
                &&& r.hash_matched == hash_matches(
                    *session,
                    decode_hex(encode_utf8(secret_hex@))->0,
                    pem_signature(session.client_cert@)->0,
                )
                &&& final(clients)@.len() == old(clients)@.len() + 1
                &&& final(clients)@.drop_last() == old(clients)@
                &&& is_client_of(final(clients)@.last(), *session)
            },
        },
{
    if session.phase != PairPhase::ServerChallengeResp {
        return SecretOutcome {
            reply: pair_error(400, "Out of order clientpairingsecret"),
            paired: false,
            hash_matched: false,
        };
    }
    let pairing_secret = match hex_decode(secret_hex) {
        Ok(v) => v,
        Err(_) => {
            return SecretOutcome {
                reply: pair_error(400, "Invalid clientpairingsecret"),
                paired: false,
                hash_matched: false,
            };
        },
    };
    if pairing_secret.len() <= 16 {
        return SecretOutcome {
            reply: pair_error(400, "Client pairing secret too short"),
            paired: false,
            hash_matched: false,
        };
    }
    let client_secret = slice_subrange(pairing_secret.as_slice(), 0, 16);
    let client_sig = match cert_signature_from_pem(session.client_cert.as_str()) {
        Ok(v) => v,
        Err(_) => {
            return SecretOutcome {
                reply: pair_error(400, "Invalid client certificate signature"),
                paired: false,
                hash_matched: false,
            };
        },
    };
    let mut hash_input: Vec<u8> = Vec::new();
    hash_input.extend_from_slice(session.server_challenge.as_slice());
    hash_input.extend_from_slice(client_sig.as_slice());
    hash_input.extend_from_slice(client_secret);
    assert(hash_input@ == session.server_challenge@ + client_sig@ + pairing_secret@.take(16));
    let expected = sha256_digest(hash_input.as_slice());
    let hash_matched = same_bytes(expected.as_slice(), session.client_hash.as_slice());
    let ghost before = clients@;
    clients.push(
        PairedClient {
            name: session.client_name.clone(),
            uuid: session.unique_id.clone(),
            cert: session.client_cert.clone(),
            enabled: true,
        },
    );
    assert(clients@.drop_last() == before);
    SecretOutcome {
        reply: xml_response(owned("<root status_code=\"200\"><paired>1</paired></root>")),
        paired: true,
        hash_matched,
    }
}

// ---------------------------------------------------------------- laws

/// A client that writes its certificate in hexadecimal digits is paired under that certificate,
/// letter by letter.
pub proof fn the_clients_certificate_is_kept(cert: Seq<char>, salt: Seq<char>)
    ensures
        sent_cert(encode_hex(encode_utf8(cert))) == Some(cert),
        sent_cert(Seq::empty()) == Some(Seq::<char>::empty()),
{
    crate::sunshine::hex::hex_round_trip(encode_utf8(cert));
    encode_utf8_valid_utf8(cert);
    encode_utf8_decode_utf8(cert);
    let none = Seq::<char>::empty();
    assert(encode_utf8(none) =~= Seq::<u8>::empty());
    encode_utf8_valid_utf8(none);
    encode_utf8_decode_utf8(none);
    assert(decode_hex(encode_utf8(none))->0 =~= Seq::<u8>::empty());
}

/// Both sides come to the same key: from the first sixteen bytes of the salt that the client
/// sent, and the PIN; what the salt holds beyond them does not count.
pub proof fn the_key_is_made_of_salt_and_pin(
    s: PairSession,
    salt: Seq<u8>,
    more: Seq<u8>,
    pin: Seq<char>,
)
    requires
        salt.len() == 16,
        s.salt_hex@ == encode_hex(salt + more),
        s.pin matches Some(p) && p@ == pin,
    ensures
        session_key(s) == sha256(salt + encode_utf8(pin)).take(16),
        after_pin_error(Some(s), false) is None,
{
    crate::sunshine::hex::hex_round_trip(salt + more);
    assert((salt + more).take(16) =~= salt);
}

/// Why the wait for a PIN can end badly, one reason each: time ran out, the session is gone, no
/// PIN came, the salt is no hexadecimal text, or it is too short.
pub proof fn why_the_wait_for_a_pin_fails(session: Option<PairSession>, timed_out: bool)
    ensures
        timed_out ==> after_pin_error(session, timed_out) == Some(
            (408u16, "Timed out waiting for PIN"@),
        ),
        !timed_out && session is None ==> after_pin_error(session, timed_out) == Some(
            (400u16, "Pairing session disappeared"@),
        ),
        !timed_out && session is Some && session->0.pin is None ==> after_pin_error(
            session,
            timed_out,
        ) == Some((400u16, "PIN not supplied"@)),
        !timed_out && session is Some && session->0.pin is Some && decode_hex(
            encode_utf8(session->0.salt_hex@),
        ) is None ==> after_pin_error(session, timed_out) == Some((400u16, "Invalid salt"@)),
        !timed_out && session is Some && session->0.pin is Some && decode_hex(
            encode_utf8(session->0.salt_hex@),
        ) is Some && decode_hex(encode_utf8(session->0.salt_hex@))->0.len() < 16
            ==> after_pin_error(session, timed_out) == Some((400u16, "Salt too short"@)),
{
}

/// What the client reads in the host's answer to its challenge. With the key it finds the digest
/// of its own challenge, the signature of the host's certificate and the host's secret, and
/// behind the digest the host's challenge: both the secret and the challenge are the ones that
/// the session keeps.
pub proof fn the_client_reads_the_hosts_challenge(
    before: PairSession,
    text: Seq<char>,
    signature: Option<Seq<u8>>,
    after: PairSession,
    reply: HttpReply,
    value: Seq<char>,
)
    requires
        clientchallenge_step(before, text, signature, after, reply),
        after.phase != before.phase,
        reply.body@ == "<root status_code=\"200\"><paired>1</paired>"@ + "<challengeresponse>"@
            + value + "</challengeresponse>"@ + "</root>"@,
        sha256(
            decrypt_hex(before.cipher_key->0@, text)->0 + signature->0 + after.server_secret@,
        ).len() == 32,
    ensures
        decode_hex(encode_utf8(value)) is Some,
        ({
            let read = ecb_decrypt(before.cipher_key->0@, decode_hex(encode_utf8(value))->0);
            &&& read.len() == 48
            &&& read.take(32) == sha256(
                decrypt_hex(before.cipher_key->0@, text)->0 + signature->0 + after.server_secret@,
            )
            &&& read.skip(32) == after.server_challenge@
        }),
        after.server_secret@.len() == 16 && after.server_challenge@.len() == 16,
        after.phase == PairPhase::ClientChallenge,
        before.phase == PairPhase::GetServerCert,
        after.unique_id == before.unique_id && after.client_cert == before.client_cert
            && after.client_name == before.client_name && after.pin == before.pin
            && after.cipher_key == before.cipher_key && after.salt_hex == before.salt_hex,
{
    let answer = challenge_answer(
        decrypt_hex(before.cipher_key->0@, text)->0,
        signature->0,
        after.server_secret@,
        after.server_challenge@,
    );
    let sent = ecb_encrypt(before.cipher_key->0@, answer);
    crate::sunshine::hex::hex_round_trip(sent);
    let a = "<root status_code=\"200\"><paired>1</paired>"@;
    let b = "<challengeresponse>"@;
    let c = "</challengeresponse>"@;
    let d = "</root>"@;
    lemma_same_value(a, b, value, encode_hex(sent), c, d);
    assert(answer.take(32) =~= sha256(
        decrypt_hex(before.cipher_key->0@, text)->0 + signature->0 + after.server_secret@,
    ));
    assert(answer.skip(32) =~= after.server_challenge@);
}

proof fn lemma_same_value(
    a: Seq<char>,
    b: Seq<char>,
    v: Seq<char>,
    w: Seq<char>,
    c: Seq<char>,
    d: Seq<char>,
)
    requires
        a + b + v + c + d == a + b + w + c + d,
    ensures
        v == w,
{
    let x = a + b + v + c + d;
    let y = a + b + w + c + d;
    assert(x.len() == y.len());
    let n = (a.len() + b.len()) as int;
    assert(x.subrange(n, n + v.len()) =~= v);
    assert(y.subrange(n, n + w.len()) =~= w);
}

/// What the client reads in the host's answer to its own: the first sixteen bytes are the secret
/// that the host kept, and the rest is a signature of that secret under the host's key. The
/// session keeps what the client sent.
pub proof fn the_client_reads_the_hosts_secret(
    before: PairSession,
    text: Seq<char>,
    key: Seq<u8>,
    after: PairSession,
    reply: HttpReply,
    value: Seq<char>,
)
    requires
        serverchallengeresp_step(before, text, key, after, reply),
        after.phase != before.phase,
        before.server_secret@.len() == 16,
        reply.body@ == "<root status_code=\"200\"><paired>1</paired>"@ + "<pairingsecret>"@ + value
            + "</pairingsecret>"@ + "</root>"@,
    ensures
        ({
            let read = decode_hex(encode_utf8(value));
            &&& read is Some
            &&& read->0.len() >= 16
            &&& read->0.take(16) == before.server_secret@
            &&& is_signature(key, before.server_secret@, read->0.skip(16))
        }),
        decrypt_hex(before.cipher_key->0@, text) == Some(after.client_hash@),
        before.phase == PairPhase::ClientChallenge,
        after.phase == PairPhase::ServerChallengeResp,
        after.unique_id == before.unique_id && after.client_cert == before.client_cert
            && after.client_name == before.client_name && after.server_challenge
            == before.server_challenge && after.server_secret == before.server_secret,
{
    let signature = choose|signature: Seq<u8>|
        {
            &&& #[trigger] is_signature(key, before.server_secret@, signature)
            &&& is_xml(
                reply,
                200,
                paired_body(
                    "<pairingsecret>"@,
                    encode_hex(before.server_secret@ + signature),
                    "</pairingsecret>"@,
                ),
            )
        };
    let sent = before.server_secret@ + signature;
    crate::sunshine::hex::hex_round_trip(sent);
    lemma_same_value(
        "<root status_code=\"200\"><paired>1</paired>"@,
        "<pairingsecret>"@,
        value,
        encode_hex(sent),
        "</pairingsecret>"@,
        "</root>"@,
    );
    assert(sent.take(16) =~= before.server_secret@);
    assert(sent.skip(16) =~= signature);
}

/// A secret that the client shows must be more than sixteen bytes in hexadecimal digits and come
/// with a certificate that can be read; sixteen bytes of it are the secret, the rest is its
/// signature and does not enter the hash.
pub proof fn only_the_first_sixteen_bytes_are_the_secret(
    s: PairSession,
    secret: Seq<u8>,
    tail: Seq<u8>,
    other: Seq<u8>,
    signature: Seq<u8>,
)
    requires
        secret.len() == 16,
        tail.len() > 0,
        s.phase == PairPhase::ServerChallengeResp,
    ensures
        clientpairingsecret_error(s, encode_hex(secret + tail), Some(signature)) is None,
        clientpairingsecret_error(s, encode_hex(secret), Some(signature)) == Some(
            (400u16, "Client pairing secret too short"@),
        ),
        clientpairingsecret_error(s, encode_hex(secret + tail), None) == Some(
            (400u16, "Invalid client certificate signature"@),
        ),
        hash_matches(s, secret + tail, signature) == hash_matches(s, secret + other, signature),
        hash_matches(s, secret + tail, signature) <==> sha256(
            s.server_challenge@ + signature + secret,
        ) == s.client_hash@,
{
    crate::sunshine::hex::hex_round_trip(secret + tail);
    crate::sunshine::hex::hex_round_trip(secret);
    assert((secret + tail).take(16) =~= secret);
    assert((secret + other).take(16) =~= secret);
}

/// The client that is paired is the one whose session it was: its own name, number and
/// certificate, and it is enabled.
pub proof fn the_paired_client_is_the_sessions(
    c: PairedClient,
    s: PairSession,
    unique_id: Seq<char>,
    cert: Seq<char>,
    salt: Seq<char>,
)
    requires
        is_client_of(c, s),
    ensures
        c.enabled,
        is_new_session(s, unique_id, cert, salt) ==> c.uuid@ == unique_id && c.cert@ == cert
            && c.name@ == "Moonlight"@,
        c.uuid@ == s.unique_id@ && c.cert@ == s.client_cert@ && c.name@ == s.client_name@,
{
}

/// A client's first request needs a certificate and a salt, in this order, and the certificate has
/// to be readable; nothing else is asked of it.
pub proof fn what_the_first_request_needs(query: Map<Seq<char>, String>)
    ensures
        ({
            let cert = param(query, "clientcert"@);
            let salt = param(query, "salt"@);
            let refusal = getservercert_error(query);
            &&& cert is None ==> refusal == Some((400u16, "Missing clientcert parameter"@))
            &&& cert is Some && salt is None ==> refusal == Some(
                (400u16, "Missing salt parameter"@),
            )
            &&& cert is Some && salt is Some && sent_cert(cert->0) is None ==> refusal == Some(
                (400u16, "Invalid client certificate"@),
            )
            &&& cert is Some && salt is Some && sent_cert(cert->0) is Some ==> refusal is None
        }),
{
}

/// The three requests behind the PIN come in one order only, and each is refused with its own
/// message where it is out of order, has no key to be read with, or cannot be read.
pub proof fn every_request_has_its_turn(
    s: PairSession,
    text: Seq<char>,
    signature: Option<Seq<u8>>,
)
    ensures
        clientchallenge_error(s, text, signature) is None <==> s.phase == PairPhase::GetServerCert
            && s.cipher_key is Some && decrypt_hex(s.cipher_key->0@, text) is Some && signature
            is Some,
        s.phase != PairPhase::GetServerCert ==> clientchallenge_error(s, text, signature) == Some(
            (400u16, "Out of order clientchallenge"@),
        ),
        s.phase == PairPhase::GetServerCert && s.cipher_key is None ==> clientchallenge_error(
            s,
            text,
            signature,
        ) == Some((400u16, "Cipher key not set"@)),
        s.phase == PairPhase::GetServerCert && s.cipher_key is Some && decrypt_hex(
            s.cipher_key->0@,
            text,
        ) is None ==> clientchallenge_error(s, text, signature) == Some(
            (400u16, "Invalid clientchallenge"@),
        ),
        s.phase == PairPhase::GetServerCert && s.cipher_key is Some && decrypt_hex(
            s.cipher_key->0@,
            text,
        ) is Some && signature is None ==> clientchallenge_error(s, text, signature) == Some(
            (500u16, "Invalid server certificate signature"@),
        ),
        serverchallengeresp_error(s, text) is None <==> s.phase == PairPhase::ClientChallenge
            && s.cipher_key is Some && decrypt_hex(s.cipher_key->0@, text) is Some,
        s.phase != PairPhase::ClientChallenge ==> serverchallengeresp_error(s, text) == Some(
            (400u16, "Out of order serverchallengeresp"@),
        ),
        s.phase == PairPhase::ClientChallenge && s.cipher_key is None ==> serverchallengeresp_error(
            s,
            text,
        ) == Some((400u16, "Cipher key not set"@)),
        s.phase == PairPhase::ClientChallenge && s.cipher_key is Some && decrypt_hex(
            s.cipher_key->0@,
            text,
        ) is None ==> serverchallengeresp_error(s, text) == Some(
            (400u16, "Invalid serverchallengeresp"@),
        ),
{
}

/// The secret of a client is taken last: behind the other requests, in digits that can be read,
/// longer than sixteen bytes, and with a certificate that is signed.
pub proof fn what_the_last_request_needs(
    s: PairSession,
    text: Seq<char>,
    signature: Option<Seq<u8>>,
)
    ensures
        ({
            let refusal = clientpairingsecret_error(s, text, signature);
            let secret = decode_hex(encode_utf8(text));
            &&& s.phase != PairPhase::ServerChallengeResp ==> refusal == Some(
                (400u16, "Out of order clientpairingsecret"@),
            )
            &&& s.phase == PairPhase::ServerChallengeResp ==> {
                &&& secret is None ==> refusal == Some((400u16, "Invalid clientpairingsecret"@))
                &&& secret is Some && (secret->0).len() <= 16 ==> refusal == Some(
                    (400u16, "Client pairing secret too short"@),
                )
                &&& secret is Some && (secret->0).len() > 16 && signature is None ==> refusal
                    == Some((400u16, "Invalid client certificate signature"@))
                &&& secret is Some && (secret->0).len() > 16 && signature is Some ==> refusal
                    is None
            }
        }),
{
}

/// A session is found under its own client's name.
pub proof fn a_session_stands_under_its_client(
    sessions: Map<Seq<char>, PairSession>,
    unique_id: Seq<char>,
)
    requires
        sessions_wf(sessions),
    ensures
        session_of(sessions, unique_id) is Some <==> sessions.contains_key(unique_id),
        session_of(sessions, unique_id) matches Some(s) ==> s.unique_id@ == unique_id,
{
}

/// A session begins with the client's name, certificate and salt, and with nothing else.
pub proof fn a_session_begins_empty(
    s: PairSession,
    unique_id: Seq<char>,
    cert: Seq<char>,
    salt: Seq<char>,
)
    requires
        is_new_session(s, unique_id, cert, salt),
    ensures
        s.unique_id@ == unique_id && s.client_cert@ == cert && s.salt_hex@ == salt,
        s.client_name@ == "Moonlight"@,
        s.phase == PairPhase::Begun,
        s.pin is None && s.cipher_key is None,
        s.client_hash@.len() == 0 && s.server_secret@.len() == 0 && s.server_challenge@.len() == 0,
{
}

/// A challenge gives the session a secret and a challenge of the host, sixteen bytes each, and
/// moves it on; all else stays as it was.
pub proof fn a_challenge_keeps_the_client(
    before: PairSession,
    text: Seq<char>,
    signature: Option<Seq<u8>>,
    after: PairSession,
    reply: HttpReply,
)
    requires
        clientchallenge_step(before, text, signature, after, reply),
    ensures
        after.unique_id == before.unique_id && after.client_cert == before.client_cert
            && after.client_name == before.client_name && after.salt_hex == before.salt_hex
            && after.pin == before.pin && after.cipher_key == before.cipher_key
            && after.client_hash == before.client_hash,
        clientchallenge_error(before, text, signature) is None ==> after.server_secret@.len() == 16
            && after.server_challenge@.len() == 16 && after.phase == PairPhase::ClientChallenge
            && reply.status == 200,
        clientchallenge_error(before, text, signature) is Some ==> after == before,
{
}

} // verus!
