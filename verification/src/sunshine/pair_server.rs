//! The pairing requests of the HTTP interface, and the PIN that the user enters.
use crate::sunshine::crypto::{pem_signature, sha256, x509_signature};
use crate::sunshine::hex::decode_hex;
use crate::sunshine::http::{is_pair_error, is_xml, pair_error, xml_response, HttpReply};
use crate::sunshine::pairing::{
    after_pin_error, begin_getservercert, clientchallenge_step, clientpairingsecret_error,
    decrypt_hex, getservercert_error, handle_clientchallenge, handle_clientpairingsecret,
    handle_serverchallengeresp, hash_matches, is_client_of, is_new_session, paired_plain_body, param,
    sent_cert, serverchallengeresp_step, sessions_wf, HostCredentials, PairPhase, PairSession,
    PairedClient, PendingPairing,
};
use crate::text::{is_digit, owned, str_chars, str_same, trim, trimmed};
use crate::text_map::TextMap;
use crate::types::AppError;
use vstd::prelude::*;
use vstd::utf8::*;

verus! {

/// What becomes of a pairing request.
#[derive(Debug)]
pub enum PairStep {
    /// The request is answered.
    Reply(HttpReply),
    /// The request is answered, and the paired clients have changed and are to be saved.
    ReplyAndSave(HttpReply),
    /// The request waits for the PIN of this client's pairing.
    AwaitPin(String),
}

/// Whether a query parameter is present with a given value.
pub open spec fn param_is(
    query: Map<Seq<char>, String>,
    name: Seq<char>,
    value: Seq<char>,
) -> bool {
    param(query, name) == Some(value)
}

fn has_param(query: &TextMap<String>, name: &str, value: &str) -> (r: bool)
    ensures
        r == param_is(query@, name@, value@),
{
    match query.get(name) {
        Some(v) => str_same(v.as_str(), value),
        None => false,
    }
}

/// What a pairing request does to the sessions and the paired clients, and what it is answered.
pub open spec fn pair_relation(
    host: HostCredentials,
    query: Map<Seq<char>, String>,
    sessions: Map<Seq<char>, PairSession>,
    clients: Seq<PairedClient>,
    new_sessions: Map<Seq<char>, PairSession>,
    new_clients: Seq<PairedClient>,
    step: PairStep,
) -> bool {
    match param(query, "uniqueid"@) {
        None => {
            &&& new_sessions == sessions
            &&& new_clients == clients
            &&& step matches PairStep::Reply(reply) && is_pair_error(
                reply,
                400,
                "Missing uniqueid parameter"@,
            )
        },
        Some(uid) => if param_is(query, "phrase"@, "pairchallenge"@) {
            &&& new_sessions == sessions
            &&& new_clients == clients
            &&& step matches PairStep::Reply(reply) && is_xml(reply, 200, paired_plain_body())
        } else if param_is(query, "phrase"@, "getservercert"@) {
            &&& new_clients == clients
            &&& match getservercert_error(query) {
                Some((status, message)) => {
                    &&& new_sessions == sessions
                    &&& step matches PairStep::Reply(reply) && is_pair_error(reply, status, message)
                },
                None => {
                    &&& step matches PairStep::AwaitPin(id) && id@ == uid
                    &&& new_sessions.contains_key(uid)
                    &&& is_new_session(
                        new_sessions[uid],
                        uid,
                        sent_cert(param(query, "clientcert"@)->0)->0,
                        param(query, "salt"@)->0,
                    )
                    &&& new_sessions == sessions.insert(uid, new_sessions[uid])
                },
            }
        } else if !sessions.contains_key(uid) {
            &&& new_sessions == sessions
            &&& new_clients == clients
            &&& step matches PairStep::Reply(reply) && is_pair_error(
                reply,
                400,
                "Invalid uniqueid"@,
            )
        } else if param(query, "clientchallenge"@) is Some {
            &&& new_clients == clients
            &&& new_sessions == sessions.insert(uid, new_sessions[uid])
            &&& step matches PairStep::Reply(reply) && clientchallenge_step(
                sessions[uid],
                param(query, "clientchallenge"@)->0,
                x509_signature(host.cert_der@),
                new_sessions[uid],
                reply,
            )
        } else if param(query, "serverchallengeresp"@) is Some {
            &&& new_clients == clients
            &&& new_sessions == sessions.insert(uid, new_sessions[uid])
            &&& step matches PairStep::Reply(reply) && serverchallengeresp_step(
                sessions[uid],
                param(query, "serverchallengeresp"@)->0,
                host.key_der@,
                new_sessions[uid],
                reply,
            )
        } else if param(query, "clientpairingsecret"@) is Some {
            &&& new_sessions == sessions.remove(uid)
            &&& match clientpairingsecret_error(
                sessions[uid],
                param(query, "clientpairingsecret"@)->0,
                pem_signature(sessions[uid].client_cert@),
            ) {
                Some((status, message)) => {
                    &&& new_clients == clients
                    &&& step matches PairStep::Reply(reply) && is_pair_error(reply, status, message)
                },
                None => {
                    &&& new_clients.len() == clients.len() + 1
                    &&& new_clients.drop_last() == clients
                    &&& is_client_of(new_clients.last(), sessions[uid])
                    &&& step matches PairStep::ReplyAndSave(reply) && is_xml(
                        reply,
                        200,
                        paired_plain_body(),
                    )
                },
            }
        } else {
            &&& new_sessions == sessions
            &&& new_clients == clients
            &&& step matches PairStep::Reply(reply) && is_pair_error(
                reply,
                404,
                "Invalid pairing request"@,
            )
        },
    }
}

/// Takes up a pairing request. A request with the client's secret ends the session, whether or
/// not it succeeds.
pub fn pair(
    host: &HostCredentials,
    sessions: &mut TextMap<PairSession>,
    clients: &mut Vec<PairedClient>,
    query: &TextMap<String>,
) -> (r: PairStep)
    ensures
        pair_relation(
            *host,
            query@,
            old(sessions)@,
            old(clients)@,
            final(sessions)@,
            final(clients)@,
            r,
        ),
        sessions_wf(old(sessions)@) ==> sessions_wf(final(sessions)@),
{
    let ghost start = sessions@;
    let unique_id = match query.get("uniqueid") {
        Some(v) => v.clone(),
        None => {
            return PairStep::Reply(pair_error(400, "Missing uniqueid parameter"));
        },
    };
    if has_param(query, "phrase", "pairchallenge") {
        return PairStep::Reply(
            xml_response(owned("<root status_code=\"200\"><paired>1</paired></root>")),
        );
    }
    if has_param(query, "phrase", "getservercert") {
        return match begin_getservercert(sessions, unique_id.as_str(), query) {
            Ok(_) => PairStep::AwaitPin(unique_id),
            Err(reply) => PairStep::Reply(reply),
        };
    }
    let mut session = match sessions.remove(unique_id.as_str()) {
        Some(s) => s,
        None => {
            assert(sessions@ =~= start);
            return PairStep::Reply(pair_error(400, "Invalid uniqueid"));
        },
    };
    let ghost before = session;
    if let Some(challenge_hex) = query.get("clientchallenge") {
        let reply = handle_clientchallenge(
            &mut session,
            challenge_hex.as_str(),
            host.cert_der.as_slice(),
        );
        sessions.insert(unique_id, session);
        assert(sessions@ =~= start.insert(unique_id@, session));
        return PairStep::Reply(reply);
    }
    if let Some(response_hex) = query.get("serverchallengeresp") {
        let reply = handle_serverchallengeresp(
            &mut session,
            response_hex.as_str(),
            host.key_der.as_slice(),
        );
        sessions.insert(unique_id, session);
        assert(sessions@ =~= start.insert(unique_id@, session));
        return PairStep::Reply(reply);
    }
    if let Some(secret_hex) = query.get("clientpairingsecret") {
        let outcome = handle_clientpairingsecret(&session, secret_hex.as_str(), clients);
        return if outcome.paired {
            PairStep::ReplyAndSave(outcome.reply)
        } else {
            PairStep::Reply(outcome.reply)
        };
    }
    sessions.insert(unique_id, session);
    assert(sessions@ =~= start);
    PairStep::Reply(pair_error(404, "Invalid pairing request"))
}

// ---------------------------------------------------------------- the PIN

/// A PIN is four decimal digits.
pub open spec fn is_pin(pin: Seq<char>) -> bool {
    pin.len() == 4 && (forall|i: int| 0 <= i < pin.len() ==> is_digit(#[trigger] pin[i]))
}

/// Whether a text is a PIN.
pub fn valid_pin(pin: &str) -> (r: bool)
    ensures
        r == is_pin(pin@),
{
    let chars = str_chars(pin);
    if chars.len() != 4 {
        return false;
    }
    let mut i: usize = 0;
    while i < 4
        invariant
            i <= 4,
            chars@ == pin@,
            pin@.len() == 4,
            forall|j: int| 0 <= j < i ==> is_digit(#[trigger] pin@[j]),
        decreases 4 - i,
    {
        let c: char = chars[i];
        if !('0' <= c && c <= '9') {
            assert(!is_digit(pin@[i as int]));
            return false;
        }
        i = i + 1;
    }
    true
}

/// The name of a pairing's client once a name was entered: a blank one changes nothing.
pub open spec fn entered_name(name: Option<String>, before: Seq<char>) -> Seq<char> {
    match name {
        Some(n) => if trim(n@).len() > 0 {
            n@
        } else {
            before
        },
        None => before,
    }
}

/// Whether a PIN that was entered went to a given client's pairing.
pub open spec fn pin_went_to(
    before: Map<Seq<char>, PairSession>,
    after: Map<Seq<char>, PairSession>,
    client: Seq<char>,
    pin: Seq<char>,
    name: Option<String>,
) -> bool {
    &&& before.contains_key(client)
    &&& after.contains_key(client)
    &&& after == before.insert(client, after[client])
    &&& after[client].pin is Some
    &&& after[client].pin->0@ == pin
    &&& after[client].client_name@ == entered_name(name, before[client].client_name@)
    &&& after[client] == PairSession {
        pin: after[client].pin,
        client_name: after[client].client_name,
        ..before[client]
    }
}

/// Enters the PIN of a client's pairing, or of some pairing where no client is named.
pub fn submit_pin(
    sessions: &mut TextMap<PairSession>,
    pin: String,
    name: Option<String>,
    unique_id: Option<String>,
) -> (r: Result<(), AppError>)
    ensures
        sessions_wf(old(sessions)@) ==> sessions_wf(final(sessions)@),
        r is Err ==> final(sessions)@ == old(sessions)@,
        if !is_pin(pin@) {
            r matches Err(AppError::BadRequest(m)) && m@ == "PIN must be four digits"@
        } else {
            match unique_id {
                Some(id) => if old(sessions)@.contains_key(id@) {
                    r is Ok && pin_went_to(old(sessions)@, final(sessions)@, id@, pin@, name)
                } else {
                    r matches Err(AppError::NotFound(m)) && m@
                        == "No matching Moonlight pairing session"@
                },
                None => if old(sessions)@ == Map::<Seq<char>, PairSession>::empty() {
                    r matches Err(AppError::NotFound(m)) && m@
                        == "No pending Moonlight pairing session"@
                } else {
                    r is Ok && exists|client: Seq<char>| #[trigger]
                        pin_went_to(old(sessions)@, final(sessions)@, client, pin@, name)
                },
            }
        },
{
    let ghost start = sessions@;
    if !valid_pin(pin.as_str()) {
        return Err(AppError::bad_request("PIN must be four digits"));
    }
    let target = match unique_id {
        Some(id) => id,
        None => match sessions.any_key() {
            Some(key) => key.clone(),
            None => {
                return Err(AppError::not_found("No pending Moonlight pairing session"));
            },
        },
    };
    let mut session = match sessions.remove(target.as_str()) {
        Some(s) => s,
        None => {
            assert(sessions@ =~= start);
            return Err(AppError::not_found("No matching Moonlight pairing session"));
        },
    };
    session.pin = Some(pin);
    if let Some(name) = name {
        let chars = str_chars(name.as_str());
        if trimmed(chars.as_slice()).len() > 0 {
            session.client_name = name;
        }
    }
    let ghost client = target@;
    sessions.insert(target, session);
    assert(sessions@ =~= start.insert(client, session));
    assert(pin_went_to(start, sessions@, client, pin@, name));
    Ok(())
}

/// What the HTTP request that enters a PIN is answered without looking at the sessions.
pub open spec fn pin_request_error(query: Map<Seq<char>, String>) -> Option<Seq<char>> {
    match param(query, "pin"@) {
        None => Some("Missing pin"@),
        Some(pin) => if is_pin(pin) {
            None
        } else {
            Some("PIN must be four digits"@)
        },
    }
}

/// A copy of a parameter's value.
fn param_text(query: &TextMap<String>, name: &str) -> (r: Option<String>)
    ensures
        match r {
            Some(v) => param(query@, name@) == Some(v@),
            None => param(query@, name@) is None,
        },
{
    match query.get(name) {
        Some(v) => Some(v.clone()),
        None => None,
    }
}

/// The name that a PIN request leaves a client with.
pub open spec fn requested_name(query: Map<Seq<char>, String>, before: Seq<char>) -> Seq<char> {
    match param(query, "name"@) {
        Some(n) => if trim(n).len() > 0 {
            n
        } else {
            before
        },
        None => before,
    }
}

/// Whether a PIN request reached a given client's pairing.
pub open spec fn pin_request_reached(
    before: Map<Seq<char>, PairSession>,
    after: Map<Seq<char>, PairSession>,
    client: Seq<char>,
    query: Map<Seq<char>, String>,
) -> bool {
    &&& before.contains_key(client)
    &&& after.contains_key(client)
    &&& after == before.insert(client, after[client])
    &&& after[client].pin is Some
    &&& Some(after[client].pin->0@) == param(query, "pin"@)
    &&& after[client].client_name@ == requested_name(query, before[client].client_name@)
    &&& after[client] == PairSession {
        pin: after[client].pin,
        client_name: after[client].client_name,
        ..before[client]
    }
}

/// Takes up the HTTP request that enters a PIN. `Err` is a refusal whose text is to be reported
/// with code 404.
pub fn pin_request(sessions: &mut TextMap<PairSession>, query: &TextMap<String>) -> (r: Result<
    HttpReply,
    AppError,
>)
    ensures
        sessions_wf(old(sessions)@) ==> sessions_wf(final(sessions)@),
        match pin_request_error(query@) {
            Some(message) => final(sessions)@ == old(sessions)@ && (r matches Ok(reply)
                && is_pair_error(reply, 400, message)),
            None => match param(query@, "uniqueid"@) {
                Some(id) => if old(sessions)@.contains_key(id) {
                    &&& r matches Ok(reply) && is_xml(
                        reply,
                        200,
                        "<root status_code=\"200\"><pin>1</pin></root>"@,
                    )
                    &&& pin_request_reached(old(sessions)@, final(sessions)@, id, query@)
                } else {
                    &&& final(sessions)@ == old(sessions)@
                    &&& r matches Err(AppError::NotFound(m)) && m@
                        == "No matching Moonlight pairing session"@
                },
                None => if old(sessions)@ == Map::<Seq<char>, PairSession>::empty() {
                    &&& final(sessions)@ == old(sessions)@
                    &&& r matches Err(AppError::NotFound(m)) && m@
                        == "No pending Moonlight pairing session"@
                } else {
                    &&& r matches Ok(reply) && is_xml(
                        reply,
                        200,
                        "<root status_code=\"200\"><pin>1</pin></root>"@,
                    )
                    &&& exists|client: Seq<char>| #[trigger]
                        pin_request_reached(old(sessions)@, final(sessions)@, client, query@)
                },
            },
        },
{
    let ghost start = sessions@;
    let pin = match query.get("pin") {
        Some(v) => v.clone(),
        None => {
            return Ok(pair_error(400, "Missing pin"));
        },
    };
    if !valid_pin(pin.as_str()) {
        return Ok(pair_error(400, "PIN must be four digits"));
    }
    let name = param_text(query, "name");
    let unique_id = param_text(query, "uniqueid");
    let ghost target = unique_id;
    match submit_pin(sessions, pin, name, unique_id) {
        Ok(_) => {
            proof {
                match target {
                    Some(id) => {
                        assert(pin_request_reached(start, sessions@, id@, query@));
                    },
                    None => {
                        let client = choose|client: Seq<char>| #[trigger]
                            pin_went_to(start, sessions@, client, pin@, name);
                        assert(pin_request_reached(start, sessions@, client, query@));
                    },
                }
            }
            Ok(xml_response(owned("<root status_code=\"200\"><pin>1</pin></root>")))
        },
        Err(e) => Err(e),
    }
}

// ---------------------------------------------------------------- listings

/// The name of a phase.
pub open spec fn phase_text(phase: PairPhase) -> Seq<char> {
    match phase {
        PairPhase::Begun => "None"@,
        PairPhase::GetServerCert => "GetServerCert"@,
        PairPhase::ClientChallenge => "ClientChallenge"@,
        PairPhase::ServerChallengeResp => "ServerChallengeResp"@,
    }
}

/// The name of a phase.
pub fn phase_name(phase: PairPhase) -> (r: String)
    ensures
        r@ == phase_text(phase),
{
    match phase {
        PairPhase::Begun => owned("None"),
        PairPhase::GetServerCert => owned("GetServerCert"),
        PairPhase::ClientChallenge => owned("ClientChallenge"),
        PairPhase::ServerChallengeResp => owned("ServerChallengeResp"),
    }
}

/// Whether an entry of the listing describes a session.
pub open spec fn describes(p: PendingPairing, s: PairSession) -> bool {
    &&& p.unique_id@ == s.unique_id@
    &&& p.client_name@ == s.client_name@
    &&& p.phase@ == phase_text(s.phase)
    &&& p.has_pin == (s.pin is Some)
}

/// Whether a listing tells of every session, once.
pub open spec fn lists(r: Seq<PendingPairing>, sessions: Map<Seq<char>, PairSession>) -> bool {
    &&& forall|i: int, j: int|
        0 <= i < j < r.len() ==> (#[trigger] r[i]).unique_id@ != (#[trigger] r[j]).unique_id@
    &&& forall|i: int|
        0 <= i < r.len() ==> sessions.contains_key((#[trigger] r[i]).unique_id@) && describes(
            r[i],
            sessions[r[i].unique_id@],
        )
    &&& forall|k: Seq<char>| #[trigger]
        sessions.contains_key(k) ==> exists|i: int|
            0 <= i < r.len() && (#[trigger] r[i]).unique_id@ == k
}

/// Lists the pairings that have begun, each once, in no particular order.
pub fn pending_pairings(sessions: &TextMap<PairSession>) -> (r: Vec<PendingPairing>)
    requires
        sessions_wf(sessions@),
    ensures
        lists(r@, sessions@),
{
    let keys = sessions.keys();
    let mut out: Vec<PendingPairing> = Vec::new();
    let mut n: usize = 0;
    while n < keys.len()
        invariant
            n <= keys@.len(),
            out@.len() == n,
            sessions_wf(sessions@),
            forall|i: int| 0 <= i < keys@.len() ==> sessions@.contains_key((#[trigger] keys@[i])@),
            forall|i: int|
                0 <= i < n ==> (#[trigger] out@[i]).unique_id@ == keys@[i]@ && describes(
                    out@[i],
                    sessions@[keys@[i]@],
                ),
        decreases keys.len() - n,
    {
        assert(sessions@.contains_key(keys@[n as int]@));
        if let Some(session) = sessions.get(keys[n].as_str()) {
            out.push(
                PendingPairing {
                    unique_id: session.unique_id.clone(),
                    client_name: session.client_name.clone(),
                    phase: phase_name(session.phase),
                    has_pin: session.pin.is_some(),
                },
            );
        }
        n = n + 1;
    }
    assert forall|k: Seq<char>| #[trigger] sessions@.contains_key(k) implies exists|i: int|
        0 <= i < out@.len() && (#[trigger] out@[i]).unique_id@ == k by {
        let i = choose|i: int| 0 <= i < keys@.len() && (#[trigger] keys@[i])@ == k;
        assert(out@[i].unique_id@ == k);
    }
    out
}

/// Whether a client is among the paired ones and enabled. The empty name never is.
pub open spec fn is_paired(clients: Seq<PairedClient>, unique_id: Seq<char>) -> bool {
    unique_id.len() > 0 && exists|i: int|
        0 <= i < clients.len() && (#[trigger] clients[i]).enabled && clients[i].uuid@ == unique_id
}

/// Whether a client is paired.
pub fn is_client_paired(clients: &Vec<PairedClient>, unique_id: &str) -> (r: bool)
    ensures
        r == is_paired(clients@, unique_id@),
{
    let id = str_chars(unique_id);
    if id.len() == 0 {
        return false;
    }
    let mut i: usize = 0;
    while i < clients.len()
        invariant
            i <= clients@.len(),
            unique_id@.len() > 0,
            forall|j: int|
                0 <= j < i ==> !((#[trigger] clients@[j]).enabled && clients@[j].uuid@
                    == unique_id@),
        decreases clients.len() - i,
    {
        if clients[i].enabled && str_same(clients[i].uuid.as_str(), unique_id) {
            assert(clients@[i as int].enabled);
            return true;
        }
        i = i + 1;
    }
    false
}

// ---------------------------------------------------------------- laws

/// How many of the protocol's steps a phase has behind it.
pub open spec fn phase_rank(phase: PairPhase) -> int {
    match phase {
        PairPhase::Begun => 0,
        PairPhase::GetServerCert => 1,
        PairPhase::ClientChallenge => 2,
        PairPhase::ServerChallengeResp => 3,
    }
}

/// A session goes through the phases one by one: a pairing request leaves the session of every
/// client as it is, starts it anew, ends it, or takes it one phase further. The session of any
/// other client stays as it is.
pub proof fn phases_come_in_order(
    host: HostCredentials,
    query: Map<Seq<char>, String>,
    sessions: Map<Seq<char>, PairSession>,
    clients: Seq<PairedClient>,
    new_sessions: Map<Seq<char>, PairSession>,
    new_clients: Seq<PairedClient>,
    step: PairStep,
    client: Seq<char>,
)
    requires
        pair_relation(host, query, sessions, clients, new_sessions, new_clients, step),
        sessions.contains_key(client),
        new_sessions.contains_key(client),
    ensures
        ({
            ||| new_sessions[client] == sessions[client]
            ||| phase_rank(new_sessions[client].phase) == phase_rank(sessions[client].phase) + 1
            ||| new_sessions[client].phase == PairPhase::Begun && new_sessions[client].pin is None
        }),
        param(query, "uniqueid"@) != Some(client) ==> new_sessions[client] == sessions[client],
{
}

/// A challenge, an answer or a secret that comes out of order is refused with code 400; the
/// first two leave the session as it is, and none adds a client.
pub proof fn out_of_order_is_refused(
    host: HostCredentials,
    query: Map<Seq<char>, String>,
    sessions: Map<Seq<char>, PairSession>,
    clients: Seq<PairedClient>,
    new_sessions: Map<Seq<char>, PairSession>,
    new_clients: Seq<PairedClient>,
    step: PairStep,
    client: Seq<char>,
)
    requires
        pair_relation(host, query, sessions, clients, new_sessions, new_clients, step),
        param(query, "uniqueid"@) == Some(client),
        param(query, "phrase"@) is None,
        sessions.contains_key(client),
        ({
            ||| param(query, "clientchallenge"@) is Some && sessions[client].phase
                != PairPhase::GetServerCert
            ||| param(query, "clientchallenge"@) is None && param(
                query,
                "serverchallengeresp"@,
            ) is Some && sessions[client].phase != PairPhase::ClientChallenge
            ||| param(query, "clientchallenge"@) is None && param(
                query,
                "serverchallengeresp"@,
            ) is None && param(query, "clientpairingsecret"@) is Some && sessions[client].phase
                != PairPhase::ServerChallengeResp
        }),
    ensures
        new_clients == clients,
        param(query, "clientchallenge"@) is Some || param(query, "serverchallengeresp"@) is Some
            ==> new_sessions == sessions,
        step matches PairStep::Reply(reply) && exists|message: Seq<char>| #[trigger]
            is_pair_error(reply, 400, message),
{
    assert(sessions.insert(client, sessions[client]) =~= sessions);
    let reply = step->Reply_0;
    if param(query, "clientchallenge"@) is Some {
        assert(is_pair_error(reply, 400, "Out of order clientchallenge"@));
    } else if param(query, "serverchallengeresp"@) is Some {
        assert(is_pair_error(reply, 400, "Out of order serverchallengeresp"@));
    } else {
        assert(is_pair_error(reply, 400, "Out of order clientpairingsecret"@));
    }
}

/// A client joins the paired ones only with the last request of a pairing that has come all the
/// way, and is then known as paired. No request takes a client away.
pub proof fn only_a_finished_pairing_adds_a_client(
    host: HostCredentials,
    query: Map<Seq<char>, String>,
    sessions: Map<Seq<char>, PairSession>,
    clients: Seq<PairedClient>,
    new_sessions: Map<Seq<char>, PairSession>,
    new_clients: Seq<PairedClient>,
    step: PairStep,
)
    requires
        pair_relation(host, query, sessions, clients, new_sessions, new_clients, step),
        sessions_wf(sessions),
    ensures
        clients.is_prefix_of(new_clients),
        new_clients != clients ==> ({
            let client = param(query, "uniqueid"@)->0;
            &&& param(query, "uniqueid"@) is Some
            &&& sessions.contains_key(client)
            &&& sessions[client].phase == PairPhase::ServerChallengeResp
            &&& new_clients.len() == clients.len() + 1
            &&& client.len() > 0 ==> is_paired(new_clients, client)
            &&& !new_sessions.contains_key(client)
            &&& step is ReplyAndSave
        }),
        forall|id: Seq<char>| #[trigger] is_paired(clients, id) ==> is_paired(new_clients, id),
{
    if new_clients != clients {
        let client = param(query, "uniqueid"@)->0;
        assert(new_clients[new_clients.len() - 1].enabled);
        assert(new_clients[new_clients.len() - 1].uuid@ == client);
        assert(new_clients.drop_last() == clients);
    }
    assert forall|id: Seq<char>| #[trigger] is_paired(clients, id) implies is_paired(
        new_clients,
        id,
    ) by {
        let i = choose|i: int|
            0 <= i < clients.len() && (#[trigger] clients[i]).enabled && clients[i].uuid@ == id;
        assert(new_clients[i] == clients[i]);
    }
}

/// A pairing whose PIN was entered in time, with a salt of at least sixteen bytes, gets its key
/// and is ready for the client's challenge: the wait cannot end in an error.
pub proof fn entered_pin_opens_the_pairing(session: PairSession)
    requires
        session.pin is Some,
        decode_hex(encode_utf8(session.salt_hex@)) is Some,
        decode_hex(encode_utf8(session.salt_hex@))->0.len() >= 16,
    ensures
        after_pin_error(Some(session), false) is None,
{
}

/// A client that answers the host's challenge with the hash of that challenge, its certificate's
/// signature and its secret, and that then shows the secret, is found to match.
pub proof fn an_honest_answer_matches(
    before: PairSession,
    text: Seq<char>,
    host_key: Seq<u8>,
    after: PairSession,
    reply: HttpReply,
    signature: Seq<u8>,
    secret: Seq<u8>,
)
    requires
        serverchallengeresp_step(before, text, host_key, after, reply),
        before.phase != after.phase,
        decrypt_hex(before.cipher_key->0@, text) == Some(
            sha256(before.server_challenge@ + signature + secret.take(16)),
        ),
    ensures
        hash_matches(after, secret, signature),
        after.phase == PairPhase::ServerChallengeResp,
{
}

/// A PIN reaches one pairing and nothing else: that session has the PIN, and the name that was
/// entered where it is more than white space; all that the session knew of the client stays, and
/// so does every other session.
pub proof fn a_pin_reaches_one_pairing(
    before: Map<Seq<char>, PairSession>,
    after: Map<Seq<char>, PairSession>,
    client: Seq<char>,
    pin: Seq<char>,
    name: Option<String>,
    other: Seq<char>,
)
    requires
        pin_went_to(before, after, client, pin, name),
    ensures
        after[client].pin is Some && after[client].pin->0@ == pin,
        name is None ==> after[client].client_name@ == before[client].client_name@,
        name matches Some(n) ==> trim(n@).len() > 0 ==> after[client].client_name@ == n@,
        name matches Some(n) ==> trim(n@).len() == 0 ==> after[client].client_name@
            == before[client].client_name@,
        after[client].phase == before[client].phase && after[client].client_cert
            == before[client].client_cert && after[client].salt_hex == before[client].salt_hex
            && after[client].cipher_key == before[client].cipher_key && after[client].unique_id
            == before[client].unique_id,
        after.dom() == before.dom(),
        other != client && before.contains_key(other) ==> after[other] == before[other],
{
    assert(after.dom() =~= before.dom());
}

/// A PIN is four decimal digits: any number below ten thousand, written in four places, is one,
/// and nothing of another length is.
pub proof fn a_pin_has_four_digits(pin: Seq<char>, i: int)
    ensures
        pin.len() != 4 ==> !is_pin(pin),
        0 <= i < pin.len() && !('0' <= pin[i] <= '9') ==> !is_pin(pin),
        pin.len() == 4 && '0' <= pin[0] <= '9' && '0' <= pin[1] <= '9' && '0' <= pin[2] <= '9'
            && '0' <= pin[3] <= '9' ==> is_pin(pin),
{
    if 0 <= i < pin.len() && !('0' <= pin[i] <= '9') {
        assert(!is_digit(pin[i]));
    }
}

/// A client counts as paired exactly where an entry of its own name is enabled; the entries of
/// others do not matter, and nobody is paired under an empty name.
pub proof fn only_an_enabled_entry_pairs(
    clients: Seq<PairedClient>,
    client: PairedClient,
    unique_id: Seq<char>,
)
    ensures
        !is_paired(clients, Seq::empty()),
        !is_paired(Seq::empty(), unique_id),
        client.enabled && client.uuid@ == unique_id && unique_id.len() > 0 ==> is_paired(
            clients.push(client),
            unique_id,
        ),
        !client.enabled || client.uuid@ != unique_id ==> (is_paired(clients.push(client), unique_id)
            <==> is_paired(clients, unique_id)),
{
    let more = clients.push(client);
    if client.enabled && client.uuid@ == unique_id && unique_id.len() > 0 {
        assert(more[clients.len() as int] == client);
    }
    if is_paired(clients, unique_id) {
        let i = choose|i: int|
            0 <= i < clients.len() && (#[trigger] clients[i]).enabled && clients[i].uuid@
                == unique_id;
        assert(more[i] == clients[i]);
    }
    if is_paired(more, unique_id) && (!client.enabled || client.uuid@ != unique_id) {
        let i = choose|i: int|
            0 <= i < more.len() && (#[trigger] more[i]).enabled && more[i].uuid@ == unique_id;
        assert(i < clients.len());
        assert(more[i] == clients[i]);
    }
}

/// How pairing requests are told apart. A request without a client's name is refused; the two
/// phrases come first; every other request needs a session of the client, and is then the first of
/// the three steps that it carries; one that carries none is refused.
pub proof fn how_pairing_requests_are_told_apart(
    host: HostCredentials,
    query: Map<Seq<char>, String>,
    sessions: Map<Seq<char>, PairSession>,
    clients: Seq<PairedClient>,
    new_sessions: Map<Seq<char>, PairSession>,
    new_clients: Seq<PairedClient>,
    step: PairStep,
)
    requires
        pair_relation(host, query, sessions, clients, new_sessions, new_clients, step),
    ensures
        step is AwaitPin ==> param(query, "uniqueid"@) is Some && param(query, "phrase"@) == Some(
            "getservercert"@,
        ) && param(query, "clientcert"@) is Some && param(query, "salt"@) is Some,
        step matches PairStep::AwaitPin(id) ==> Some(id@) == param(query, "uniqueid"@)
            && new_sessions.contains_key(id@) && new_sessions[id@].pin is None
            && new_sessions[id@].phase == PairPhase::Begun && new_sessions[id@].salt_hex@ == param(
            query,
            "salt"@,
        )->0,
        step is ReplyAndSave ==> param(query, "clientpairingsecret"@) is Some && param(
            query,
            "clientchallenge"@,
        ) is None && param(query, "serverchallengeresp"@) is None,
        param(query, "uniqueid"@) is None ==> step is Reply && new_sessions == sessions
            && new_clients == clients,
        param(query, "uniqueid"@) is Some && param(query, "phrase"@) == Some("pairchallenge"@)
            ==> step is Reply && new_sessions == sessions && new_clients == clients && (
        step matches PairStep::Reply(reply) && is_xml(
            reply,
            200,
            "<root status_code=\"200\"><paired>1</paired></root>"@,
        )),
        new_sessions.dom().subset_of(sessions.dom().insert(param(query, "uniqueid"@)->0)) || param(
            query,
            "uniqueid"@,
        ) is None,
{
}

/// A listing has one line for every session, which tells its client, its name, its phase and
/// whether its PIN was entered.
pub proof fn a_listing_tells_of_every_session(
    r: Seq<PendingPairing>,
    sessions: Map<Seq<char>, PairSession>,
    i: int,
)
    requires
        lists(r, sessions),
        0 <= i < r.len(),
    ensures
        ({
            let s = sessions[r[i].unique_id@];
            &&& sessions.contains_key(r[i].unique_id@)
            &&& r[i].client_name@ == s.client_name@
            &&& r[i].has_pin <==> s.pin is Some
            &&& s.phase == PairPhase::Begun ==> r[i].phase@ == "None"@
            &&& s.phase == PairPhase::GetServerCert ==> r[i].phase@ == "GetServerCert"@
            &&& s.phase == PairPhase::ClientChallenge ==> r[i].phase@ == "ClientChallenge"@
            &&& s.phase == PairPhase::ServerChallengeResp ==> r[i].phase@ == "ServerChallengeResp"@
        }),
{
}

/// The host answers with what is its own: a challenge with the signature of its certificate, and a
/// client's answer with its key. Another client's session is never touched, nor are the paired
/// clients.
pub proof fn the_host_answers_as_itself(
    host: HostCredentials,
    query: Map<Seq<char>, String>,
    sessions: Map<Seq<char>, PairSession>,
    clients: Seq<PairedClient>,
    new_sessions: Map<Seq<char>, PairSession>,
    new_clients: Seq<PairedClient>,
    step: PairStep,
    uid: Seq<char>,
    other: Seq<char>,
)
    requires
        pair_relation(host, query, sessions, clients, new_sessions, new_clients, step),
        param(query, "uniqueid"@) == Some(uid),
        param(query, "phrase"@) is None,
        sessions.contains_key(uid),
        other != uid,
    ensures
        param(query, "clientchallenge"@) matches Some(text) ==> (step matches PairStep::Reply(reply)
            && clientchallenge_step(
            sessions[uid],
            text,
            x509_signature(host.cert_der@),
            new_sessions[uid],
            reply,
        )) && new_clients == clients,
        param(query, "clientchallenge"@) is None && param(query, "serverchallengeresp"@) is Some
            ==> (step matches PairStep::Reply(reply) && serverchallengeresp_step(
            sessions[uid],
            param(query, "serverchallengeresp"@)->0,
            host.key_der@,
            new_sessions[uid],
            reply,
        )) && new_clients == clients,
        new_sessions.contains_key(other) <==> sessions.contains_key(other),
        sessions.contains_key(other) ==> new_sessions[other] == sessions[other],
{
}

/// A line of the listing is that of the session under its name.
pub proof fn a_line_has_its_sessions_name(p: PendingPairing, s: PairSession)
    requires
        describes(p, s),
    ensures
        p.unique_id@ == s.unique_id@,
        p.client_name@ == s.client_name@,
        p.has_pin <==> s.pin is Some,
{
}

/// An entered PIN reaches the pairing that it is for: the session keeps everything but its PIN and
/// its name, the name is the entered one unless that is blank, and no other session changes.
pub proof fn a_pin_and_a_name_are_entered(
    before: Map<Seq<char>, PairSession>,
    after: Map<Seq<char>, PairSession>,
    client: Seq<char>,
    query: Map<Seq<char>, String>,
    other: Seq<char>,
)
    requires
        pin_request_reached(before, after, client, query),
        other != client,
    ensures
        after[client].pin is Some && Some(after[client].pin->0@) == param(query, "pin"@),
        param(query, "name"@) is Some && trim(param(query, "name"@)->0).len() > 0
            ==> after[client].client_name@ == param(query, "name"@)->0,
        param(query, "name"@) is None ==> after[client].client_name@ == before[client].client_name@,
        param(query, "name"@) is Some && trim(param(query, "name"@)->0).len() == 0
            ==> after[client].client_name@ == before[client].client_name@,
        after[client].unique_id == before[client].unique_id && after[client].phase
            == before[client].phase && after[client].client_cert == before[client].client_cert
            && after[client].salt_hex == before[client].salt_hex && after[client].cipher_key
            == before[client].cipher_key,
        after.contains_key(other) <==> before.contains_key(other),
        before.contains_key(other) ==> after[other] == before[other],
{
}

/// No client is listed twice, and every session is listed.
pub proof fn a_listing_has_no_client_twice(
    r: Seq<PendingPairing>,
    sessions: Map<Seq<char>, PairSession>,
    i: int,
    j: int,
    client: Seq<char>,
)
    requires
        lists(r, sessions),
        0 <= i < r.len(),
        0 <= j < r.len(),
        r[i].unique_id@ == r[j].unique_id@,
    ensures
        i == j,
        sessions.contains_key(client) ==> exists|k: int|
            0 <= k < r.len() && (#[trigger] r[k]).unique_id@ == client,
{
}

} // verus!
