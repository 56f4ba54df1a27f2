//! The state of the host and its service.
use one_kvm::sunshine::pairing::{HostCredentials, PairPhase, PairSession, PairedClient};
use one_kvm::sunshine::service::{SunshineService, SunshineServiceStatus, StartPlan};
use one_kvm::sunshine::state::{
    bind_address, derive_unique_id, ensure_host_credentials, generate_host_credentials,
    load_state, path_join, Credentials, SunshinePaths, SunshineStateFile,
};
use one_kvm::types::{AppError, RtspCodec, RtspConfig, SunshineConfig};
use one_kvm::web::sunshine::{
    get_sunshine_config, get_sunshine_status, submit_sunshine_pin, SunshineConfigResponse,
    SunshinePinRequest,
};

fn config(enabled: bool) -> SunshineConfig {
    SunshineConfig {
        enabled,
        bind: "0.0.0.0".to_string(),
        http_port: 47989,
        https_port: 47984,
        hostname: "box".to_string(),
        unique_id: "  ".to_string(),
        app_id: 1,
        app_title: "HDMI".to_string(),
    }
}

fn service(enabled: bool) -> SunshineService {
    SunshineService::new(config(enabled), RtspConfig { codec: RtspCodec::H264 })
}

fn host() -> HostCredentials {
    HostCredentials {
        cert_pem: "pem".to_string(),
        cert_der: vec![1],
        key_der: vec![2],
    }
}

fn client(uuid: &str) -> PairedClient {
    PairedClient {
        name: "TV".to_string(),
        uuid: uuid.to_string(),
        cert: "c".to_string(),
        enabled: true,
    }
}

fn running() -> SunshineService {
    let mut s = service(true);
    assert_eq!(s.plan_start(), StartPlan::Start);
    let state = SunshineStateFile { unique_id: "id".to_string(), clients: vec![client("u")] };
    s.install_runtime(host(), state);
    s.mark_running();
    s
}

fn waiting_session() -> PairSession {
    PairSession {
        unique_id: "p".to_string(),
        client_cert: String::new(),
        client_name: "Moonlight".to_string(),
        salt_hex: String::new(),
        phase: PairPhase::Begun,
        pin: None,
        cipher_key: None,
        client_hash: Vec::new(),
        server_secret: Vec::new(),
        server_challenge: Vec::new(),
    }
}

#[test]
fn files_lie_in_the_data_directory() {
    let paths = SunshinePaths::new("/var/lib/kvm");
    assert_eq!(paths.dir, "/var/lib/kvm/sunshine");
    assert_eq!(paths.cert, "/var/lib/kvm/sunshine/cert.pem");
    assert_eq!(paths.key, "/var/lib/kvm/sunshine/key.pem");
    assert_eq!(paths.state, "/var/lib/kvm/sunshine/state.json");
    assert_eq!(path_join("/a/", "b"), "/a/b");
    assert_eq!(path_join("", "b"), "b");
    assert_eq!(bind_address("0.0.0.0", 80), "0.0.0.0:80");
}

#[test]
fn the_host_has_an_id() {
    let mut c = config(true);
    assert_eq!(derive_unique_id(&c, None), "26f8567f25691822");
    assert_eq!(derive_unique_id(&c, Some(" abc\n".to_string())), "ba7816bf8f01cfea");
    c.unique_id = " mine ".to_string();
    assert_eq!(derive_unique_id(&c, Some("abc".to_string())), " mine ");
}

#[test]
fn stored_state_is_kept() {
    let c = config(true);
    let fresh = load_state(None, &c, None);
    assert_eq!(fresh.unique_id, "26f8567f25691822");
    assert!(fresh.clients.is_empty());
    let stored = SunshineStateFile { unique_id: "old".to_string(), clients: vec![client("u")] };
    let kept = load_state(Some(stored), &c, None);
    assert_eq!(kept.unique_id, "old");
    assert_eq!(kept.clients[0].uuid, "u");
    let blank = SunshineStateFile { unique_id: " ".to_string(), clients: vec![client("u")] };
    let filled = load_state(Some(blank), &c, None);
    assert_eq!(filled.unique_id, "26f8567f25691822");
    assert_eq!(filled.clients.len(), 1);
}

#[test]
fn usable_credentials_are_not_replaced() {
    let made = generate_host_credentials().unwrap();
    let pair = Some((made.host.cert_pem.clone(), made.key_pem.clone()));
    match ensure_host_credentials(pair).unwrap() {
        Credentials::Stored(kept) => assert_eq!(kept.cert_der, made.host.cert_der),
        other => panic!("{other:?}"),
    }
    let bad = Some(("x".to_string(), "y".to_string()));
    assert!(matches!(ensure_host_credentials(bad).unwrap(), Credentials::Fresh(_)));
    assert!(matches!(ensure_host_credentials(None).unwrap(), Credentials::Fresh(_)));
}

#[test]
fn a_disabled_service_stays_stopped() {
    let mut s = service(false);
    assert_eq!(s.plan_start(), StartPlan::Disabled);
    assert_eq!(s.status(), SunshineServiceStatus::Stopped);
}

#[test]
fn a_service_starts_and_stops() {
    let mut s = running();
    assert_eq!(s.status(), SunshineServiceStatus::Running);
    assert_eq!(s.plan_start(), StartPlan::AlreadyRunning);
    assert_eq!(s.paired_clients().len(), 1);
    s.stop();
    assert_eq!(s.status(), SunshineServiceStatus::Stopped);
    assert!(s.paired_clients().is_empty());
    assert!(s.pending_pairings().is_empty());
    assert_eq!(s.plan_start(), StartPlan::Start);
}

#[test]
fn a_failed_server_is_reported() {
    let mut s = running();
    s.server_failed("boom".to_string());
    assert_eq!(s.status(), SunshineServiceStatus::Error("boom".to_string()));
    assert_eq!(s.plan_start(), StartPlan::Start);
}

#[test]
fn a_pin_needs_a_running_service() {
    let mut s = service(true);
    assert_eq!(
        s.submit_pin("1234".to_string(), None),
        Err(AppError::BadRequest("Sunshine service is not running".to_string()))
    );
    let mut s = running();
    assert!(matches!(
        s.submit_pin("1234".to_string(), None),
        Err(AppError::NotFound(_))
    ));
    let runtime = s.runtime.as_mut().unwrap();
    runtime.pair_sessions.insert("p".to_string(), waiting_session());
    assert_eq!(s.pending_pairings().len(), 1);
    assert_eq!(s.pending_pairings()[0].phase, "None");
    s.submit_pin("1234".to_string(), Some("Desk".to_string())).unwrap();
    assert!(s.pending_pairings()[0].has_pin);
    assert_eq!(s.pending_pairings()[0].client_name, "Desk");
    assert_eq!(s.status(), SunshineServiceStatus::Running);
    assert_eq!(s.paired_clients().len(), 1);
}

#[test]
fn the_web_status_shows_the_service() {
    let none = get_sunshine_status(&config(true), &None);
    assert_eq!(none.service_status, "not_initialized");
    assert!(none.clients.is_empty());
    assert_eq!(none.config.http_port, 47989);
    assert_eq!(none.config.hostname, "box");

    let shown = get_sunshine_status(&config(true), &Some(running()));
    assert_eq!(shown.service_status, "running");
    assert_eq!(shown.clients[0].uuid, "u");

    let mut failed = running();
    failed.server_failed("boom".to_string());
    let shown = get_sunshine_status(&config(true), &Some(failed));
    assert_eq!(shown.service_status, "error:boom");
    let shown = get_sunshine_status(&config(true), &Some(service(true)));
    assert_eq!(shown.service_status, "stopped");
    assert!(!SunshineConfigResponse::of(&config(false)).enabled);
    assert_eq!(get_sunshine_config(&config(false)).app_title, "HDMI");
}

#[test]
fn the_web_passes_a_pin_on() {
    let ask = || SunshinePinRequest { pin: "1234".to_string(), name: None };
    let mut none = None;
    assert!(matches!(
        submit_sunshine_pin(&mut none, ask()),
        Err(AppError::BadRequest(_))
    ));
    assert!(none.is_none());
    let mut some = Some(running());
    assert!(matches!(
        submit_sunshine_pin(&mut some, ask()),
        Err(AppError::NotFound(_))
    ));
    assert_eq!(some.as_ref().unwrap().status(), SunshineServiceStatus::Running);
    let inner = some.as_mut().unwrap().runtime.as_mut().unwrap();
    inner.pair_sessions.insert("p".to_string(), waiting_session());
    submit_sunshine_pin(&mut some, ask()).unwrap();
    let after = some.unwrap();
    assert!(after.pending_pairings()[0].has_pin);
    assert_eq!(after.status(), SunshineServiceStatus::Running);
    assert_eq!(after.paired_clients().len(), 1);
}
