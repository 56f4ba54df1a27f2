//! What the web interface shows and takes of the game streaming host.
use crate::sunshine::pair_server::{is_pin, lists, pin_went_to};
use crate::sunshine::pairing::{PairSession, PairedClient, PendingPairing};
use crate::sunshine::service::{
    same_clients, SunshineRuntime, SunshineService, SunshineServiceStatus,
};
use crate::text::{joined, owned};
use crate::types::{AppError, SunshineConfig};
use vstd::prelude::*;

verus! {

/// The settings, as they are shown.
#[derive(Debug)]
pub struct SunshineConfigResponse {
    pub enabled: bool,
    pub bind: String,
    pub http_port: u16,
    pub https_port: u16,
    pub hostname: String,
    pub unique_id: String,
    pub app_id: u32,
    pub app_title: String,
}

/// Whether settings are shown as they are.
pub open spec fn shows(r: SunshineConfigResponse, config: SunshineConfig) -> bool {
    &&& r.enabled == config.enabled
    &&& r.bind@ == config.bind@
    &&& r.http_port == config.http_port
    &&& r.https_port == config.https_port
    &&& r.hostname@ == config.hostname@
    &&& r.unique_id@ == config.unique_id@
    &&& r.app_id == config.app_id
    &&& r.app_title@ == config.app_title@
}

impl SunshineConfigResponse {
    /// Shows settings.
    pub fn of(config: &SunshineConfig) -> (r: Self)
        ensures
            shows(r, *config),
    {
        SunshineConfigResponse {
            enabled: config.enabled,
            bind: config.bind.clone(),
            http_port: config.http_port,
            https_port: config.https_port,
            hostname: config.hostname.clone(),
            unique_id: config.unique_id.clone(),
            app_id: config.app_id,
            app_title: config.app_title.clone(),
        }
    }
}

/// Shows the settings of the host.
pub fn get_sunshine_config(config: &SunshineConfig) -> (r: SunshineConfigResponse)
    ensures
        shows(r, *config),
{
    SunshineConfigResponse::of(config)
}

/// The state of the host, as it is shown.
#[derive(Debug)]
pub struct SunshineStatusResponse {
    pub config: SunshineConfigResponse,
    pub service_status: String,
    pub pending_pairings: Vec<PendingPairing>,
    pub clients: Vec<PairedClient>,
}

/// A PIN that the user enters.
#[derive(Debug)]
pub struct SunshinePinRequest {
    pub pin: String,
    pub name: Option<String>,
}

/// The word for a status.
pub open spec fn status_text(service: Option<SunshineService>) -> Seq<char> {
    match service {
        None => "not_initialized"@,
        Some(s) => match s.status {
            SunshineServiceStatus::Stopped => "stopped"@,
            SunshineServiceStatus::Running => "running"@,
            SunshineServiceStatus::Error(message) => "error:"@ + message@,
        },
    }
}

/// Shows the state of the host.
pub fn get_sunshine_status(config: &SunshineConfig, service: &Option<SunshineService>) -> (r:
    SunshineStatusResponse)
    requires
        service matches Some(s) ==> s.wf(),
    ensures
        shows(r.config, *config),
        r.service_status@ == status_text(*service),
        match *service {
            None => r.pending_pairings@.len() == 0 && r.clients@.len() == 0,
            Some(s) => match s.runtime {
                None => r.pending_pairings@.len() == 0 && r.clients@.len() == 0,
                Some(runtime) => lists(r.pending_pairings@, runtime.pair_sessions@)
                    && same_clients(r.clients@, runtime.clients@),
            },
        },
{
    let shown = SunshineConfigResponse::of(config);
    match service {
        Some(s) => {
            let service_status = match s.status() {
                SunshineServiceStatus::Stopped => owned("stopped"),
                SunshineServiceStatus::Running => owned("running"),
                SunshineServiceStatus::Error(message) => joined("error:", message.as_str()),
            };
            SunshineStatusResponse {
                config: shown,
                service_status,
                pending_pairings: s.pending_pairings(),
                clients: s.paired_clients(),
            }
        },
        None => SunshineStatusResponse {
            config: shown,
            service_status: owned("not_initialized"),
            pending_pairings: Vec::new(),
            clients: Vec::new(),
        },
    }
}

/// Takes up a PIN that the user entered. It goes to a pairing that waits; nothing else of the
/// host changes.
pub fn submit_sunshine_pin(service: &mut Option<SunshineService>, req: SunshinePinRequest) -> (r:
    Result<(), AppError>)
    requires
        *old(service) matches Some(s) ==> s.wf(),
    ensures
        *final(service) matches Some(s) ==> s.wf(),
        match *old(service) {
            None => *final(service) is None,
            Some(s) => *final(service) matches Some(t) && t == (SunshineService {
                runtime: t.runtime,
                ..s
            }) && match s.runtime {
                None => t.runtime is None,
                Some(runtime) => t.runtime matches Some(after) && after == (SunshineRuntime {
                    pair_sessions: after.pair_sessions,
                    ..runtime
                }) && (r is Err ==> after.pair_sessions@ == runtime.pair_sessions@),
            },
        },
        match *old(service) {
            None => r matches Err(AppError::BadRequest(m)) && m@
                == "Sunshine service is not running"@,
            Some(s) => match s.runtime {
                None => r matches Err(AppError::BadRequest(m)) && m@
                    == "Sunshine service is not running"@,
                Some(runtime) => if !is_pin(req.pin@) {
                    r matches Err(AppError::BadRequest(m)) && m@ == "PIN must be four digits"@
                } else if runtime.pair_sessions@ == Map::<Seq<char>, PairSession>::empty() {
                    r matches Err(AppError::NotFound(m)) && m@
                        == "No pending Moonlight pairing session"@
                } else {
                    &&& r is Ok
                    &&& *final(service) matches Some(t) && t.runtime matches Some(after)
                        && exists|client: Seq<char>| #[trigger]
                        pin_went_to(
                            runtime.pair_sessions@,
                            after.pair_sessions@,
                            client,
                            req.pin@,
                            req.name,
                        )
                },
            },
        },
{
    let taken = service.take();
    match taken {
        None => Err(AppError::bad_request("Sunshine service is not running")),
        Some(mut s) => {
            let result = s.submit_pin(req.pin, req.name);
            *service = Some(s);
            result
        },
    }
}

/// What is shown are the settings themselves, each under its own name, and a word for the state
/// that tells the states apart.
pub proof fn what_is_shown_of_the_host(
    r: SunshineConfigResponse,
    config: SunshineConfig,
    service: Option<SunshineService>,
)
    requires
        shows(r, config),
    ensures
        r.enabled == config.enabled && r.bind@ == config.bind@ && r.http_port == config.http_port
            && r.https_port == config.https_port && r.hostname@ == config.hostname@
            && r.unique_id@ == config.unique_id@ && r.app_id == config.app_id && r.app_title@
            == config.app_title@,
        service is None ==> status_text(service) == "not_initialized"@,
        service is Some && service->0.status is Running ==> status_text(service) == "running"@,
        service is Some && service->0.status is Stopped ==> status_text(service) == "stopped"@,
        service is Some ==> (service->0.status matches SunshineServiceStatus::Error(m)
            ==> status_text(service) == "error:"@ + m@),
{
}

} // verus!
