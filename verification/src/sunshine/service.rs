//! The life of the game streaming host.
use crate::sunshine::launch::GameStreamLaunchSession;
use crate::sunshine::pair_server::{
    is_pin, lists, pending_pairings, pin_went_to, submit_pin,
};
use crate::sunshine::pairing::{
    sessions_wf, HostCredentials, PairSession, PairedClient, PendingPairing,
};
use crate::sunshine::state::SunshineStateFile;
use crate::text_map::TextMap;
use crate::types::{AppError, RtspConfig, SunshineConfig};
use vstd::prelude::*;

verus! {

/// How the host is doing.
#[derive(Debug, Clone, PartialEq, Eq)]
pub enum SunshineServiceStatus {
    Stopped,
    Running,
    Error(String),
}

/// What a host that has started works with.
#[derive(Debug)]
pub struct SunshineRuntime {
    pub unique_id: String,
    pub host: HostCredentials,
    pub clients: Vec<PairedClient>,
    pub pair_sessions: TextMap<PairSession>,
    pub launch_session: Option<GameStreamLaunchSession>,
}

/// The game streaming host.
#[derive(Debug)]
pub struct SunshineService {
    pub config: SunshineConfig,
    pub rtsp: RtspConfig,
    pub runtime: Option<SunshineRuntime>,
    pub status: SunshineServiceStatus,
}

/// What a request to start leads to.
#[derive(Debug, Clone, Copy, PartialEq, Eq, Structural)]
pub enum StartPlan {
    /// The host is switched off.
    Disabled,
    /// The host runs already.
    AlreadyRunning,
    /// The host is to load its state and open its services.
    Start,
}

/// What a request to start leads to.
pub open spec fn start_plan(enabled: bool, status: SunshineServiceStatus) -> StartPlan {
    if !enabled {
        StartPlan::Disabled
    } else if status is Running {
        StartPlan::AlreadyRunning
    } else {
        StartPlan::Start
    }
}

/// Whether two entries describe the same client.
pub open spec fn same_client(a: PairedClient, b: PairedClient) -> bool {
    &&& a.name@ == b.name@
    &&& a.uuid@ == b.uuid@
    &&& a.cert@ == b.cert@
    &&& a.enabled == b.enabled
}

/// Whether two lists describe the same clients, in the same order.
pub open spec fn same_clients(a: Seq<PairedClient>, b: Seq<PairedClient>) -> bool {
    &&& a.len() == b.len()
    &&& forall|i: int| 0 <= i < a.len() ==> same_client(#[trigger] a[i], b[i])
}

/// A copy of the paired clients.
pub fn copy_clients(clients: &Vec<PairedClient>) -> (r: Vec<PairedClient>)
    ensures
        same_clients(r@, clients@),
{
    let mut out: Vec<PairedClient> = Vec::new();
    let mut i: usize = 0;
    while i < clients.len()
        invariant
            i <= clients@.len(),
            out@.len() == i,
            forall|j: int| 0 <= j < i ==> same_client(#[trigger] out@[j], clients@[j]),
        decreases clients.len() - i,
    {
        let c = &clients[i];
        out.push(
            PairedClient {
                name: c.name.clone(),
                uuid: c.uuid.clone(),
                cert: c.cert.clone(),
                enabled: c.enabled,
            },
        );
        i = i + 1;
    }
    out
}

impl SunshineService {
    /// Whether the host's state is one that it can be in.
    pub open spec fn wf(self) -> bool {
        self.runtime matches Some(runtime) ==> sessions_wf(runtime.pair_sessions@)
    }

    /// A host that has not started.
    pub fn new(config: SunshineConfig, rtsp: RtspConfig) -> (r: Self)
        ensures
            r.wf(),
            r.config == config,
            r.rtsp == rtsp,
            r.runtime is None,
            r.status is Stopped,
    {
        SunshineService { config, rtsp, runtime: None, status: SunshineServiceStatus::Stopped }
    }

    /// Takes up a request to start. A host that is switched off counts as stopped.
    pub fn plan_start(&mut self) -> (r: StartPlan)
        requires
            old(self).wf(),
        ensures
            final(self).wf(),
            r == start_plan(old(self).config.enabled, old(self).status),
            *final(self) == (SunshineService {
                status: if r == StartPlan::Disabled {
                    SunshineServiceStatus::Stopped
                } else {
                    old(self).status
                },
                ..*old(self)
            }),
    {
        if !self.config.enabled {
            self.status = SunshineServiceStatus::Stopped;
            return StartPlan::Disabled;
        }
        match &self.status {
            SunshineServiceStatus::Running => StartPlan::AlreadyRunning,
            _ => StartPlan::Start,
        }
    }

    /// Puts the state that was loaded in place; no pairing and no session have begun.
    pub fn install_runtime(&mut self, host: HostCredentials, state: SunshineStateFile)
        ensures
            final(self).wf(),
            final(self).runtime matches Some(runtime) && runtime.host == host && runtime.unique_id
                == state.unique_id && runtime.clients == state.clients
                && runtime.pair_sessions@ == Map::<Seq<char>, PairSession>::empty()
                && runtime.launch_session is None,
            *final(self) == (SunshineService { runtime: final(self).runtime, ..*old(self) }),
    {
        self.runtime = Some(
            SunshineRuntime {
                unique_id: state.unique_id,
                host,
                clients: state.clients,
                pair_sessions: TextMap::new(),
                launch_session: None,
            },
        );
    }

    /// All services are open.
    pub fn mark_running(&mut self)
        requires
            old(self).wf(),
        ensures
            final(self).wf(),
            *final(self) == (SunshineService {
                status: SunshineServiceStatus::Running,
                ..*old(self)
            }),
    {
        self.status = SunshineServiceStatus::Running;
    }

    /// The HTTP server has failed.
    pub fn server_failed(&mut self, error: String)
        requires
            old(self).wf(),
        ensures
            final(self).wf(),
            *final(self) == (SunshineService {
                status: SunshineServiceStatus::Error(error),
                ..*old(self)
            }),
    {
        self.status = SunshineServiceStatus::Error(error);
    }

    /// Forgets all that began since the start. The services are to be closed.
    pub fn stop(&mut self)
        ensures
            final(self).wf(),
            *final(self) == (SunshineService {
                runtime: None,
                status: SunshineServiceStatus::Stopped,
                ..*old(self)
            }),
    {
        self.runtime = None;
        self.status = SunshineServiceStatus::Stopped;
    }

    /// How the host is doing.
    pub fn status(&self) -> (r: SunshineServiceStatus)
        ensures
            match self.status {
                SunshineServiceStatus::Stopped => r is Stopped,
                SunshineServiceStatus::Running => r is Running,
                SunshineServiceStatus::Error(text) => r matches SunshineServiceStatus::Error(copy)
                    && copy@ == text@,
            },
    {
        match &self.status {
            SunshineServiceStatus::Stopped => SunshineServiceStatus::Stopped,
            SunshineServiceStatus::Running => SunshineServiceStatus::Running,
            SunshineServiceStatus::Error(text) => SunshineServiceStatus::Error(text.clone()),
        }
    }

    /// Lists the pairings that have begun; none while the host is stopped.
    pub fn pending_pairings(&self) -> (r: Vec<PendingPairing>)
        requires
            self.wf(),
        ensures
            match self.runtime {
                None => r@.len() == 0,
                Some(runtime) => lists(r@, runtime.pair_sessions@),
            },
    {
        match &self.runtime {
            Some(runtime) => pending_pairings(&runtime.pair_sessions),
            None => Vec::new(),
        }
    }

    /// Lists the paired clients; none while the host is stopped.
    pub fn paired_clients(&self) -> (r: Vec<PairedClient>)
        ensures
            match self.runtime {
                None => r@.len() == 0,
                Some(runtime) => same_clients(r@, runtime.clients@),
            },
    {
        match &self.runtime {
            Some(runtime) => copy_clients(&runtime.clients),
            None => Vec::new(),
        }
    }

    /// Enters the PIN of some pairing that has begun.
    pub fn submit_pin(&mut self, pin: String, name: Option<String>) -> (r: Result<(), AppError>)
        requires
            old(self).wf(),
        ensures
            final(self).wf(),
            *final(self) == (SunshineService { runtime: final(self).runtime, ..*old(self) }),
            match old(self).runtime {
                None => final(self).runtime is None,
                Some(runtime) => final(self).runtime matches Some(after) && after == (
                SunshineRuntime { pair_sessions: after.pair_sessions, ..runtime }) && (r is Err
                    ==> after.pair_sessions@ == runtime.pair_sessions@),
            },
            match old(self).runtime {
                None => r matches Err(AppError::BadRequest(m)) && m@
                    == "Sunshine service is not running"@,
                Some(runtime) => if !is_pin(pin@) {
                    r matches Err(AppError::BadRequest(m)) && m@ == "PIN must be four digits"@
                } else if runtime.pair_sessions@ == Map::<Seq<char>, PairSession>::empty() {
                    r matches Err(AppError::NotFound(m)) && m@
                        == "No pending Moonlight pairing session"@
                } else {
                    &&& r is Ok
                    &&& final(self).runtime matches Some(after) && exists|client: Seq<char>| #[trigger]
                        pin_went_to(
                            runtime.pair_sessions@,
                            after.pair_sessions@,
                            client,
                            pin@,
                            name,
                        )
                },
            },
    {
        let taken = self.runtime.take();
        match taken {
            None => Err(AppError::bad_request("Sunshine service is not running")),
            Some(mut runtime) => {
                let result = submit_pin(&mut runtime.pair_sessions, pin, name, None);
                self.runtime = Some(runtime);
                result
            },
        }
    }
}

/// A host that is switched off never runs, however often it is started; one that was stopped
/// knows no pairing and no session, and can be started again.
pub proof fn stopped_host_can_start_again(service: SunshineService, stopped: SunshineService)
    requires
        stopped == (SunshineService {
            runtime: None,
            status: SunshineServiceStatus::Stopped,
            ..service
        }),
    ensures
        service.config.enabled ==> start_plan(stopped.config.enabled, stopped.status)
            == StartPlan::Start,
        !service.config.enabled ==> start_plan(stopped.config.enabled, stopped.status)
            == StartPlan::Disabled,
{
}

/// A host that is switched off is never started; one that runs is not started again; any other
/// is, also after a failure.
pub proof fn when_a_host_starts(enabled: bool, status: SunshineServiceStatus)
    ensures
        start_plan(enabled, status) == StartPlan::Disabled <==> !enabled,
        start_plan(enabled, status) == StartPlan::AlreadyRunning <==> enabled && status is Running,
        start_plan(enabled, status) == StartPlan::Start <==> enabled && !(status is Running),
{
}

/// A copy of the clients is complete: as many, in the same order, and each with its name, its
/// number, its certificate and whether it is enabled.
pub proof fn a_copy_keeps_every_client(
    clients: Vec<PairedClient>,
    copy: Vec<PairedClient>,
    i: int,
)
    requires
        call_ensures(copy_clients, (&clients,), copy),
        0 <= i < clients@.len(),
    ensures
        copy@.len() == clients@.len(),
        copy@[i].name@ == clients@[i].name@,
        copy@[i].uuid@ == clients@[i].uuid@,
        copy@[i].cert@ == clients@[i].cert@,
        copy@[i].enabled == clients@[i].enabled,
{
    assert(same_client(copy@[i], clients@[i]));
}

} // verus!
