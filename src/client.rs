//! The unified client: which backend serves each operation, and the assembly
//! of one snapshot from the answers of the backends.
use crate::cli::{SurgeCliClient, TestLine};
use crate::config::Config;
use crate::entities::{Alert, AlertAction, AlertLevel, AppSnapshot};
use crate::errors::SurgeError;
use crate::http::SurgeHttpClient;
use crate::models::{DnsRecord, OutboundMode, PolicyDetail, PolicyGroup, PolicyType, Request};
use vstd::prelude::*;
use vstd::string::*;

verus! {

/// Which backend the client currently prefers.
#[derive(Debug, Clone, Copy, PartialEq, Eq, Structural)]
pub enum ClientMode {
    /// The HTTP API (preferred)
    HttpApi,
    /// The command-line tool (fallback)
    Cli,
}

/// The operations the client offers.
#[derive(Debug, Clone, Copy, PartialEq, Eq, Structural)]
pub enum Capability {
    GetOutboundMode,
    SetOutboundMode,
    TestPolicy,
    SelectPolicyGroup,
    TestPolicyGroup,
    TestAllPolicies,
    KillConnection,
    ReloadConfig,
    GetDnsCache,
    FlushDns,
    GetMitmStatus,
    SetMitmStatus,
    GetCaptureStatus,
    SetCaptureStatus,
    StartSurge,
    IsSurgeRunning,
}

/// The backend that carries out an operation.
#[derive(Debug, Clone, Copy, PartialEq, Eq, Structural)]
pub enum Backend {
    Http,
    Cli,
    System,
}

/// Operations that only the HTTP API offers.
pub open spec fn is_http_only(cap: Capability) -> bool {
    match cap {
        Capability::GetOutboundMode | Capability::SetOutboundMode | Capability::SelectPolicyGroup
        | Capability::GetDnsCache | Capability::GetMitmStatus | Capability::SetMitmStatus
        | Capability::GetCaptureStatus | Capability::SetCaptureStatus => true,
        _ => false,
    }
}

/// The backend for `cap` in `mode`; `None` when the mode cannot serve it.
pub open spec fn route_of(mode: ClientMode, cap: Capability) -> Option<Backend> {
    match cap {
        Capability::TestAllPolicies => Some(Backend::Cli),
        Capability::StartSurge | Capability::IsSurgeRunning => Some(Backend::System),
        _ => match mode {
            ClientMode::HttpApi => Some(Backend::Http),
            ClientMode::Cli => if is_http_only(cap) {
                None
            } else {
                Some(Backend::Cli)
            },
        },
    }
}

/// The reason given when the command-line mode cannot serve an operation.
pub open spec fn cli_unsupported_text() -> Seq<char> {
    "CLI mode does not support this operation"@
}

/// The error for an operation the command-line mode cannot serve.
pub fn cli_unsupported() -> (r: SurgeError)
    ensures
        r matches SurgeError::HttpApiUnavailable { reason } && reason@ == cli_unsupported_text(),
{
    SurgeError::HttpApiUnavailable {
        reason: String::from_str("CLI mode does not support this operation"),
    }
}

/// Operations that only the HTTP API offers fail with `HttpApiUnavailable`
/// while the client is in command-line mode, and are handed to no backend.
pub proof fn lemma_cli_mode_refuses_http_only(cap: Capability)
    requires
        is_http_only(cap),
    ensures
        route_of(ClientMode::Cli, cap) is None,
        route_of(ClientMode::HttpApi, cap) == Some(Backend::Http),
{
}

/// The facade over the HTTP, command-line and process backends.
#[derive(Debug, Clone)]
pub struct SurgeClient {
    pub mode: ClientMode,
    pub http_client: SurgeHttpClient,
    pub cli_client: SurgeCliClient,
}

impl SurgeClient {
    /// A client for the configured service, preferring the HTTP API.
    pub fn new(config: Config) -> (r: Self)
        ensures
            r.mode == ClientMode::HttpApi,
            r.cli_client.cli_path@ == (match config.surge.cli_path {
                Some(p) => p@,
                None => SurgeCliClient::default_path(),
            }),
            r.http_client.api_key == config.surge.http_api_key,
            r.http_client.base_url@ == SurgeHttpClient::base_url_of(
                config.surge.http_api_host@,
                config.surge.http_api_port,
            ),
    {
        let http_client = SurgeHttpClient::new(
            config.surge.http_api_host,
            config.surge.http_api_port,
            config.surge.http_api_key,
        );
        let cli_client = SurgeCliClient::new(config.surge.cli_path);
        SurgeClient { mode: ClientMode::HttpApi, http_client, cli_client }
    }

    pub fn mode(&self) -> (r: ClientMode)
        ensures
            r == self.mode,
    {
        self.mode
    }

    /// Takes the HTTP API when its probe succeeded, else the command-line tool.
    pub fn detect_mode(&mut self, http_available: bool) -> (r: ClientMode)
        ensures
            r == final(self).mode,
            final(self).mode == (if http_available {
                ClientMode::HttpApi
            } else {
                ClientMode::Cli
            }),
            final(self).http_client == old(self).http_client,
            final(self).cli_client == old(self).cli_client,
    {
        if http_available {
            self.mode = ClientMode::HttpApi;
        } else {
            self.mode = ClientMode::Cli;
        }
        self.mode
    }

    /// The backend that serves `cap` now, or the error when none can.
    pub fn route(&self, cap: Capability) -> (r: Result<Backend, SurgeError>)
        ensures
            match route_of(self.mode, cap) {
                Some(b) => r == Ok::<Backend, SurgeError>(b),
                None => r matches Err(SurgeError::HttpApiUnavailable { reason }) && reason@
                    == cli_unsupported_text(),
            },
    {
        match cap {
            Capability::TestAllPolicies => Ok(Backend::Cli),
            Capability::StartSurge | Capability::IsSurgeRunning => Ok(Backend::System),
            _ => match self.mode {
                ClientMode::HttpApi => Ok(Backend::Http),
                ClientMode::Cli => match cap {
                    Capability::GetOutboundMode | Capability::SetOutboundMode
                    | Capability::SelectPolicyGroup | Capability::GetDnsCache
                    | Capability::GetMitmStatus | Capability::SetMitmStatus
                    | Capability::GetCaptureStatus | Capability::SetCaptureStatus => Err(
                        cli_unsupported(),
                    ),
                    _ => Ok(Backend::Cli),
                },
            },
        }
    }

    /// The bulk test results as policy details; the type is a placeholder
    /// until the results are merged into the policy groups.
    pub fn details_from_results(results: Vec<TestLine>) -> (r: Vec<PolicyDetail>)
        ensures
            r@.len() == results@.len(),
            forall|i: int|
                0 <= i < r@.len() ==> {
                    &&& (#[trigger] r@[i]).name == results@[i].0
                    &&& r@[i].policy_type == PolicyType::Direct
                    &&& r@[i].alive == results@[i].2
                    &&& r@[i].latency == results@[i].1
                    &&& r@[i].last_test_at is None
                },
    {
        let mut r: Vec<PolicyDetail> = Vec::new();
        let mut i: usize = 0;
        while i < results.len()
            invariant
                i <= results@.len(),
                r@.len() == i,
                forall|j: int|
                    0 <= j < i ==> {
                        &&& (#[trigger] r@[j]).name == results@[j].0
                        &&& r@[j].policy_type == PolicyType::Direct
                        &&& r@[j].alive == results@[j].2
                        &&& r@[j].latency == results@[j].1
                        &&& r@[j].last_test_at is None
                    },
            decreases results@.len() - i,
        {
            r.push(
                PolicyDetail {
                    name: results[i].0.clone(),
                    policy_type: PolicyType::Direct,
                    alive: results[i].2,
                    latency: results[i].1,
                    last_test_at: None,
                },
            );
            i += 1;
        }
        r
    }
}

/// Where the assembly of a snapshot stands: the next answer it waits for.
#[derive(Debug, Clone, Copy, PartialEq, Eq, Structural)]
pub enum SnapshotStage {
    /// Is the service running?
    Running,
    /// Which mode did detection pick?
    Mode,
    /// The outbound mode
    Outbound,
    /// The MITM and capture toggles
    Features,
    /// Policy groups, requests, connections and DNS cache
    Collections,
    /// Complete
    Done,
}

/// Builds one snapshot from the answers of the backends, asking for them in
/// a fixed order and stopping early when the service is not running.
#[derive(Debug)]
pub struct SnapshotBuilder {
    pub snapshot: AppSnapshot,
    pub stage: SnapshotStage,
}

impl SnapshotBuilder {
    /// The builder's invariant: blank until the running check, and a stopped
    /// service only in the finished shape of a stopped service.
    pub open spec fn wf(&self) -> bool {
        &&& self.stage == SnapshotStage::Running ==> self.snapshot.is_blank()
        &&& !self.snapshot.surge_running ==> (self.stage == SnapshotStage::Running || (self.stage
            == SnapshotStage::Done && self.snapshot.is_not_running()))
    }

    pub fn new() -> (r: Self)
        ensures
            r.wf(),
            r.snapshot.is_blank(),
            r.stage == SnapshotStage::Running,
    {
        SnapshotBuilder { snapshot: AppSnapshot::new(), stage: SnapshotStage::Running }
    }

    /// Records whether the service runs. A stopped service ends the build
    /// with the one alert that offers to start it.
    pub fn on_running(&mut self, running: bool)
        requires
            old(self).wf(),
            old(self).stage == SnapshotStage::Running,
        ensures
            final(self).wf(),
            !running ==> final(self).stage == SnapshotStage::Done
                && final(self).snapshot.is_not_running(),
            running ==> final(self).stage == SnapshotStage::Mode && final(self).snapshot.surge_running
                && final(self).snapshot.alerts@.len() == 0
                && final(self).snapshot.http_api_available == false,
    {
        if running {
            self.snapshot.surge_running = true;
            self.stage = SnapshotStage::Mode;
        } else {
            self.snapshot.add_alert(Alert::surge_not_running());
            self.stage = SnapshotStage::Done;
        }
    }

    /// Records the detected mode; without the HTTP API an alert offers to
    /// reload the configuration, and the build goes on.
    pub fn on_mode(&mut self, mode: ClientMode)
        requires
            old(self).wf(),
            old(self).stage == SnapshotStage::Mode,
        ensures
            final(self).wf(),
            final(self).stage == SnapshotStage::Outbound,
            final(self).snapshot.surge_running == old(self).snapshot.surge_running,
            final(self).snapshot.http_api_available == (mode == ClientMode::HttpApi),
            mode == ClientMode::HttpApi ==> final(self).snapshot.alerts@ == old(
                self,
            ).snapshot.alerts@,
            mode == ClientMode::Cli ==> final(self).snapshot.alerts@.len() == old(
                self,
            ).snapshot.alerts@.len() + 1 && final(self).snapshot.alerts@.drop_last() == old(
                self,
            ).snapshot.alerts@ && final(self).snapshot.alerts@.last().level == AlertLevel::Error
                && final(self).snapshot.alerts@.last().action == AlertAction::ReloadConfig
                && final(self).snapshot.alerts@.last().message@ == "http_api_disabled"@,
            final(self).snapshot.outbound_mode == old(self).snapshot.outbound_mode,
    {
        self.snapshot.http_api_available = mode == ClientMode::HttpApi;
        if mode == ClientMode::Cli {
            let ghost before = self.snapshot.alerts@;
            self.snapshot.add_alert(Alert::http_api_disabled());
            assert(self.snapshot.alerts@.drop_last() =~= before);
        }
        self.stage = SnapshotStage::Outbound;
    }

    /// Records the outbound mode; a failure leaves it unknown.
    pub fn on_outbound(&mut self, outbound: Result<OutboundMode, SurgeError>)
        requires
            old(self).wf(),
            old(self).stage == SnapshotStage::Outbound,
        ensures
            final(self).wf(),
            final(self).snapshot.outbound_mode == (match outbound {
                Ok(m) => Some(m),
                Err(_) => None::<OutboundMode>,
            }),
            final(self).stage == (if old(self).snapshot.http_api_available {
                SnapshotStage::Features
            } else {
                SnapshotStage::Done
            }),
            final(self).snapshot.http_api_available == old(self).snapshot.http_api_available,
            final(self).snapshot.surge_running == old(self).snapshot.surge_running,
            final(self).snapshot.alerts == old(self).snapshot.alerts,
    {
        self.snapshot.outbound_mode = match outbound {
            Ok(m) => Some(m),
            Err(_) => None,
        };
        if self.snapshot.http_api_available {
            self.stage = SnapshotStage::Features;
        } else {
            self.stage = SnapshotStage::Done;
        }
    }

    /// Records the feature toggles; a failure leaves a toggle unknown.
    pub fn on_features(&mut self, mitm: Result<bool, SurgeError>, capture: Result<bool, SurgeError>)
        requires
            old(self).wf(),
            old(self).stage == SnapshotStage::Features,
        ensures
            final(self).wf(),
            final(self).stage == SnapshotStage::Collections,
            final(self).snapshot.mitm_enabled == (match mitm {
                Ok(b) => Some(b),
                Err(_) => None::<bool>,
            }),
            final(self).snapshot.capture_enabled == (match capture {
                Ok(b) => Some(b),
                Err(_) => None::<bool>,
            }),
            final(self).snapshot.outbound_mode == old(self).snapshot.outbound_mode,
            final(self).snapshot.http_api_available == old(self).snapshot.http_api_available,
            final(self).snapshot.surge_running == old(self).snapshot.surge_running,
            final(self).snapshot.alerts == old(self).snapshot.alerts,
    {
        self.snapshot.mitm_enabled = match mitm {
            Ok(b) => Some(b),
            Err(_) => None,
        };
        self.snapshot.capture_enabled = match capture {
            Ok(b) => Some(b),
            Err(_) => None,
        };
        self.stage = SnapshotStage::Collections;
    }

    /// Records the lists; each failure leaves its list empty and does not
    /// affect the others.
    pub fn on_collections(
        &mut self,
        groups: Result<Vec<PolicyGroup>, SurgeError>,
        recent: Result<Vec<Request>, SurgeError>,
        active: Result<Vec<Request>, SurgeError>,
        dns: Result<Vec<DnsRecord>, SurgeError>,
    )
        requires
            old(self).wf(),
            old(self).stage == SnapshotStage::Collections,
            old(self).snapshot.policy_groups@.len() == 0,
            old(self).snapshot.recent_requests@.len() == 0,
            old(self).snapshot.active_connections@.len() == 0,
            old(self).snapshot.dns_cache@.len() == 0,
        ensures
            final(self).wf(),
            final(self).stage == SnapshotStage::Done,
            final(self).snapshot.policy_groups@ == (match groups {
                Ok(g) => g@,
                Err(_) => Seq::<PolicyGroup>::empty(),
            }),
            final(self).snapshot.recent_requests@ == (match recent {
                Ok(g) => g@,
                Err(_) => Seq::<Request>::empty(),
            }),
            final(self).snapshot.active_connections@ == (match active {
                Ok(g) => g@,
                Err(_) => Seq::<Request>::empty(),
            }),
            final(self).snapshot.dns_cache@ == (match dns {
                Ok(g) => g@,
                Err(_) => Seq::<DnsRecord>::empty(),
            }),
            final(self).snapshot.outbound_mode == old(self).snapshot.outbound_mode,
            final(self).snapshot.mitm_enabled == old(self).snapshot.mitm_enabled,
            final(self).snapshot.capture_enabled == old(self).snapshot.capture_enabled,
            final(self).snapshot.http_api_available == old(self).snapshot.http_api_available,
            final(self).snapshot.surge_running == old(self).snapshot.surge_running,
            final(self).snapshot.alerts == old(self).snapshot.alerts,
    {
        if let Ok(g) = groups {
            self.snapshot.policy_groups = g;
        }
        if let Ok(r) = recent {
            self.snapshot.recent_requests = r;
        }
        if let Ok(a) = active {
            self.snapshot.active_connections = a;
        }
        if let Ok(d) = dns {
            self.snapshot.dns_cache = d;
        }
        self.stage = SnapshotStage::Done;
    }

    /// The finished snapshot.
    pub fn finish(self) -> (r: AppSnapshot)
        requires
            self.wf(),
            self.stage == SnapshotStage::Done,
        ensures
            r == self.snapshot,
            !r.surge_running ==> r.is_not_running(),
    {
        self.snapshot
    }
}

/// A finished snapshot of a stopped service holds exactly one alert, at
/// error level, offering to start the service, and every other field at its
/// default.
pub proof fn lemma_stopped_snapshot(b: SnapshotBuilder)
    requires
        b.wf(),
        b.stage == SnapshotStage::Done,
        !b.snapshot.surge_running,
    ensures
        b.snapshot.alerts@.len() == 1,
        b.snapshot.alerts@[0].level == AlertLevel::Error,
        b.snapshot.alerts@[0].action == AlertAction::StartSurge,
        b.snapshot.outbound_mode is None && b.snapshot.mitm_enabled is None
            && b.snapshot.capture_enabled is None,
        b.snapshot.policies@.len() == 0 && b.snapshot.policy_groups@.len() == 0
            && b.snapshot.recent_requests@.len() == 0 && b.snapshot.active_connections@.len() == 0
            && b.snapshot.dns_cache@.len() == 0,
{
}

} // verus!
