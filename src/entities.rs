//! The per-refresh snapshot of the service and the alerts shown with it.
use crate::models::{DnsRecord, OutboundMode, PolicyDetail, PolicyGroup, Request};
use vstd::prelude::*;
use vstd::string::*;

verus! {

/// The views of the dashboard, one shown at a time.
#[derive(Debug, Clone, Copy, PartialEq, Eq, Structural)]
pub enum ViewMode {
    Overview,
    Policies,
    Requests,
    ActiveConnections,
    Dns,
}

impl ViewMode {
    /// Every view, in tab order.
    pub fn all() -> (r: Vec<ViewMode>)
        ensures
            r@ == seq![
                ViewMode::Overview,
                ViewMode::Policies,
                ViewMode::Requests,
                ViewMode::ActiveConnections,
                ViewMode::Dns,
            ],
    {
        let r = vec![
            ViewMode::Overview,
            ViewMode::Policies,
            ViewMode::Requests,
            ViewMode::ActiveConnections,
            ViewMode::Dns,
        ];
        assert(r@ =~= seq![
            ViewMode::Overview,
            ViewMode::Policies,
            ViewMode::Requests,
            ViewMode::ActiveConnections,
            ViewMode::Dns,
        ]);
        r
    }
}

/// Severity of an alert.
#[derive(Debug, Clone, Copy, PartialEq, Eq, Structural)]
pub enum AlertLevel {
    Info,
    Warning,
    /// Needs the user to act
    Error,
}

/// The remedy an alert offers.
#[derive(Debug, Clone, Copy, PartialEq, Eq, Structural)]
pub enum AlertAction {
    /// Start the service (key S)
    StartSurge,
    /// Reload the configuration (key R)
    ReloadConfig,
    NoAction,
}

/// A persistent message with a stable key and a suggested remedy.
#[derive(Debug)]
pub struct Alert {
    pub level: AlertLevel,
    /// Message key, turned into text when shown
    pub message: String,
    pub action: AlertAction,
}

impl Alert {
    /// The service is not running.
    pub fn surge_not_running() -> (r: Self)
        ensures
            r.level == AlertLevel::Error,
            r.message@ == "surge_not_running"@,
            r.action == AlertAction::StartSurge,
    {
        Alert {
            level: AlertLevel::Error,
            message: String::from_str("surge_not_running"),
            action: AlertAction::StartSurge,
        }
    }

    /// The HTTP API cannot be reached.
    pub fn http_api_disabled() -> (r: Self)
        ensures
            r.level == AlertLevel::Error,
            r.message@ == "http_api_disabled"@,
            r.action == AlertAction::ReloadConfig,
    {
        Alert {
            level: AlertLevel::Error,
            message: String::from_str("http_api_disabled"),
            action: AlertAction::ReloadConfig,
        }
    }

    /// The configuration is invalid.
    pub fn config_error(message: String) -> (r: Self)
        ensures
            r.level == AlertLevel::Warning,
            r.message@ == "config_error: "@ + message@,
            r.action == AlertAction::ReloadConfig,
    {
        let mut m = String::from_str("config_error: ");
        m.append(message.as_str());
        Alert { level: AlertLevel::Warning, message: m, action: AlertAction::ReloadConfig }
    }

    /// A general warning.
    pub fn warning(message: String) -> (r: Self)
        ensures
            r.level == AlertLevel::Warning,
            r.message == message,
            r.action == AlertAction::NoAction,
    {
        Alert { level: AlertLevel::Warning, message, action: AlertAction::NoAction }
    }

    /// An informational note.
    pub fn info(message: String) -> (r: Self)
        ensures
            r.level == AlertLevel::Info,
            r.message == message,
            r.action == AlertAction::NoAction,
    {
        Alert { level: AlertLevel::Info, message, action: AlertAction::NoAction }
    }
}

/// One consistent pull of everything the dashboard shows.
#[derive(Debug)]
pub struct AppSnapshot {
    pub surge_running: bool,
    pub http_api_available: bool,
    pub outbound_mode: Option<OutboundMode>,
    pub mitm_enabled: Option<bool>,
    pub capture_enabled: Option<bool>,
    pub policies: Vec<PolicyDetail>,
    pub policy_groups: Vec<PolicyGroup>,
    pub recent_requests: Vec<Request>,
    pub active_connections: Vec<Request>,
    pub dns_cache: Vec<DnsRecord>,
    pub alerts: Vec<Alert>,
}

impl AppSnapshot {
    /// Every field at its default: nothing known, no alerts.
    pub open spec fn is_blank(self) -> bool {
        &&& !self.surge_running
        &&& !self.http_api_available
        &&& self.outbound_mode is None
        &&& self.mitm_enabled is None
        &&& self.capture_enabled is None
        &&& self.policies@.len() == 0
        &&& self.policy_groups@.len() == 0
        &&& self.recent_requests@.len() == 0
        &&& self.active_connections@.len() == 0
        &&& self.dns_cache@.len() == 0
        &&& self.alerts@.len() == 0
    }

    /// The shape of a snapshot of a stopped service: every other field at its
    /// default, and the single alert that offers to start it.
    pub open spec fn is_not_running(self) -> bool {
        &&& !self.surge_running
        &&& !self.http_api_available
        &&& self.outbound_mode is None
        &&& self.mitm_enabled is None
        &&& self.capture_enabled is None
        &&& self.policies@.len() == 0
        &&& self.policy_groups@.len() == 0
        &&& self.recent_requests@.len() == 0
        &&& self.active_connections@.len() == 0
        &&& self.dns_cache@.len() == 0
        &&& self.alerts@.len() == 1
        &&& self.alerts@[0].level == AlertLevel::Error
        &&& self.alerts@[0].action == AlertAction::StartSurge
        &&& self.alerts@[0].message@ == "surge_not_running"@
    }

    pub fn new() -> (r: Self)
        ensures
            r.is_blank(),
    {
        AppSnapshot {
            surge_running: false,
            http_api_available: false,
            outbound_mode: None,
            mitm_enabled: None,
            capture_enabled: None,
            policies: Vec::new(),
            policy_groups: Vec::new(),
            recent_requests: Vec::new(),
            active_connections: Vec::new(),
            dns_cache: Vec::new(),
            alerts: Vec::new(),
        }
    }

    /// The snapshot of a stopped service.
    pub fn not_running() -> (r: Self)
        ensures
            r.is_not_running(),
    {
        let mut s = AppSnapshot::new();
        s.add_alert(Alert::surge_not_running());
        s
    }

    /// Adds an alert at the end.
    pub fn add_alert(&mut self, alert: Alert)
        ensures
            final(self).alerts@ == old(self).alerts@.push(alert),
            final(self).surge_running == old(self).surge_running,
            final(self).http_api_available == old(self).http_api_available,
            final(self).outbound_mode == old(self).outbound_mode,
            final(self).mitm_enabled == old(self).mitm_enabled,
            final(self).capture_enabled == old(self).capture_enabled,
            final(self).policies == old(self).policies,
            final(self).policy_groups == old(self).policy_groups,
            final(self).recent_requests == old(self).recent_requests,
            final(self).active_connections == old(self).active_connections,
            final(self).dns_cache == old(self).dns_cache,
    {
        self.alerts.push(alert);
    }

    /// Removes every alert.
    pub fn clear_alerts(&mut self)
        ensures
            final(self).alerts@.len() == 0,
            final(self).surge_running == old(self).surge_running,
            final(self).http_api_available == old(self).http_api_available,
            final(self).outbound_mode == old(self).outbound_mode,
            final(self).mitm_enabled == old(self).mitm_enabled,
            final(self).capture_enabled == old(self).capture_enabled,
            final(self).policies == old(self).policies,
            final(self).policy_groups == old(self).policy_groups,
            final(self).recent_requests == old(self).recent_requests,
            final(self).active_connections == old(self).active_connections,
            final(self).dns_cache == old(self).dns_cache,
    {
        self.alerts.clear();
    }

    /// Whether some alert is at error level.
    pub fn has_errors(&self) -> (r: bool)
        ensures
            r == exists|i: int| 0 <= i < self.alerts@.len() && #[trigger] self.alerts@[i].level
                == AlertLevel::Error,
    {
        let mut i: usize = 0;
        while i < self.alerts.len()
            invariant
                i <= self.alerts@.len(),
                forall|j: int| 0 <= j < i ==> #[trigger] self.alerts@[j].level != AlertLevel::Error,
            decreases self.alerts@.len() - i,
        {
            if self.alerts[i].level == AlertLevel::Error {
                return true;
            }
            i += 1;
        }
        false
    }
}

impl Default for AppSnapshot {
    fn default() -> (r: Self)
        ensures
            r.is_blank(),
    {
        AppSnapshot::new()
    }
}

} // verus!
