//! The dashboard session: views, cursor, search, modal dialogs, notification
//! history and the latency cache, driven by keys, background-test messages
//! and snapshot refreshes.
use crate::entities::{AppSnapshot, ViewMode};
use crate::errors::SurgeError;
use crate::i18n::Translate;
use crate::models::{PolicyDetail, Request};
use crate::policies::{available_from, available_policies, find_group, group_pos, LatencyCache};
use crate::requests::{
    count_dns_matches, dns_match_count, filter_requests, group_requests_by_app, is_app_partition,
    is_sorted_partition, kept_indices, MAX_LISTED,
};
use crate::text::{pop_char, push_char, push_decimal, str_eq};
use vstd::prelude::*;
use vstd::string::*;

verus! {

/// Most notifications kept in the history.
pub const MAX_NOTIFICATIONS: usize = 50;

/// Most entries kept in the developer log.
pub const MAX_DEVTOOLS_LOGS: usize = 200;

/// Seconds a notification stays in the status bar.
pub const NOTIFICATION_SECONDS: u64 = 5;

/// Relies on `chrono::Local::now`: the current time in milliseconds since the
/// Unix epoch. Nothing is known of its value.
#[verifier::external_body]
fn now_millis() -> (r: i64) {
    chrono::Local::now().timestamp_millis()
}

/// Kind of a notification.
#[derive(Debug, Clone, Copy, PartialEq, Eq, Structural)]
pub enum NotificationLevel {
    Info,
    Success,
    Error,
}

/// A timed message shown in the status bar and kept in the history.
#[derive(Debug, Clone)]
pub struct Notification {
    pub message: String,
    pub level: NotificationLevel,
    /// Creation time, milliseconds since the Unix epoch
    pub created_at_ms: i64,
}

impl Notification {
    pub fn new(message: String, level: NotificationLevel) -> (r: Self)
        ensures
            r.message == message,
            r.level == level,
    {
        Notification { message, level, created_at_ms: now_millis() }
    }

    pub fn info(message: String) -> (r: Self)
        ensures
            r.message == message,
            r.level == NotificationLevel::Info,
    {
        Self::new(message, NotificationLevel::Info)
    }

    pub fn success(message: String) -> (r: Self)
        ensures
            r.message == message,
            r.level == NotificationLevel::Success,
    {
        Self::new(message, NotificationLevel::Success)
    }

    pub fn error(message: String) -> (r: Self)
        ensures
            r.message == message,
            r.level == NotificationLevel::Error,
    {
        Self::new(message, NotificationLevel::Error)
    }

    /// The symbol shown before the message.
    pub fn icon(&self) -> (r: &'static str)
        ensures
            r@ == (match self.level {
                NotificationLevel::Info => "ℹ"@,
                NotificationLevel::Success => "✓"@,
                NotificationLevel::Error => "✗"@,
            }),
    {
        match self.level {
            NotificationLevel::Info => "ℹ",
            NotificationLevel::Success => "✓",
            NotificationLevel::Error => "✗",
        }
    }

    /// Whole seconds left in the status bar at time `now_ms`.
    pub open spec fn remaining_at(self, now_ms: i64) -> int {
        let elapsed = if now_ms > self.created_at_ms {
            (now_ms - self.created_at_ms) / 1000
        } else {
            0
        };
        if elapsed >= NOTIFICATION_SECONDS {
            0
        } else {
            NOTIFICATION_SECONDS - elapsed
        }
    }

    /// Whole seconds left in the status bar at time `now_ms`.
    pub fn remaining_time_at(&self, now_ms: i64) -> (r: u64)
        ensures
            r as int == self.remaining_at(now_ms),
    {
        let elapsed: u64 = if now_ms > self.created_at_ms {
            ((now_ms as i128 - self.created_at_ms as i128) / 1000) as u64
        } else {
            0
        };
        NOTIFICATION_SECONDS.saturating_sub(elapsed)
    }

    /// Whole seconds left in the status bar now.
    pub fn remaining_time(&self) -> (r: u64)
        ensures
            r <= NOTIFICATION_SECONDS,
    {
        self.remaining_time_at(now_millis())
    }
}

/// Severity of a developer-log entry.
#[derive(Debug, Clone, Copy, PartialEq, Eq, Structural)]
pub enum LogLevel {
    Debug,
    Info,
    Warning,
    Error,
}

/// An entry of the developer log.
#[derive(Debug, Clone)]
pub struct DevToolsLog {
    /// Milliseconds since the Unix epoch
    pub timestamp_ms: i64,
    pub level: LogLevel,
    pub message: String,
}

impl DevToolsLog {
    pub fn new(level: LogLevel, message: String) -> (r: Self)
        ensures
            r.level == level,
            r.message == message,
    {
        DevToolsLog { timestamp_ms: now_millis(), level, message }
    }

    /// Fixed-width label of the level.
    pub fn level_str(&self) -> (r: &'static str)
        ensures
            r@ == (match self.level {
                LogLevel::Debug => "DEBUG"@,
                LogLevel::Info => "INFO "@,
                LogLevel::Warning => "WARN "@,
                LogLevel::Error => "ERROR"@,
            }),
    {
        match self.level {
            LogLevel::Debug => "DEBUG",
            LogLevel::Info => "INFO ",
            LogLevel::Warning => "WARN ",
            LogLevel::Error => "ERROR",
        }
    }
}

/// Lifecycle messages of one background latency test.
#[derive(Debug)]
pub enum TestMessage {
    Started,
    Completed { group_name: String, results: Vec<PolicyDetail> },
    Failed { error: String },
}

/// A latency test that has started and not yet ended.
#[derive(Debug)]
pub struct TestRun {
    pub group_name: String,
}

/// The messages of one test run, in the order they are sent.
pub open spec fn is_test_lifecycle(msgs: Seq<TestMessage>) -> bool {
    &&& msgs.len() == 2
    &&& msgs[0] is Started
    &&& (msgs[1] is Completed || msgs[1] is Failed)
}

impl TestRun {
    /// Starts a run for a group; its first message is `Started`.
    pub fn begin(group_name: String) -> (r: (TestRun, TestMessage))
        ensures
            r.0.group_name == group_name,
            r.1 is Started,
    {
        (TestRun { group_name }, TestMessage::Started)
    }

    /// Ends the run with the outcome of the bulk test: `Completed` with the
    /// results, or `Failed` with the error's text. A run ends once.
    pub fn end(self, outcome: Result<Vec<PolicyDetail>, SurgeError>) -> (r: TestMessage)
        ensures
            match outcome {
                Ok(v) => r == TestMessage::Completed { group_name: self.group_name, results: v },
                Err(e) => r matches TestMessage::Failed { error } && error@ == e.text(),
            },
    {
        match outcome {
            Ok(v) => TestMessage::Completed { group_name: self.group_name, results: v },
            Err(e) => TestMessage::Failed { error: e.message() },
        }
    }
}

/// The messages of a run, `Started` and then what `end` gives, form one
/// lifecycle: `Started` once, first, and one final message after it.
pub proof fn lemma_test_lifecycle(first: TestMessage, last: TestMessage)
    requires
        first is Started,
        last is Completed || last is Failed,
    ensures
        is_test_lifecycle(seq![first, last]),
        seq![first, last].filter(|m: TestMessage| m is Started).len() == 1,
{
    let s = seq![first, last];
    reveal_with_fuel(Seq::filter, 3);
    assert(s.drop_last() =~= seq![first]);
    assert(seq![first].drop_last() =~= Seq::<TestMessage>::empty());
}

/// A keyboard key, as the session distinguishes them.
#[derive(Debug, Clone, Copy, PartialEq, Eq, Structural)]
pub enum Key {
    Char(char),
    Enter,
    Esc,
    Backspace,
    Up,
    Down,
    Left,
    Right,
    Other,
}

/// Outside work a key asks for; the loop performs it and reports back.
#[derive(Debug, Clone, PartialEq, Eq)]
pub enum KeyAction {
    Nothing,
    KillConnection(u64),
    SelectPolicy { group: String, policy: String },
    StartTest { group: String },
    FlushDns,
    SetOutboundMode(crate::models::OutboundMode),
    SetMitm(bool),
    SetCapture(bool),
    StartSurge,
    ReloadConfig,
    Refresh,
}

/// Everything the dashboard shows and remembers between keys.
#[derive(Debug)]
pub struct App {
    pub current_view: ViewMode,
    pub snapshot: AppSnapshot,
    pub should_quit: bool,
    /// Seconds between refreshes
    pub refresh_interval_secs: u64,
    /// Cursor of the current list
    pub selected_index: usize,
    /// Cursor inside a policy group; `None` in the group list
    pub policy_detail_index: Option<usize>,
    /// Status text of a running latency test
    pub testing_policy_group: Option<String>,
    /// At most the last fifty notifications
    pub notifications: Vec<Notification>,
    pub show_notification_history: bool,
    pub show_devtools: bool,
    /// At most the last two hundred entries
    pub devtools_logs: Vec<DevToolsLog>,
    /// Latest test result per policy name, kept across refreshes
    pub policy_test_cache: LatencyCache,
    pub search_mode: bool,
    /// Search of the group list and of the other views
    pub search_query: String,
    /// Search inside a policy group
    pub policy_detail_search: String,
    /// Requests and connections grouped by application
    pub grouped_mode: bool,
    pub grouped_app_index: usize,
    pub show_help: bool,
    /// Connection waiting for the kill confirmation
    pub show_kill_confirm: Option<u64>,
}

/// `n`, capped at the number of listed requests.
pub open spec fn min_listed(n: nat) -> nat {
    if n < MAX_LISTED {
        n
    } else {
        MAX_LISTED as nat
    }
}

impl App {
    pub open spec fn wf(&self) -> bool {
        &&& self.policy_test_cache.wf()
        &&& self.notifications@.len() <= MAX_NOTIFICATIONS
        &&& self.devtools_logs@.len() <= MAX_DEVTOOLS_LOGS
    }

    pub fn new(refresh_interval_secs: u64) -> (r: Self)
        ensures
            r.wf(),
            r.current_view == ViewMode::Overview,
            r.snapshot.is_blank(),
            !r.should_quit,
            r.refresh_interval_secs == refresh_interval_secs,
            r.selected_index == 0,
            r.policy_detail_index is None,
            r.testing_policy_group is None,
            r.notifications@.len() == 0,
            r.devtools_logs@.len() == 0,
            r.policy_test_cache.entries@.len() == 0,
            !r.search_mode && !r.grouped_mode && !r.show_help && !r.show_devtools
                && !r.show_notification_history,
            r.search_query@.len() == 0,
            r.policy_detail_search@.len() == 0,
            r.grouped_app_index == 0,
            r.show_kill_confirm is None,
    {
        App {
            current_view: ViewMode::Overview,
            snapshot: AppSnapshot::new(),
            should_quit: false,
            refresh_interval_secs,
            selected_index: 0,
            policy_detail_index: None,
            testing_policy_group: None,
            notifications: Vec::new(),
            show_notification_history: false,
            show_devtools: false,
            devtools_logs: Vec::new(),
            policy_test_cache: LatencyCache::new(),
            search_mode: false,
            search_query: String::new(),
            policy_detail_search: String::new(),
            grouped_mode: false,
            grouped_app_index: 0,
            show_help: false,
            show_kill_confirm: None,
        }
    }

    /// Adds a notification, dropping the oldest beyond fifty.
    pub fn add_notification(&mut self, notification: Notification)
        requires
            old(self).notifications@.len() <= MAX_NOTIFICATIONS,
        ensures
            final(self).notifications@ == (if old(self).notifications@.len() < MAX_NOTIFICATIONS {
                old(self).notifications@.push(notification)
            } else {
                old(self).notifications@.push(notification).drop_first()
            }),
            final(self).notifications@.len() <= MAX_NOTIFICATIONS,
            final(self).testing_policy_group == old(self).testing_policy_group,
            final(self).devtools_logs == old(self).devtools_logs,
            final(self).policy_test_cache == old(self).policy_test_cache,
            final(self).snapshot == old(self).snapshot,
    {
        self.notifications.push(notification);
        if self.notifications.len() > MAX_NOTIFICATIONS {
            self.notifications.remove(0);
        }
    }

    /// Adds a developer-log entry, dropping the oldest beyond two hundred.
    pub fn add_devtools_log(&mut self, level: LogLevel, message: String)
        requires
            old(self).devtools_logs@.len() <= MAX_DEVTOOLS_LOGS,
        ensures
            final(self).devtools_logs@.len() == (if old(self).devtools_logs@.len()
                < MAX_DEVTOOLS_LOGS {
                old(self).devtools_logs@.len() + 1
            } else {
                MAX_DEVTOOLS_LOGS as nat
            }),
            final(self).devtools_logs@.last().level == level,
            final(self).devtools_logs@.last().message == message,
            final(self).devtools_logs@.drop_last() == (if old(self).devtools_logs@.len()
                < MAX_DEVTOOLS_LOGS {
                old(self).devtools_logs@
            } else {
                old(self).devtools_logs@.drop_first()
            }),
            final(self).notifications == old(self).notifications,
            final(self).testing_policy_group == old(self).testing_policy_group,
            final(self).policy_test_cache == old(self).policy_test_cache,
            final(self).snapshot == old(self).snapshot,
    {
        let ghost before = self.devtools_logs@;
        self.devtools_logs.push(DevToolsLog::new(level, message));
        if self.devtools_logs.len() > MAX_DEVTOOLS_LOGS {
            self.devtools_logs.remove(0);
            assert(self.devtools_logs@.drop_last() =~= before.drop_first());
        } else {
            assert(self.devtools_logs@.drop_last() =~= before);
        }
    }

    /// The requests of the current view: recent requests or active connections.
    pub open spec fn view_requests(&self) -> Seq<Request> {
        if self.current_view == ViewMode::ActiveConnections {
            self.snapshot.active_connections@
        } else {
            self.snapshot.recent_requests@
        }
    }

    /// `n` requests of the selected application match the search: with the
    /// groups in display order, the group at `grouped_app_index` (none past
    /// the end), at most fifty.
    pub open spec fn grouped_count_is(&self, reqs: Seq<Request>, query: Seq<char>, n: nat) -> bool {
        exists|parts: Seq<(String, usize)>|
            #![trigger is_app_partition(reqs, parts)]
            is_app_partition(reqs, parts) && is_sorted_partition(parts) && n == (
            if self.grouped_app_index < parts.len() {
                min_listed(
                    kept_indices(reqs, query, false, Some(parts[self.grouped_app_index as int].0@)).len(),
                )
            } else {
                0
            })
    }

    /// Number of requests of the selected application that match `search_query`.
    pub fn get_grouped_request_count(&self, search_query: &str) -> (r: usize)
        requires
            self.current_view == ViewMode::Requests || self.current_view
                == ViewMode::ActiveConnections,
        ensures
            self.grouped_count_is(self.view_requests(), search_query@, r as nat),
    {
        let requests = if self.current_view == ViewMode::ActiveConnections {
            &self.snapshot.active_connections
        } else {
            &self.snapshot.recent_requests
        };
        let apps = group_requests_by_app(requests);
        let r = if self.grouped_app_index >= apps.len() {
            0
        } else {
            let filtered = filter_requests(
                requests,
                search_query,
                false,
                Some(apps[self.grouped_app_index].0.as_str()),
            );
            if filtered.len() < MAX_LISTED {
                filtered.len()
            } else {
                MAX_LISTED
            }
        };
        assert(is_app_partition(requests@, apps@));
        r
    }

    /// Number of applications among the requests of the current view.
    pub fn get_grouped_app_count(&self) -> (r: usize)
        ensures
            self.current_view == ViewMode::Requests || self.current_view
                == ViewMode::ActiveConnections ==> exists|parts: Seq<(String, usize)>|
                #![trigger is_app_partition(self.view_requests(), parts)]
                is_app_partition(self.view_requests(), parts) && r == parts.len(),
            !(self.current_view == ViewMode::Requests || self.current_view
                == ViewMode::ActiveConnections) ==> r == 0,
    {
        if !(self.current_view == ViewMode::Requests || self.current_view
            == ViewMode::ActiveConnections) {
            return 0;
        }
        let requests = if self.current_view == ViewMode::ActiveConnections {
            &self.snapshot.active_connections
        } else {
            &self.snapshot.recent_requests
        };
        let apps = group_requests_by_app(requests);
        assert(requests@ == self.view_requests());
        assert(is_app_partition(self.view_requests(), apps@));
        apps.len()
    }

    /// The length of the list shown in the current view is `n`.
    pub open spec fn list_len_is(&self, n: nat) -> bool {
        match self.current_view {
            ViewMode::Overview => n == 0,
            ViewMode::Policies => n == self.snapshot.policy_groups@.len(),
            ViewMode::Dns => n == dns_match_count(self.snapshot.dns_cache@, self.search_query@),
            _ => if self.grouped_mode {
                self.grouped_count_is(self.view_requests(), self.search_query@, n)
            } else {
                n == min_listed(
                    kept_indices(self.view_requests(), self.search_query@, true, None).len(),
                )
            },
        }
    }

    /// Length of the list of the current view, after search and the cap of
    /// fifty listed requests.
    pub fn get_current_list_len(&self) -> (r: usize)
        ensures
            self.list_len_is(r as nat),
    {
        match self.current_view {
            ViewMode::Overview => 0,
            ViewMode::Policies => self.snapshot.policy_groups.len(),
            ViewMode::Dns => count_dns_matches(&self.snapshot.dns_cache, self.search_query.as_str()),
            _ => {
                if self.grouped_mode {
                    self.get_grouped_request_count(self.search_query.as_str())
                } else {
                    let requests = if self.current_view == ViewMode::ActiveConnections {
                        &self.snapshot.active_connections
                    } else {
                        &self.snapshot.recent_requests
                    };
                    let filtered = filter_requests(
                        requests,
                        self.search_query.as_str(),
                        true,
                        None,
                    );
                    if filtered.len() < MAX_LISTED {
                        filtered.len()
                    } else {
                        MAX_LISTED
                    }
                }
            },
        }
    }
}

impl App {
    /// Takes a fresh snapshot: lays the latency cache over its policy list,
    /// keeps the cursor inside the new list, and clears a finished test's
    /// status.
    pub fn apply_snapshot<T: Translate>(&mut self, snapshot: AppSnapshot, t: &T)
        requires
            old(self).wf(),
        ensures
            final(self).wf(),
            final(self).snapshot.policies@ == crate::policies::overlay_policies(
                snapshot.policies@,
                old(self).policy_test_cache.entries@,
            ),
            final(self).snapshot.policy_groups == snapshot.policy_groups,
            final(self).snapshot.recent_requests == snapshot.recent_requests,
            final(self).snapshot.active_connections == snapshot.active_connections,
            final(self).snapshot.dns_cache == snapshot.dns_cache,
            final(self).snapshot.alerts == snapshot.alerts,
            final(self).snapshot.surge_running == snapshot.surge_running,
            final(self).snapshot.http_api_available == snapshot.http_api_available,
            final(self).snapshot.outbound_mode == snapshot.outbound_mode,
            final(self).snapshot.mitm_enabled == snapshot.mitm_enabled,
            final(self).snapshot.capture_enabled == snapshot.capture_enabled,
            final(self).policy_test_cache == old(self).policy_test_cache,
            final(self).current_view == old(self).current_view,
            exists|n: nat|
                final(self).list_len_is(n) && final(self).selected_index == (if n > 0
                    && old(self).selected_index >= n {
                    (n - 1) as usize
                } else {
                    old(self).selected_index
                }),
            final(self).testing_policy_group is None || final(self).testing_policy_group == old(self).testing_policy_group,
    {
        let finished = match &self.testing_policy_group {
            Some(status) => !str_eq(status.as_str(), t.policy_testing()),
            None => false,
        };
        if finished {
            self.testing_policy_group = None;
        }
        self.snapshot = snapshot;
        self.policy_test_cache.overlay(&mut self.snapshot);
        let max_index = self.get_current_list_len();
        let ghost n = max_index as nat;
        let ghost before = *self;
        if max_index > 0 && self.selected_index >= max_index {
            self.selected_index = max_index - 1;
        }
        proof {
            if self.current_view != ViewMode::Overview && self.current_view != ViewMode::Policies
                && self.current_view != ViewMode::Dns && self.grouped_mode {
                let parts = choose|parts: Seq<(String, usize)>|
                    #![trigger is_app_partition(before.view_requests(), parts)]
                    is_app_partition(before.view_requests(), parts) && is_sorted_partition(parts)
                        && n == (if before.grouped_app_index < parts.len() {
                        min_listed(
                            kept_indices(
                                before.view_requests(),
                                before.search_query@,
                                false,
                                Some(parts[before.grouped_app_index as int].0@),
                            ).len(),
                        )
                    } else {
                        0
                    });
                assert(is_app_partition(self.view_requests(), parts));
            }
        }
        assert(self.list_len_is(n));
    }

    /// Handles one message of a background latency test. A completed test
    /// records its results in the cache, shows them as the policy list, and
    /// marks the group's members that are alive as available.
    pub fn handle_test_message<T: Translate>(&mut self, msg: TestMessage, t: &T)
        requires
            old(self).wf(),
        ensures
            final(self).wf(),
            final(self).notifications@.len() == (if old(self).notifications@.len()
                < MAX_NOTIFICATIONS {
                old(self).notifications@.len() + 1
            } else {
                MAX_NOTIFICATIONS as nat
            }),
            msg is Started ==> final(self).testing_policy_group is Some
                && final(self).notifications@.last().level == NotificationLevel::Info
                && final(self).policy_test_cache == old(self).policy_test_cache
                && final(self).snapshot == old(self).snapshot,
            msg is Failed ==> final(self).testing_policy_group is None
                && final(self).notifications@.last().level == NotificationLevel::Error
                && final(self).policy_test_cache == old(self).policy_test_cache
                && final(self).snapshot == old(self).snapshot,
            msg matches TestMessage::Completed { group_name, results } ==> {
                &&& final(self).testing_policy_group is None
                &&& final(self).notifications@.last().level == NotificationLevel::Success
                &&& final(self).policy_test_cache.entries@ == crate::policies::cache_record(
                    old(self).policy_test_cache.entries@,
                    results@,
                )
                &&& final(self).snapshot.policies@ == results@
                &&& final(self).snapshot.policy_groups@.len() == old(self).snapshot.policy_groups@.len()
                &&& match group_pos(old(self).snapshot.policy_groups@, group_name@) {
                    Some(p) => {
                        &&& final(self).snapshot.policy_groups@[p].available_policies matches Some(
                            v,
                        ) && crate::policies::string_views(v@) == available_from(
                            results@,
                            old(self).snapshot.policy_groups@[p].policies@,
                        )
                        &&& final(self).snapshot.policy_groups@[p].name == old(self).snapshot.policy_groups@[p].name
                        &&& final(self).snapshot.policy_groups@[p].policies == old(self).snapshot.policy_groups@[p].policies
                        &&& final(self).snapshot.policy_groups@[p].selected == old(self).snapshot.policy_groups@[p].selected
                        &&& forall|k: int|
                            0 <= k < final(self).snapshot.policy_groups@.len() && k != p
                                ==> #[trigger] final(self).snapshot.policy_groups@[k] == old(self).snapshot.policy_groups@[k]
                    },
                    None => final(self).snapshot.policy_groups == old(self).snapshot.policy_groups,
                }
            },
    {
        match msg {
            TestMessage::Started => {
                self.testing_policy_group = Some(String::from_str(t.policy_testing()));
                self.add_notification(
                    Notification::info(String::from_str(t.notification_test_started())),
                );
                if self.devtools_logs.len() <= MAX_DEVTOOLS_LOGS {
                    self.add_devtools_log(
                        LogLevel::Info,
                        String::from_str(t.notification_test_started()),
                    );
                }
            },
            TestMessage::Completed { group_name, results } => {
                let mut alive_count: usize = 0;
                let mut i: usize = 0;
                while i < results.len()
                    invariant
                        i <= results@.len(),
                        alive_count <= i,
                    decreases results@.len() - i,
                {
                    if results[i].alive {
                        alive_count += 1;
                    }
                    i += 1;
                }
                self.policy_test_cache.record(&results);
                let mut log = String::from_str("Test results cached: ");
                push_decimal(&mut log, results.len() as u64);
                log.append(" policies (total cache: ");
                push_decimal(&mut log, self.policy_test_cache.len() as u64);
                log.append(")");
                self.add_devtools_log(LogLevel::Info, log);
                let found = find_group(&self.snapshot.policy_groups, group_name.as_str());
                match found {
                    Some(p) => {
                        let available = available_policies(
                            &results,
                            &self.snapshot.policy_groups[p].policies,
                        );
                        let mut log2 = String::from_str("Name matching: group has ");
                        push_decimal(
                            &mut log2,
                            self.snapshot.policy_groups[p].policies.len() as u64,
                        );
                        log2.append(" policies, matched ");
                        push_decimal(&mut log2, available.len() as u64);
                        log2.append(" available in results");
                        self.add_devtools_log(LogLevel::Info, log2);
                        self.snapshot.policy_groups[p].available_policies = Some(available);
                    },
                    None => {},
                }
                let total = results.len();
                self.snapshot.policies = results;
                self.testing_policy_group = None;
                self.add_notification(
                    Notification::success(t.notification_test_completed(alive_count, total)),
                );
            },
            TestMessage::Failed { error } => {
                self.add_devtools_log(LogLevel::Error, t.notification_test_failed(error.as_str()));
                self.testing_policy_group = None;
                self.add_notification(
                    Notification::error(t.notification_test_failed(error.as_str())),
                );
            },
        }
    }
}

/// Whether the loop refreshes the snapshot after `action` ended with `ok`.
pub open spec fn needs_refresh(action: KeyAction, ok: bool) -> bool {
    match action {
        KeyAction::Nothing | KeyAction::StartTest { .. } => false,
        KeyAction::KillConnection(_) | KeyAction::FlushDns | KeyAction::SetOutboundMode(_)
        | KeyAction::SetMitm(_) | KeyAction::SetCapture(_) => ok,
        _ => true,
    }
}

/// Whether the outcome of `action` is reported as a notification.
pub open spec fn notifies(action: KeyAction) -> bool {
    match action {
        KeyAction::KillConnection(_) | KeyAction::FlushDns | KeyAction::SetMitm(_)
        | KeyAction::SetCapture(_) => true,
        _ => false,
    }
}

/// What a key does when no confirmation, dialog or search takes it.
pub open spec fn shortcut_ok(o: App, n: App, key: Key, r: KeyAction) -> bool {
    let request_view = o.current_view == ViewMode::Requests || o.current_view
        == ViewMode::ActiveConnections;
    &&& key == Key::Char('q') ==> n.should_quit && r == KeyAction::Nothing
    &&& key == Key::Char('/') && App::searchable(o.current_view) ==> {
        &&& n.search_mode
        &&& o.in_policy_detail() ==> n.policy_detail_search@.len() == 0 && n.search_query
            == o.search_query
        &&& !o.in_policy_detail() ==> n.search_query@.len() == 0 && n.policy_detail_search
            == o.policy_detail_search
    }
    &&& (key == Key::Esc || key == Key::Backspace) ==> r == KeyAction::Nothing && if o.policy_detail_search@.len() > 0 {
        n.policy_detail_search@.len() == 0 && n.selected_index == 0
    } else if o.search_query@.len() > 0 {
        n.search_query@.len() == 0 && n.selected_index == 0
    } else if o.in_policy_detail() {
        n.policy_detail_index is None && !n.should_quit == !o.should_quit
    } else {
        n.should_quit
    }
    &&& (key == Key::Char('n') || key == Key::Char('N')) ==> n.show_notification_history
        == !o.show_notification_history
    &&& (key == Key::Char('`') || key == Key::Char('~')) ==> n.show_devtools == !o.show_devtools
    &&& key == Key::Char('?') ==> n.show_help == !o.show_help
    &&& key == Key::Char('1') ==> n.current_view == ViewMode::Overview && n.selected_index == 0
        && n.policy_detail_index is None
    &&& key == Key::Char('2') ==> n.current_view == ViewMode::Policies && n.selected_index == 0
        && n.policy_detail_index is None
    &&& key == Key::Char('3') ==> n.current_view == ViewMode::Requests && n.selected_index == 0
        && n.policy_detail_index is None
    &&& key == Key::Char('4') ==> n.current_view == ViewMode::ActiveConnections && n.selected_index
        == 0 && n.policy_detail_index is None
    &&& key == Key::Char('5') ==> n.current_view == ViewMode::Dns && n.selected_index == 0
        && n.policy_detail_index is None
    &&& (key == Key::Char('g') || key == Key::Char('G')) ==> if request_view {
        n.grouped_mode == !o.grouped_mode && n.selected_index == 0 && n.grouped_app_index == 0
    } else {
        n.grouped_mode == o.grouped_mode
    }
    &&& (key == Key::Char('k') || key == Key::Char('K')) ==> {
        &&& r == KeyAction::Nothing
        &&& o.current_view != ViewMode::ActiveConnections ==> n.show_kill_confirm is None
        &&& n.show_kill_confirm matches Some(id) ==> exists|k: int|
            0 <= k < o.snapshot.active_connections@.len()
                && #[trigger] o.snapshot.active_connections@[k].id == id
    }
    &&& key == Key::Up ==> r == KeyAction::Nothing && if o.current_view == ViewMode::Policies
        && o.policy_detail_index is Some {
        let p = o.policy_detail_index->0;
        n.policy_detail_index == Some(if p > 0 { (p - 1) as usize } else { p })
            && n.selected_index == o.selected_index
    } else {
        n.selected_index == (if o.selected_index > 0 {
            (o.selected_index - 1) as usize
        } else {
            o.selected_index
        })
    }
    &&& (key == Key::Down || key == Key::Char('j')) && !(o.current_view == ViewMode::Policies
        && o.policy_detail_index is Some) ==> exists|len: nat|
        o.list_len_is(len) && n.selected_index == (if len > 0 && o.selected_index + 1 < len {
            (o.selected_index + 1) as usize
        } else {
            o.selected_index
        })
    &&& key == Key::Enter && o.current_view == ViewMode::Policies && o.selected_index
        < o.snapshot.policy_groups@.len() ==> {
        let g = o.snapshot.policy_groups@[o.selected_index as int];
        match o.policy_detail_index {
            Some(p) => if p < g.policies@.len() {
                r == KeyAction::SelectPolicy { group: g.name, policy: g.policies@[p as int].name }
                    && n.policy_detail_index is None
            } else {
                r == KeyAction::Nothing
            },
            None => r == KeyAction::Nothing && (g.policies@.len() > 0 ==> (n.policy_detail_index
                matches Some(i) && i < g.policies@.len() && (i > 0 ==> (g.selected matches Some(
                cur) && g.policies@[i as int].name@ == cur@)))),
        }
    }
    &&& (key == Key::Char('t') || key == Key::Char('T')) ==> if o.current_view == ViewMode::Policies
        && o.selected_index < o.snapshot.policy_groups@.len() && o.testing_policy_group is None {
        r == KeyAction::StartTest { group: o.snapshot.policy_groups@[o.selected_index as int].name }
    } else {
        r == KeyAction::Nothing
    }
    &&& (key == Key::Char('m') || key == Key::Char('M')) ==> r == (match o.snapshot.outbound_mode {
        Some(m) => KeyAction::SetOutboundMode(m.spec_next()),
        None => KeyAction::Nothing,
    })
    &&& (key == Key::Char('f') || key == Key::Char('F')) ==> r == (if o.current_view == ViewMode::Dns
        && o.snapshot.http_api_available {
        KeyAction::FlushDns
    } else {
        KeyAction::Nothing
    })
    &&& (key == Key::Char('i') || key == Key::Char('I')) ==> r == (if o.current_view
        == ViewMode::Overview && o.snapshot.http_api_available && o.snapshot.mitm_enabled is Some {
        KeyAction::SetMitm(!o.snapshot.mitm_enabled->0)
    } else {
        KeyAction::Nothing
    })
    &&& (key == Key::Char('c') || key == Key::Char('C')) ==> r == (if o.current_view
        == ViewMode::Overview && o.snapshot.http_api_available && o.snapshot.capture_enabled is Some {
        KeyAction::SetCapture(!o.snapshot.capture_enabled->0)
    } else {
        KeyAction::Nothing
    })
    &&& (key == Key::Char('s') || key == Key::Char('S')) ==> r == (if o.snapshot.alerts@.len() > 0
        && o.snapshot.alerts@[0].action == crate::entities::AlertAction::StartSurge {
        KeyAction::StartSurge
    } else {
        KeyAction::Nothing
    })
    &&& (key == Key::Char('r') || key == Key::Char('R')) ==> r == (if o.snapshot.alerts@.len() > 0
        && o.snapshot.alerts@[0].action == crate::entities::AlertAction::ReloadConfig {
        KeyAction::ReloadConfig
    } else {
        KeyAction::Refresh
    })
    &&& (key == Key::Left || key == Key::Char('h')) ==> n.grouped_app_index == (if o.grouped_mode
        && request_view && o.grouped_app_index > 0 {
        (o.grouped_app_index - 1) as usize
    } else {
        o.grouped_app_index
    })
    &&& (key == Key::Left || key == Key::Char('h') || key == Key::Right || key == Key::Char('l'))
        ==> n.grouped_app_index != o.grouped_app_index ==> n.selected_index == 0
    &&& (key == Key::Right || key == Key::Char('l')) && !(o.grouped_mode && request_view)
        ==> n.grouped_app_index == o.grouped_app_index
    &&& n.snapshot == o.snapshot
    &&& n.policy_test_cache == o.policy_test_cache
    &&& n.notifications == o.notifications
    &&& n.devtools_logs == o.devtools_logs
}

/// The id of the entry under the cursor in the filtered list `kept`
/// (positions into `reqs`); the cursor is held to the last entry.
pub open spec fn cursor_entry(reqs: Seq<Request>, kept: Seq<int>, cursor: usize) -> Option<u64> {
    if kept.len() == 0 {
        None
    } else {
        let k = if cursor < kept.len() - 1 {
            cursor as int
        } else {
            kept.len() - 1
        };
        Some(reqs[kept[k]].id)
    }
}

impl App {
    /// Inside a policy group of the policy view.
    pub open spec fn in_policy_detail(&self) -> bool {
        self.current_view == ViewMode::Policies && self.policy_detail_index is Some
    }

    /// A help, notification-history or developer-log dialog is open.
    pub open spec fn modal_open(&self) -> bool {
        self.show_help || self.show_notification_history || self.show_devtools
    }

    /// Views that offer search.
    pub open spec fn searchable(view: ViewMode) -> bool {
        view != ViewMode::Overview
    }

    /// The connection the kill shortcut points at: the cursor's entry of the
    /// (filtered, and in grouped mode the selected application's) list.
    pub fn selected_connection(&self) -> (r: Option<u64>)
        ensures
            r matches Some(id) ==> exists|k: int|
                0 <= k < self.snapshot.active_connections@.len()
                    && #[trigger] self.snapshot.active_connections@[k].id == id,
            !self.grouped_mode ==> r == cursor_entry(
                self.snapshot.active_connections@,
                kept_indices(self.snapshot.active_connections@, self.search_query@, true, None),
                self.selected_index,
            ),
            self.grouped_mode ==> exists|parts: Seq<(String, usize)>|
                #![trigger is_app_partition(self.snapshot.active_connections@, parts)]
                is_app_partition(self.snapshot.active_connections@, parts) && is_sorted_partition(
                    parts,
                ) && r == (if self.grouped_app_index < parts.len() {
                    cursor_entry(
                        self.snapshot.active_connections@,
                        kept_indices(
                            self.snapshot.active_connections@,
                            self.search_query@,
                            false,
                            Some(parts[self.grouped_app_index as int].0@),
                        ),
                        self.selected_index,
                    )
                } else {
                    None
                }),
    {
        let connections = &self.snapshot.active_connections;
        let filtered = if self.grouped_mode {
            let apps = group_requests_by_app(connections);
            if self.grouped_app_index >= apps.len() {
                return None;
            }
            let f = filter_requests(
                connections,
                self.search_query.as_str(),
                false,
                Some(apps[self.grouped_app_index].0.as_str()),
            );
            assert(is_app_partition(connections@, apps@));
            f
        } else {
            filter_requests(connections, self.search_query.as_str(), true, None)
        };
        if filtered.len() == 0 {
            return None;
        }
        let k = if self.selected_index < filtered.len() - 1 {
            self.selected_index
        } else {
            filtered.len() - 1
        };
        let idx = filtered[k];
        assert(crate::requests::index_views(filtered@)[k as int] == idx as int);
        Some(connections[idx].id)
    }

    /// Handles one key. A kill confirmation takes every key first, then an
    /// open dialog, then search input; only then do the view's shortcuts
    /// apply. Returns the outside work the key asks for.
    pub fn handle_key(&mut self, key: Key) -> (r: KeyAction)
        requires
            old(self).wf(),
        ensures
            final(self).wf(),
            old(self).show_kill_confirm matches Some(id) ==> {
                &&& key == Key::Enter ==> r == KeyAction::KillConnection(id) && *final(self) == (App {
                    show_kill_confirm: None,
                    ..*old(self)
                })
                &&& key == Key::Esc ==> r == KeyAction::Nothing && *final(self) == (App {
                    show_kill_confirm: None,
                    ..*old(self)
                })
                &&& key != Key::Enter && key != Key::Esc ==> r == KeyAction::Nothing && *final(self) == *old(self)
            },
            old(self).show_kill_confirm is None && old(self).modal_open() ==> {
                &&& r == KeyAction::Nothing
                &&& (key == Key::Esc || key == Key::Char('q')) ==> *final(self) == (if old(self).show_help {
                    App { show_help: false, ..*old(self) }
                } else if old(self).show_notification_history {
                    App { show_notification_history: false, ..*old(self) }
                } else {
                    App { show_devtools: false, ..*old(self) }
                })
                &&& !(key == Key::Esc || key == Key::Char('q')) ==> *final(self) == *old(self)
            },
            old(self).show_kill_confirm is None && !old(self).modal_open() && old(self).search_mode
                ==> {
                &&& r == KeyAction::Nothing
                &&& key matches Key::Char(c) ==> if old(self).in_policy_detail() {
                    *final(self) == (App {
                        policy_detail_search: final(self).policy_detail_search,
                        selected_index: 0,
                        ..*old(self)
                    }) && final(self).policy_detail_search@ == old(self).policy_detail_search@.push(c)
                } else {
                    *final(self) == (App {
                        search_query: final(self).search_query,
                        selected_index: 0,
                        ..*old(self)
                    }) && final(self).search_query@ == old(self).search_query@.push(c)
                }
                &&& key == Key::Backspace ==> if old(self).in_policy_detail() {
                    *final(self) == (App {
                        policy_detail_search: final(self).policy_detail_search,
                        selected_index: 0,
                        ..*old(self)
                    }) && final(self).policy_detail_search@ == (if old(self).policy_detail_search@.len() > 0 {
                        old(self).policy_detail_search@.drop_last()
                    } else {
                        old(self).policy_detail_search@
                    })
                } else {
                    *final(self) == (App {
                        search_query: final(self).search_query,
                        selected_index: 0,
                        ..*old(self)
                    }) && final(self).search_query@ == (if old(self).search_query@.len() > 0 {
                        old(self).search_query@.drop_last()
                    } else {
                        old(self).search_query@
                    })
                }
                &&& key == Key::Esc ==> if old(self).in_policy_detail() {
                    *final(self) == (App {
                        policy_detail_search: final(self).policy_detail_search,
                        selected_index: 0,
                        search_mode: false,
                        ..*old(self)
                    }) && final(self).policy_detail_search@.len() == 0
                } else {
                    *final(self) == (App {
                        search_query: final(self).search_query,
                        selected_index: 0,
                        search_mode: false,
                        ..*old(self)
                    }) && final(self).search_query@.len() == 0
                }
                &&& key == Key::Enter ==> *final(self) == (App { search_mode: false, ..*old(self) })
                &&& (key is Other || key is Up || key is Down || key is Left || key is Right)
                    ==> *final(self) == *old(self)
            },
            old(self).show_kill_confirm is None && !old(self).modal_open() && !old(self).search_mode
                ==> shortcut_ok(*old(self), *final(self), key, r),
    {
        if let Some(connection_id) = self.show_kill_confirm {
            match key {
                Key::Enter => {
                    self.show_kill_confirm = None;
                    return KeyAction::KillConnection(connection_id);
                },
                Key::Esc => {
                    self.show_kill_confirm = None;
                    return KeyAction::Nothing;
                },
                _ => {
                    return KeyAction::Nothing;
                },
            }
        }
        if self.show_help || self.show_notification_history || self.show_devtools {
            if key == Key::Esc || key == Key::Char('q') {
                if self.show_help {
                    self.show_help = false;
                } else if self.show_notification_history {
                    self.show_notification_history = false;
                } else if self.show_devtools {
                    self.show_devtools = false;
                }
            }
            return KeyAction::Nothing;
        }
        let in_detail = self.current_view == ViewMode::Policies
            && self.policy_detail_index.is_some();
        if self.search_mode {
            match key {
                Key::Char(c) => {
                    if in_detail {
                        push_char(&mut self.policy_detail_search, c);
                    } else {
                        push_char(&mut self.search_query, c);
                    }
                    self.selected_index = 0;
                },
                Key::Backspace => {
                    if in_detail {
                        pop_char(&mut self.policy_detail_search);
                    } else {
                        pop_char(&mut self.search_query);
                    }
                    self.selected_index = 0;
                },
                Key::Esc => {
                    self.search_mode = false;
                    if in_detail {
                        self.policy_detail_search = String::new();
                    } else {
                        self.search_query = String::new();
                    }
                    self.selected_index = 0;
                },
                Key::Enter => {
                    self.search_mode = false;
                },
                _ => {},
            }
            return KeyAction::Nothing;
        }
        self.handle_shortcut(key, in_detail)
    }

    /// The view's shortcuts, when no dialog or search takes the key.
    fn handle_shortcut(&mut self, key: Key, in_detail: bool) -> (r: KeyAction)
        requires
            old(self).wf(),
            old(self).show_kill_confirm is None,
            !old(self).modal_open(),
            !old(self).search_mode,
            in_detail == old(self).in_policy_detail(),
        ensures
            final(self).wf(),
            shortcut_ok(*old(self), *final(self), key, r),
    {
        let view = self.current_view;
        let request_view = view == ViewMode::Requests || view == ViewMode::ActiveConnections;
        match key {
            Key::Char('/') => {
                if view != ViewMode::Overview {
                    self.search_mode = true;
                    if in_detail {
                        self.policy_detail_search = String::new();
                    } else {
                        self.search_query = String::new();
                    }
                }
                KeyAction::Nothing
            },
            Key::Char('q') => {
                self.should_quit = true;
                KeyAction::Nothing
            },
            Key::Esc | Key::Backspace => {
                if self.policy_detail_search.as_str().unicode_len() > 0 {
                    self.policy_detail_search = String::new();
                    self.selected_index = 0;
                } else if self.search_query.as_str().unicode_len() > 0 {
                    self.search_query = String::new();
                    self.selected_index = 0;
                } else if in_detail {
                    self.policy_detail_index = None;
                } else {
                    self.should_quit = true;
                }
                KeyAction::Nothing
            },
            Key::Char('n') | Key::Char('N') => {
                self.show_notification_history = !self.show_notification_history;
                KeyAction::Nothing
            },
            Key::Char('`') | Key::Char('~') => {
                self.show_devtools = !self.show_devtools;
                KeyAction::Nothing
            },
            Key::Char('?') => {
                self.show_help = !self.show_help;
                KeyAction::Nothing
            },
            Key::Char('1') | Key::Char('2') | Key::Char('3') | Key::Char('4') | Key::Char('5') => {
                self.current_view = match key {
                    Key::Char('1') => ViewMode::Overview,
                    Key::Char('2') => ViewMode::Policies,
                    Key::Char('3') => ViewMode::Requests,
                    Key::Char('4') => ViewMode::ActiveConnections,
                    _ => ViewMode::Dns,
                };
                self.selected_index = 0;
                self.policy_detail_index = None;
                KeyAction::Nothing
            },
            Key::Char('g') | Key::Char('G') => {
                if request_view {
                    self.grouped_mode = !self.grouped_mode;
                    self.selected_index = 0;
                    self.grouped_app_index = 0;
                }
                KeyAction::Nothing
            },
            Key::Char('k') | Key::Char('K') => {
                if view == ViewMode::ActiveConnections {
                    if let Some(id) = self.selected_connection() {
                        self.show_kill_confirm = Some(id);
                    }
                }
                KeyAction::Nothing
            },
            Key::Up => {
                match self.policy_detail_index {
                    Some(p) if view == ViewMode::Policies => {
                        if p > 0 {
                            self.policy_detail_index = Some(p - 1);
                        }
                    },
                    _ => {
                        if self.selected_index > 0 {
                            self.selected_index = self.selected_index - 1;
                        }
                    },
                }
                KeyAction::Nothing
            },
            Key::Down | Key::Char('j') => {
                match self.policy_detail_index {
                    Some(p) if view == ViewMode::Policies => {
                        if self.selected_index < self.snapshot.policy_groups.len() {
                            let n = self.snapshot.policy_groups[self.selected_index].policies.len();
                            if p < n && p + 1 < n {
                                self.policy_detail_index = Some(p + 1);
                            }
                        }
                    },
                    _ => {
                        let max_index = self.get_current_list_len();
                        if max_index > 0 && self.selected_index < max_index - 1 {
                            self.selected_index = self.selected_index + 1;
                        }
                    },
                }
                KeyAction::Nothing
            },
            Key::Left | Key::Char('h') => {
                if self.grouped_mode && request_view && self.grouped_app_index > 0 {
                    self.grouped_app_index = self.grouped_app_index - 1;
                    self.selected_index = 0;
                }
                KeyAction::Nothing
            },
            Key::Right | Key::Char('l') => {
                if self.grouped_mode && request_view {
                    let max_app_index = self.get_grouped_app_count();
                    if max_app_index > 0 && self.grouped_app_index < max_app_index - 1 {
                        self.grouped_app_index = self.grouped_app_index + 1;
                        self.selected_index = 0;
                    }
                }
                KeyAction::Nothing
            },
            Key::Enter => {
                if view != ViewMode::Policies || self.selected_index
                    >= self.snapshot.policy_groups.len() {
                    return KeyAction::Nothing;
                }
                let g = self.selected_index;
                match self.policy_detail_index {
                    Some(p) => {
                        if p < self.snapshot.policy_groups[g].policies.len() {
                            let group = self.snapshot.policy_groups[g].name.clone();
                            let policy = self.snapshot.policy_groups[g].policies[p].name.clone();
                            self.policy_detail_index = None;
                            KeyAction::SelectPolicy { group, policy }
                        } else {
                            KeyAction::Nothing
                        }
                    },
                    None => {
                        if self.snapshot.policy_groups[g].policies.len() > 0 {
                            let initial = match &self.snapshot.policy_groups[g].selected {
                                Some(current) => {
                                    let mut i: usize = 0;
                                    let mut found: usize = 0;
                                    let n = self.snapshot.policy_groups[g].policies.len();
                                    while i < n
                                        invariant
                                            i <= n,
                                            g < self.snapshot.policy_groups@.len(),
                                            n == self.snapshot.policy_groups@[g as int].policies@.len(),
                                            found < n,
                                            found == 0 || self.snapshot.policy_groups@[g as int].policies@[found as int].name@
                                                == current@,
                                        decreases n - i,
                                    {
                                        if str_eq(
                                            self.snapshot.policy_groups[g].policies[i].name.as_str(),
                                            current.as_str(),
                                        ) {
                                            found = i;
                                            break;
                                        }
                                        i += 1;
                                    }
                                    found
                                },
                                None => 0,
                            };
                            self.policy_detail_index = Some(initial);
                        }
                        KeyAction::Nothing
                    },
                }
            },
            Key::Char('t') | Key::Char('T') => {
                // a test already in flight rejects a second one
                if view == ViewMode::Policies && self.selected_index
                    < self.snapshot.policy_groups.len() && self.testing_policy_group.is_none() {
                    KeyAction::StartTest {
                        group: self.snapshot.policy_groups[self.selected_index].name.clone(),
                    }
                } else {
                    KeyAction::Nothing
                }
            },
            Key::Char('f') | Key::Char('F') => {
                if view == ViewMode::Dns && self.snapshot.http_api_available {
                    KeyAction::FlushDns
                } else {
                    KeyAction::Nothing
                }
            },
            Key::Char('m') | Key::Char('M') => {
                match self.snapshot.outbound_mode {
                    Some(m) => KeyAction::SetOutboundMode(m.next()),
                    None => KeyAction::Nothing,
                }
            },
            Key::Char('i') | Key::Char('I') => {
                if view == ViewMode::Overview && self.snapshot.http_api_available {
                    match self.snapshot.mitm_enabled {
                        Some(b) => KeyAction::SetMitm(!b),
                        None => KeyAction::Nothing,
                    }
                } else {
                    KeyAction::Nothing
                }
            },
            Key::Char('c') | Key::Char('C') => {
                if view == ViewMode::Overview && self.snapshot.http_api_available {
                    match self.snapshot.capture_enabled {
                        Some(b) => KeyAction::SetCapture(!b),
                        None => KeyAction::Nothing,
                    }
                } else {
                    KeyAction::Nothing
                }
            },
            Key::Char('s') | Key::Char('S') => {
                if self.snapshot.alerts.len() > 0 && self.snapshot.alerts[0].action
                    == crate::entities::AlertAction::StartSurge {
                    KeyAction::StartSurge
                } else {
                    KeyAction::Nothing
                }
            },
            Key::Char('r') | Key::Char('R') => {
                if self.snapshot.alerts.len() > 0 && self.snapshot.alerts[0].action
                    == crate::entities::AlertAction::ReloadConfig {
                    KeyAction::ReloadConfig
                } else {
                    KeyAction::Refresh
                }
            },
            _ => KeyAction::Nothing,
        }
    }

    /// Reports the outcome of the work a key asked for, and says whether
    /// the loop refreshes the snapshot next.
    pub fn on_action_done<T: Translate>(
        &mut self,
        action: &KeyAction,
        result: Result<(), SurgeError>,
        t: &T,
    ) -> (refresh: bool)
        requires
            old(self).wf(),
        ensures
            final(self).wf(),
            refresh == needs_refresh(*action, result is Ok),
            notifies(*action) ==> final(self).notifications@.len() == (if old(self).notifications@.len() < MAX_NOTIFICATIONS {
                old(self).notifications@.len() + 1
            } else {
                MAX_NOTIFICATIONS as nat
            }) && final(self).notifications@.last().level == (if result is Ok {
                NotificationLevel::Success
            } else {
                NotificationLevel::Error
            }),
            !notifies(*action) ==> final(self).notifications == old(self).notifications,
            final(self).snapshot == old(self).snapshot,
            final(self).policy_test_cache == old(self).policy_test_cache,
    {
        match action {
            KeyAction::KillConnection(_) => match result {
                Ok(()) => {
                    self.add_notification(
                        Notification::success(String::from_str(t.notification_connection_killed())),
                    );
                    true
                },
                Err(e) => {
                    let m = e.message();
                    self.add_notification(Notification::error(t.notification_kill_failed(m.as_str())));
                    false
                },
            },
            KeyAction::FlushDns => match result {
                Ok(()) => {
                    self.add_notification(
                        Notification::success(String::from_str(t.notification_dns_flushed())),
                    );
                    true
                },
                Err(e) => {
                    let m = e.message();
                    self.add_notification(
                        Notification::error(t.notification_dns_flush_failed(m.as_str())),
                    );
                    false
                },
            },
            KeyAction::SetMitm(enabled) => match result {
                Ok(()) => {
                    let msg = if *enabled {
                        t.notification_mitm_enabled()
                    } else {
                        t.notification_mitm_disabled()
                    };
                    self.add_notification(Notification::success(String::from_str(msg)));
                    true
                },
                Err(e) => {
                    let m = e.message();
                    self.add_notification(
                        Notification::error(t.notification_feature_toggle_failed(m.as_str())),
                    );
                    false
                },
            },
            KeyAction::SetCapture(enabled) => match result {
                Ok(()) => {
                    let msg = if *enabled {
                        t.notification_capture_enabled()
                    } else {
                        t.notification_capture_disabled()
                    };
                    self.add_notification(Notification::success(String::from_str(msg)));
                    true
                },
                Err(e) => {
                    let m = e.message();
                    self.add_notification(
                        Notification::error(t.notification_feature_toggle_failed(m.as_str())),
                    );
                    false
                },
            },
            KeyAction::SetOutboundMode(_) => result.is_ok(),
            KeyAction::Nothing | KeyAction::StartTest { .. } => false,
            _ => true,
        }
    }
}

} // verus!
