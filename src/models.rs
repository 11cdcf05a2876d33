//! Records exchanged with the proxy service's control surfaces.
use vstd::prelude::*;
use vstd::string::*;

verus! {

/// How the service routes outbound traffic.
#[derive(Debug, Clone, Copy, PartialEq, Eq, Structural)]
pub enum OutboundMode {
    /// Direct connection
    Direct,
    /// Proxy all
    Proxy,
    /// Rule mode
    Rule,
}

impl OutboundMode {
    /// The mode after this one in the cycle Direct, Proxy, Rule.
    pub open spec fn spec_next(self) -> OutboundMode {
        match self {
            OutboundMode::Direct => OutboundMode::Proxy,
            OutboundMode::Proxy => OutboundMode::Rule,
            OutboundMode::Rule => OutboundMode::Direct,
        }
    }

    pub fn next(&self) -> (r: OutboundMode)
        ensures
            r == self.spec_next(),
    {
        match self {
            OutboundMode::Direct => OutboundMode::Proxy,
            OutboundMode::Proxy => OutboundMode::Rule,
            OutboundMode::Rule => OutboundMode::Direct,
        }
    }
}

/// Outbound mode response
pub struct OutboundModeResponse {
    pub mode: OutboundMode,
}

/// Feature toggle status
pub struct FeatureStatus {
    pub enabled: bool,
}

/// Protocol or kind of a policy.
#[derive(Debug, Clone, Copy, PartialEq, Eq, Structural)]
pub enum PolicyType {
    Shadowsocks,
    Vmess,
    Trojan,
    Http,
    Socks5,
    Direct,
    Reject,
    Select,
    UrlTest,
    Fallback,
    LoadBalance,
    Unknown,
}

impl PolicyType {
    /// The label shown for a policy type.
    pub open spec fn label(self) -> Seq<char> {
        match self {
            PolicyType::Shadowsocks => "Shadowsocks"@,
            PolicyType::Vmess => "VMess"@,
            PolicyType::Trojan => "Trojan"@,
            PolicyType::Http => "HTTP"@,
            PolicyType::Socks5 => "SOCKS5"@,
            PolicyType::Direct => "Direct"@,
            PolicyType::Reject => "Reject"@,
            PolicyType::Select => "Select"@,
            PolicyType::UrlTest => "URL-Test"@,
            PolicyType::Fallback => "Fallback"@,
            PolicyType::LoadBalance => "Load-Balance"@,
            PolicyType::Unknown => "Unknown"@,
        }
    }

    pub fn as_str(&self) -> (r: &'static str)
        ensures
            r@ == self.label(),
    {
        match self {
            PolicyType::Shadowsocks => "Shadowsocks",
            PolicyType::Vmess => "VMess",
            PolicyType::Trojan => "Trojan",
            PolicyType::Http => "HTTP",
            PolicyType::Socks5 => "SOCKS5",
            PolicyType::Direct => "Direct",
            PolicyType::Reject => "Reject",
            PolicyType::Select => "Select",
            PolicyType::UrlTest => "URL-Test",
            PolicyType::Fallback => "Fallback",
            PolicyType::LoadBalance => "Load-Balance",
            PolicyType::Unknown => "Unknown",
        }
    }
}

/// Clones an optional string exactly.
pub fn clone_opt_string(s: &Option<String>) -> (r: Option<String>)
    ensures
        r == *s,
{
    match s {
        Some(v) => Some(v.clone()),
        None => None,
    }
}

/// Clones a vector of strings exactly.
pub fn clone_strings(v: &Vec<String>) -> (r: Vec<String>)
    ensures
        r@ == v@,
{
    let mut r: Vec<String> = Vec::new();
    let mut i: usize = 0;
    while i < v.len()
        invariant
            i <= v@.len(),
            r@ == v@.subrange(0, i as int),
        decreases v@.len() - i,
    {
        r.push(v[i].clone());
        i += 1;
        assert(r@ =~= v@.subrange(0, i as int));
    }
    assert(r@ =~= v@);
    r
}

/// Latency and liveness of one policy.
#[derive(Debug)]
pub struct PolicyDetail {
    pub name: String,
    pub policy_type: PolicyType,
    pub alive: bool,
    /// Round-trip time in milliseconds
    pub latency: Option<u32>,
    pub last_test_at: Option<String>,
}

impl Clone for PolicyDetail {
    fn clone(&self) -> (r: Self)
        ensures
            r == *self,
    {
        PolicyDetail {
            name: self.name.clone(),
            policy_type: self.policy_type,
            alive: self.alive,
            latency: self.latency,
            last_test_at: clone_opt_string(&self.last_test_at),
        }
    }
}

/// Policy list response: proxies and policy groups by name.
pub struct PoliciesResponse {
    pub proxies: Vec<String>,
    pub policy_groups: Vec<String>,
}

impl PoliciesResponse {
    /// All policy names: the proxies, then the groups.
    pub fn into_names(self) -> (r: Vec<String>)
        ensures
            r@ == self.proxies@ + self.policy_groups@,
    {
        let mut all = self.proxies;
        let mut groups = self.policy_groups;
        all.append(&mut groups);
        all
    }
}

/// One member of a policy group.
#[derive(Debug)]
pub struct PolicyItem {
    pub is_group: bool,
    pub name: String,
    pub type_description: String,
    pub line_hash: String,
    pub enabled: bool,
}

impl Clone for PolicyItem {
    fn clone(&self) -> (r: Self)
        ensures
            r == *self,
    {
        PolicyItem {
            is_group: self.is_group,
            name: self.name.clone(),
            type_description: self.type_description.clone(),
            line_hash: self.line_hash.clone(),
            enabled: self.enabled,
        }
    }
}

/// Clones a vector of policy items exactly.
pub fn clone_items(v: &Vec<PolicyItem>) -> (r: Vec<PolicyItem>)
    ensures
        r@ == v@,
{
    let mut r: Vec<PolicyItem> = Vec::new();
    let mut i: usize = 0;
    while i < v.len()
        invariant
            i <= v@.len(),
            r@ == v@.subrange(0, i as int),
        decreases v@.len() - i,
    {
        r.push(v[i].clone());
        i += 1;
        assert(r@ =~= v@.subrange(0, i as int));
    }
    assert(r@ =~= v@);
    r
}

/// A named selector over policies or other groups.
#[derive(Debug)]
pub struct PolicyGroup {
    pub name: String,
    pub policies: Vec<PolicyItem>,
    /// The member currently chosen, as the service reports it
    pub selected: Option<String>,
    /// Members found alive by the last latency test of this group
    pub available_policies: Option<Vec<String>>,
}

impl PolicyGroup {
    /// Same name, members, selection and available list.
    pub open spec fn equiv(self, o: PolicyGroup) -> bool {
        &&& self.name == o.name
        &&& self.policies@ == o.policies@
        &&& self.selected == o.selected
        &&& match (self.available_policies, o.available_policies) {
            (Some(a), Some(b)) => a@ == b@,
            (None, None) => true,
            _ => false,
        }
    }
}

impl Clone for PolicyGroup {
    fn clone(&self) -> (r: Self)
        ensures
            r.equiv(*self),
    {
        PolicyGroup {
            name: self.name.clone(),
            policies: clone_items(&self.policies),
            selected: clone_opt_string(&self.selected),
            available_policies: match &self.available_policies {
                Some(v) => Some(clone_strings(v)),
                None => None,
            },
        }
    }
}

/// Policy group selected policy response
pub struct PolicyGroupSelectResponse {
    pub policy: String,
}

/// A request or connection seen by the service.
#[derive(Debug, Clone)]
pub struct Request {
    pub id: u64,
    pub process_path: Option<String>,
    pub rule: Option<String>,
    pub policy_name: Option<String>,
    pub remote_host: Option<String>,
    pub url: Option<String>,
    pub method: Option<String>,
    pub status: Option<String>,
    /// Start time, milliseconds since the Unix epoch
    pub start_date_ms: Option<u64>,
    /// Downloaded bytes
    pub in_bytes: u64,
    /// Uploaded bytes
    pub out_bytes: u64,
    pub completed: bool,
    pub failed: bool,
    /// Connection log
    pub notes: Vec<String>,
    pub stream_has_request_body: bool,
    pub stream_has_response_body: bool,
}

/// Request list response
pub struct RequestsResponse {
    pub requests: Vec<Request>,
}

/// One DNS cache entry.
#[derive(Debug, Clone)]
pub struct DnsRecord {
    pub domain: String,
    pub ip: Vec<String>,
    /// Expiry time, milliseconds since the Unix epoch
    pub ttl_ms: Option<u64>,
    pub server: Option<String>,
    pub logs: Vec<String>,
    pub path: Option<String>,
    /// Lookup time in microseconds
    pub time_cost_us: Option<u64>,
}

/// DNS response
pub struct DnsResponse {
    pub records: Vec<DnsRecord>,
}

/// Profile information
pub struct ProfileInfo {
    pub name: String,
    pub content: Option<String>,
}

/// Traffic statistics, in bytes and bytes per second.
pub struct TrafficStats {
    pub upload: u64,
    pub download: u64,
    pub upload_speed: u64,
    pub download_speed: u64,
}

} // verus!
