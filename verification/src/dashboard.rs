//! The dashboard's figures: how servers are counted by state, how the
//! aggregator's state is read from its statistics, and which local
//! addresses are offered for the endpoint.
use vstd::prelude::*;
use crate::text::{str_eq, views};

verus! {

/// The state of the aggregating endpoint.
#[derive(Clone, Copy, Debug, PartialEq, Eq, Structural)]
pub enum AggregatorStatus {
    /// Serving.
    Running,
    /// Not serving.
    Stopped,
    /// Failed.
    Error,
}

/// What the dashboard reads of one configured server.
#[derive(Debug)]
pub struct ServiceSummary {
    /// Whether it is enabled.
    pub enabled: bool,
    /// Its displayed status.
    pub status: String,
    /// Its tool count, if known.
    pub tool_count: Option<usize>,
    /// Its resource count, if known.
    pub resource_count: Option<usize>,
    /// Its prompt count, if known.
    pub prompt_count: Option<usize>,
    /// Its prompt-template count, if known.
    pub prompt_template_count: Option<usize>,
}

/// An enabled server counts as healthy when connected or running.
pub open spec fn is_healthy(s: ServiceSummary) -> bool {
    s.enabled && (s.status@ == "connected"@ || s.status@ == "running"@)
}

/// An enabled server counts as failed when failed, disconnected or in
/// error.
pub open spec fn is_failed(s: ServiceSummary) -> bool {
    s.enabled && (s.status@ == "failed"@ || s.status@ == "disconnected"@ || s.status@ == "error"@)
}

/// How many servers satisfy `p`.
pub open spec fn count_where(s: Seq<ServiceSummary>, p: spec_fn(ServiceSummary) -> bool) -> nat
    decreases s.len(),
{
    if s.len() == 0 {
        0
    } else {
        count_where(s.drop_last(), p) + if p(s.last()) {
            1nat
        } else {
            0nat
        }
    }
}

/// The sum of a per-server figure, each taken to 32 bits as a cast does.
pub open spec fn sum_u32(s: Seq<ServiceSummary>, f: spec_fn(ServiceSummary) -> usize) -> nat
    decreases s.len(),
{
    if s.len() == 0 {
        0
    } else {
        sum_u32(s.drop_last(), f) + (f(s.last()) as u32) as nat
    }
}

/// A server's tool count (0 when unknown).
pub open spec fn tools_of(s: ServiceSummary) -> usize {
    match s.tool_count {
        Some(n) => n,
        None => 0,
    }
}

/// A server's resource count (0 when unknown).
pub open spec fn resources_of(s: ServiceSummary) -> usize {
    match s.resource_count {
        Some(n) => n,
        None => 0,
    }
}

/// A server's prompt count (0 when unknown).
pub open spec fn prompts_of(s: ServiceSummary) -> usize {
    match s.prompt_count {
        Some(n) => n,
        None => 0,
    }
}

/// A server's prompt-template count: its own, else its prompt count.
pub open spec fn templates_of(s: ServiceSummary) -> usize {
    match s.prompt_template_count {
        Some(n) => n,
        None => prompts_of(s),
    }
}

/// The server figures of the dashboard.
#[derive(Debug)]
pub struct ServiceCounts {
    /// Enabled servers.
    pub enabled: usize,
    /// Enabled servers that are connected or running.
    pub healthy: usize,
    /// Enabled servers that failed, are disconnected or in error.
    pub failed: usize,
    /// Tools over all servers.
    pub total_tools: u32,
    /// Resources over all servers.
    pub total_resources: u32,
    /// Prompts over all servers.
    pub total_prompts: u32,
    /// Prompt templates over all servers.
    pub total_prompt_templates: u32,
}

/// The totals fit in 32 bits, as the dashboard requires.
pub open spec fn totals_fit(s: Seq<ServiceSummary>) -> bool {
    &&& sum_u32(s, |x: ServiceSummary| tools_of(x)) <= u32::MAX
    &&& sum_u32(s, |x: ServiceSummary| resources_of(x)) <= u32::MAX
    &&& sum_u32(s, |x: ServiceSummary| prompts_of(x)) <= u32::MAX
    &&& sum_u32(s, |x: ServiceSummary| templates_of(x)) <= u32::MAX
}

proof fn lemma_sum_prefix(s: Seq<ServiceSummary>, f: spec_fn(ServiceSummary) -> usize, i: int)
    requires
        0 <= i <= s.len(),
    ensures
        sum_u32(s.take(i), f) <= sum_u32(s, f),
    decreases s.len() - i,
{
    if i < s.len() {
        lemma_sum_prefix(s, f, i + 1);
        assert(s.take(i + 1).drop_last() =~= s.take(i));
    } else {
        assert(s.take(i) =~= s);
    }
}

proof fn lemma_count_prefix(s: Seq<ServiceSummary>, p: spec_fn(ServiceSummary) -> bool, i: int)
    requires
        0 <= i <= s.len(),
    ensures
        count_where(s.take(i), p) <= i,
    decreases i,
{
    if i > 0 {
        assert(s.take(i).drop_last() =~= s.take(i - 1));
        lemma_count_prefix(s, p, i - 1);
    }
}

/// Counts servers by state and sums their figures.
pub fn count_services(services: &Vec<ServiceSummary>) -> (r: ServiceCounts)
    requires
        totals_fit(services@),
    ensures
        r.enabled == count_where(services@, |x: ServiceSummary| x.enabled),
        r.healthy == count_where(services@, |x: ServiceSummary| is_healthy(x)),
        r.failed == count_where(services@, |x: ServiceSummary| is_failed(x)),
        r.total_tools == sum_u32(services@, |x: ServiceSummary| tools_of(x)),
        r.total_resources == sum_u32(services@, |x: ServiceSummary| resources_of(x)),
        r.total_prompts == sum_u32(services@, |x: ServiceSummary| prompts_of(x)),
        r.total_prompt_templates == sum_u32(services@, |x: ServiceSummary| templates_of(x)),
{
    let ghost s = services@;
    let mut c = ServiceCounts {
        enabled: 0,
        healthy: 0,
        failed: 0,
        total_tools: 0,
        total_resources: 0,
        total_prompts: 0,
        total_prompt_templates: 0,
    };
    let mut i: usize = 0;
    while i < services.len()
        invariant
            s == services@,
            totals_fit(s),
            i <= s.len(),
            c.enabled == count_where(s.take(i as int), |x: ServiceSummary| x.enabled),
            c.healthy == count_where(s.take(i as int), |x: ServiceSummary| is_healthy(x)),
            c.failed == count_where(s.take(i as int), |x: ServiceSummary| is_failed(x)),
            c.total_tools == sum_u32(s.take(i as int), |x: ServiceSummary| tools_of(x)),
            c.total_resources == sum_u32(s.take(i as int), |x: ServiceSummary| resources_of(x)),
            c.total_prompts == sum_u32(s.take(i as int), |x: ServiceSummary| prompts_of(x)),
            c.total_prompt_templates == sum_u32(s.take(i as int), |x: ServiceSummary| templates_of(x)),
        decreases s.len() - i,
    {
        let x = &services[i];
        assert(s.take(i + 1).drop_last() =~= s.take(i as int));
        assert(s.take(i + 1).last() == *x);
        proof {
            lemma_sum_prefix(s, |x: ServiceSummary| tools_of(x), i + 1);
            lemma_sum_prefix(s, |x: ServiceSummary| resources_of(x), i + 1);
            lemma_sum_prefix(s, |x: ServiceSummary| prompts_of(x), i + 1);
            lemma_sum_prefix(s, |x: ServiceSummary| templates_of(x), i + 1);
            lemma_count_prefix(s, |x: ServiceSummary| x.enabled, i + 1);
            lemma_count_prefix(s, |x: ServiceSummary| is_healthy(x), i + 1);
            lemma_count_prefix(s, |x: ServiceSummary| is_failed(x), i + 1);
        }
        if x.enabled {
            c.enabled = c.enabled + 1;
        }
        let st = x.status.as_str();
        if x.enabled && (str_eq(st, "connected") || str_eq(st, "running")) {
            c.healthy = c.healthy + 1;
        }
        if x.enabled && (str_eq(st, "failed") || str_eq(st, "disconnected") || str_eq(st, "error")) {
            c.failed = c.failed + 1;
        }
        let t: usize = match x.tool_count {
            Some(n) => n,
            None => 0,
        };
        let rc: usize = match x.resource_count {
            Some(n) => n,
            None => 0,
        };
        let pc: usize = match x.prompt_count {
            Some(n) => n,
            None => 0,
        };
        let tc: usize = match x.prompt_template_count {
            Some(n) => n,
            None => pc,
        };
        c.total_tools = c.total_tools + t as u32;
        c.total_resources = c.total_resources + rc as u32;
        c.total_prompts = c.total_prompts + pc as u32;
        c.total_prompt_templates = c.total_prompt_templates + tc as u32;
        i += 1;
    }
    assert(s.take(s.len() as int) =~= s);
    c
}

/// The state the aggregator reports, from its statistics' `status` text
/// (when it has one) and connected-service count (when it has one).
pub open spec fn aggregator_status_of(initialized: bool, status: Option<Seq<char>>, connected: Option<u64>) -> AggregatorStatus {
    if !initialized {
        AggregatorStatus::Stopped
    } else {
        match status {
            Some(s) => if s == "running"@ || s == "active"@ {
                AggregatorStatus::Running
            } else if s == "stopped"@ || s == "inactive"@ {
                AggregatorStatus::Stopped
            } else if s == "error"@ || s == "failed"@ {
                AggregatorStatus::Error
            } else {
                count_status(connected)
            },
            None => count_status(connected),
        }
    }
}

/// Running when some service is connected, stopped otherwise.
pub open spec fn count_status(connected: Option<u64>) -> AggregatorStatus {
    match connected {
        Some(n) => if n > 0 {
            AggregatorStatus::Running
        } else {
            AggregatorStatus::Stopped
        },
        None => AggregatorStatus::Stopped,
    }
}

/// The state the aggregator reports.
pub fn aggregator_status(initialized: bool, status: Option<&str>, connected: Option<u64>) -> (r: AggregatorStatus)
    ensures
        r == aggregator_status_of(
            initialized,
            match status {
                Some(s) => Some(s@),
                None => None,
            },
            connected,
        ),
{
    let by_count = match connected {
        Some(n) => if n > 0 {
            AggregatorStatus::Running
        } else {
            AggregatorStatus::Stopped
        },
        None => AggregatorStatus::Stopped,
    };
    if !initialized {
        return AggregatorStatus::Stopped;
    }
    match status {
        Some(s) => if str_eq(s, "running") || str_eq(s, "active") {
            AggregatorStatus::Running
        } else if str_eq(s, "stopped") || str_eq(s, "inactive") {
            AggregatorStatus::Stopped
        } else if str_eq(s, "error") || str_eq(s, "failed") {
            AggregatorStatus::Error
        } else {
            by_count
        },
        None => by_count,
    }
}

/// The endpoint clients connect to.
pub fn aggregator_endpoint(host: &str, port: u16) -> (r: String)
    ensures
        r@ == "http://"@ + host@ + ":"@ + crate::text::decimal(port as nat) + "/mcp"@,
{
    let p = crate::text::usize_to_string(port as usize);
    let mut r = crate::text::concat3("http://", host, ":");
    crate::text::push_str(&mut r, p.as_str());
    crate::text::push_str(&mut r, "/mcp");
    r
}

/// A network interface's address, as the dashboard reads it.
#[derive(Debug)]
pub struct InterfaceAddress {
    /// The address in text.
    pub ip: String,
    /// Whether it is an IPv4 address.
    pub is_ipv4: bool,
    /// Whether it is a loopback address.
    pub is_loopback: bool,
}

/// The addresses offered for the endpoint: `localhost`, `127.0.0.1`,
/// `0.0.0.0`, then each non-loopback IPv4 address of the interfaces not
/// offered yet, in interface order.
pub open spec fn offered_addresses(ifaces: Seq<InterfaceAddress>) -> Seq<Seq<char>>
    decreases ifaces.len(),
{
    if ifaces.len() == 0 {
        seq!["localhost"@, "127.0.0.1"@, "0.0.0.0"@]
    } else {
        let prev = offered_addresses(ifaces.drop_last());
        let a = ifaces.last();
        if a.is_ipv4 && !a.is_loopback && !prev.contains(a.ip@) {
            prev.push(a.ip@)
        } else {
            prev
        }
    }
}

/// The addresses offered for the endpoint.
pub fn local_ip_addresses(ifaces: &Vec<InterfaceAddress>) -> (r: Vec<String>)
    ensures
        views(r@) == offered_addresses(ifaces@),
{
    let mut ips: Vec<String> = Vec::new();
    ips.push("localhost".to_owned());
    ips.push("127.0.0.1".to_owned());
    ips.push("0.0.0.0".to_owned());
    assert(views(ips@) =~= seq!["localhost"@, "127.0.0.1"@, "0.0.0.0"@]);
    let mut i: usize = 0;
    while i < ifaces.len()
        invariant
            i <= ifaces@.len(),
            views(ips@) == offered_addresses(ifaces@.take(i as int)),
        decreases ifaces@.len() - i,
    {
        assert(ifaces@.take(i + 1).drop_last() =~= ifaces@.take(i as int));
        let a = &ifaces[i];
        if a.is_ipv4 && !a.is_loopback && !crate::aggregator::list_contains(&ips, a.ip.as_str()) {
            let ghost before = views(ips@);
            ips.push(a.ip.clone());
            assert(views(ips@) =~= before.push(a.ip@));
        }
        i += 1;
    }
    assert(ifaces@.take(ifaces@.len() as int) =~= ifaces@);
    ips
}

/// No address is offered twice.
pub proof fn law_offered_addresses_distinct(ifaces: Seq<InterfaceAddress>)
    ensures
        forall|i: int, j: int|
            0 <= i < j < offered_addresses(ifaces).len() ==> #[trigger] offered_addresses(ifaces)[i]
                != #[trigger] offered_addresses(ifaces)[j],
    decreases ifaces.len(),
{
    if ifaces.len() == 0 {
        reveal_strlit("localhost");
        reveal_strlit("127.0.0.1");
        reveal_strlit("0.0.0.0");
        assert("localhost"@[0] != "127.0.0.1"@[0]);
        assert("localhost"@.len() != "0.0.0.0"@.len());
        assert("127.0.0.1"@.len() != "0.0.0.0"@.len());
    } else {
        law_offered_addresses_distinct(ifaces.drop_last());
        let prev = offered_addresses(ifaces.drop_last());
        let a = ifaces.last();
        if a.is_ipv4 && !a.is_loopback && !prev.contains(a.ip@) {
            let cur = prev.push(a.ip@);
            assert forall|i: int, j: int| 0 <= i < j < cur.len() implies #[trigger] cur[i] != #[trigger] cur[j] by {
                if j == prev.len() {
                    assert(cur[i] == prev[i]);
                    assert(prev.contains(prev[i]));
                } else {
                    assert(cur[i] == prev[i] && cur[j] == prev[j]);
                }
            }
        }
    }
}

} // verus!
