//! LAN discovery decisions: which hosts and ports to probe, how the replies
//! of a server identify its engine, and how found servers are listed.
//!
//! The probing itself (TCP connects and HTTP requests with timeouts) is done
//! by the application, which runs the identification step by step.
use vstd::prelude::*;
use crate::adapters::metrics_kind;
use crate::text::{chars_of, contains_chars, decimal, push_decimal, push_str, same_chars, string_of};
use crate::types::{kind_label, ServerKind};

verus! {

/// An IPv4 address, as its four octets.
#[derive(Debug, Clone, Copy, PartialEq, Eq, Structural)]
pub struct HostAddr(pub u8, pub u8, pub u8, pub u8);

/// `127.0.0.1`.
pub open spec fn loopback() -> HostAddr {
    HostAddr(127, 0, 0, 1)
}

/// The dotted-decimal form of an address.
pub open spec fn dotted(h: HostAddr) -> Seq<char> {
    decimal(h.0 as nat) + "."@ + decimal(h.1 as nat) + "."@ + decimal(h.2 as nat) + "."@
        + decimal(h.3 as nat)
}

fn push_dotted(out: &mut Vec<char>, h: HostAddr)
    ensures
        final(out)@ == old(out)@ + dotted(h),
{
    push_decimal(out, h.0 as u64);
    push_str(out, ".");
    push_decimal(out, h.1 as u64);
    push_str(out, ".");
    push_decimal(out, h.2 as u64);
    push_str(out, ".");
    push_decimal(out, h.3 as u64);
    assert(out@ =~= old(out)@ + dotted(h));
}

/// The local address the system reports for outbound traffic, unless it is
/// unspecified (`0.0.0.0`) or a loopback address (`127.0.0.0/8`).
pub fn usable_local_ip(a: HostAddr) -> (r: Option<HostAddr>)
    ensures
        r == (if a == HostAddr(0, 0, 0, 0) || a.0 == 127 {
            None
        } else {
            Some(a)
        }),
{
    if (a.0 == 0 && a.1 == 0 && a.2 == 0 && a.3 == 0) || a.0 == 127 {
        None
    } else {
        Some(a)
    }
}

/// Hosts to scan: loopback always, first, then the 254 hosts of the /24 of
/// the local address when there is a usable one.
pub open spec fn candidates(local: Option<HostAddr>) -> Seq<HostAddr> {
    match local {
        Some(ip) => if ip.0 != 127 {
            seq![loopback()] + Seq::new(254, |k: int| HostAddr(ip.0, ip.1, ip.2, (k + 1) as u8))
        } else {
            seq![loopback()]
        },
        None => seq![loopback()],
    }
}

pub fn candidate_hosts(local: Option<HostAddr>) -> (r: Vec<HostAddr>)
    ensures
        r@ == candidates(local),
        r@.len() > 0 && r@[0] == loopback(),
{
    let mut hosts: Vec<HostAddr> = Vec::new();
    hosts.push(HostAddr(127, 0, 0, 1));
    match local {
        Some(ip) => {
            if ip.0 != 127 {
                let mut last: u32 = 1;
                while last <= 254
                    invariant
                        1 <= last <= 255,
                        hosts@ == seq![loopback()] + Seq::new(
                            (last - 1) as nat,
                            |k: int| HostAddr(ip.0, ip.1, ip.2, (k + 1) as u8),
                        ),
                    decreases 255 - last,
                {
                    hosts.push(HostAddr(ip.0, ip.1, ip.2, last as u8));
                    assert(hosts@ =~= seq![loopback()] + Seq::new(
                        last as nat,
                        |k: int| HostAddr(ip.0, ip.1, ip.2, (k + 1) as u8),
                    ));
                    last = last + 1;
                }
            }
        },
        None => {},
    }
    assert(hosts@ =~= candidates(local));
    hosts
}

/// Ports that inference servers commonly listen on, in scan order.
pub fn scan_ports() -> (r: Vec<u16>)
    ensures
        r@ == seq![8080u16, 11434, 8000, 443, 80, 1234],
{
    let mut v: Vec<u16> = Vec::new();
    v.push(8080);
    v.push(11434);
    v.push(8000);
    v.push(443);
    v.push(80);
    v.push(1234);
    assert(v@ =~= seq![8080u16, 11434, 8000, 443, 80, 1234]);
    v
}

/// The time budget of a scan: the whole scan is capped at the requested
/// timeout, 9 s by default.
pub fn scan_budget_ms(timeout_ms: Option<u64>) -> (r: u64)
    ensures
        r == (match timeout_ms {
            Some(t) => t,
            None => 9000,
        }),
{
    match timeout_ms {
        Some(t) => t,
        None => 9000,
    }
}

/// The probes that identify a server, in the order they are made.
#[derive(Debug, Clone, Copy, PartialEq, Eq, Structural)]
pub enum Probe {
    /// `GET /api/ps` (Ollama's running models).
    OllamaPs,
    /// `GET /metrics` (Prometheus text).
    Metrics,
    /// `GET /health` (llama.cpp).
    Health,
    /// `GET /v1/models` (OpenAI-compatible).
    OpenAiModels,
}

pub open spec fn probe_path(p: Probe) -> Seq<char> {
    match p {
        Probe::OllamaPs => "/api/ps"@,
        Probe::Metrics => "/metrics"@,
        Probe::Health => "/health"@,
        Probe::OpenAiModels => "/v1/models"@,
    }
}

impl Probe {
    /// The probe to start with.
    pub fn first() -> (r: Probe)
        ensures
            r == Probe::OllamaPs,
    {
        Probe::OllamaPs
    }

    /// The request path of the probe.
    pub fn path(self) -> (r: &'static str)
        ensures
            r@ == probe_path(self),
    {
        match self {
            Probe::OllamaPs => "/api/ps",
            Probe::Metrics => "/metrics",
            Probe::Health => "/health",
            Probe::OpenAiModels => "/v1/models",
        }
    }
}

/// The outcome of one identification step.
#[derive(Debug, Clone, Copy, PartialEq, Eq, Structural)]
pub enum IdentifyStep {
    /// The engine is known.
    Found(ServerKind),
    /// Make this probe next.
    Next(Probe),
}

/// One identification step: the reply to `probe` is the body of a 2xx
/// answer, or `None` for anything else. `/api/ps` answering a JSON array is
/// Ollama; metrics naming `vllm:` or `llamacpp:` are vLLM or llama.cpp; a
/// healthy `/health` is llama.cpp; a `/v1/models` answer is an
/// OpenAI-compatible cloud; an open port that answers none of these is
/// reported as a llama.cpp server the user may add by hand.
pub open spec fn identify_next(probe: Probe, body: Option<Seq<char>>, json_array: bool) -> IdentifyStep {
    match probe {
        Probe::OllamaPs => if body is Some && json_array {
            IdentifyStep::Found(ServerKind::Ollama)
        } else {
            IdentifyStep::Next(Probe::Metrics)
        },
        Probe::Metrics => match body {
            Some(b) => match metrics_kind(b) {
                Some(k) => IdentifyStep::Found(k),
                None => IdentifyStep::Next(Probe::Health),
            },
            None => IdentifyStep::Next(Probe::Health),
        },
        Probe::Health => if body is Some {
            IdentifyStep::Found(ServerKind::Local)
        } else {
            IdentifyStep::Next(Probe::OpenAiModels)
        },
        Probe::OpenAiModels => if body is Some {
            IdentifyStep::Found(ServerKind::Cloud)
        } else {
            IdentifyStep::Found(ServerKind::Local)
        },
    }
}

/// Whether a text parses as a JSON array (as serde_json reads JSON).
pub uninterp spec fn json_array_text(text: Seq<char>) -> bool;

/// `serde_json::from_str::<Value>`: true exactly when the text is valid JSON
/// whose value is an array. What JSON is valid is left to serde_json; the
/// contract only names the result as a function of the text.
#[verifier::external_body]
fn parses_as_json_array(text: &str) -> (r: bool)
    ensures
        r == json_array_text(text@),
{
    match serde_json::from_str::<serde_json::Value>(text) {
        Ok(serde_json::Value::Array(_)) => true,
        _ => false,
    }
}

/// One identification step, given whether the body parsed as a JSON array.
pub fn classify_reply(probe: Probe, body: Option<&str>, json_array: bool) -> (r: IdentifyStep)
    ensures
        r == identify_next(
            probe,
            match body {
                Some(b) => Some(b@),
                None => None,
            },
            json_array,
        ),
{
    match probe {
        Probe::OllamaPs => if body.is_some() && json_array {
            IdentifyStep::Found(ServerKind::Ollama)
        } else {
            IdentifyStep::Next(Probe::Metrics)
        },
        Probe::Metrics => match body {
            Some(b) => {
                let t = chars_of(b);
                if contains_chars(&t, &chars_of("vllm:")) {
                    IdentifyStep::Found(ServerKind::Vllm)
                } else if contains_chars(&t, &chars_of("llamacpp:")) {
                    IdentifyStep::Found(ServerKind::Local)
                } else {
                    IdentifyStep::Next(Probe::Health)
                }
            },
            None => IdentifyStep::Next(Probe::Health),
        },
        Probe::Health => if body.is_some() {
            IdentifyStep::Found(ServerKind::Local)
        } else {
            IdentifyStep::Next(Probe::OpenAiModels)
        },
        Probe::OpenAiModels => if body.is_some() {
            IdentifyStep::Found(ServerKind::Cloud)
        } else {
            IdentifyStep::Found(ServerKind::Local)
        },
    }
}

/// One identification step on the reply to `probe`.
pub fn identify_step(probe: Probe, body: Option<&str>) -> (r: IdentifyStep)
    ensures
        r == identify_next(
            probe,
            match body {
                Some(b) => Some(b@),
                None => None,
            },
            match body {
                Some(b) => probe == Probe::OllamaPs && json_array_text(b@),
                None => false,
            },
        ),
{
    let json_array = match body {
        Some(b) => if probe == Probe::OllamaPs {
            parses_as_json_array(b)
        } else {
            false
        },
        None => false,
    };
    classify_reply(probe, body, json_array)
}

/// A server found during a LAN scan.
#[derive(Debug, Clone, PartialEq, Eq)]
pub struct DiscoveredServer {
    /// Base URL without any `/v1` suffix, e.g. `http://192.168.1.50:8080`.
    pub url: String,
    /// Detected engine kind (drives which adapter the monitor will use).
    pub kind: ServerKind,
    /// Human-readable label, e.g. `llama.cpp @ 192.168.1.50:8080`.
    pub label: String,
}

pub open spec fn server_url(host: HostAddr, port: u16) -> Seq<char> {
    "http://"@ + dotted(host) + ":"@ + decimal(port as nat)
}

pub open spec fn server_label(host: HostAddr, port: u16, kind: ServerKind) -> Seq<char> {
    kind_label(kind) + " @ "@ + dotted(host) + ":"@ + decimal(port as nat)
}

/// Describe a server found at `host:port`.
pub fn discovered_server(host: HostAddr, port: u16, kind: ServerKind) -> (r: DiscoveredServer)
    ensures
        r.url@ == server_url(host, port),
        r.kind == kind,
        r.label@ == server_label(host, port, kind),
{
    let mut url: Vec<char> = Vec::new();
    push_str(&mut url, "http://");
    push_dotted(&mut url, host);
    push_str(&mut url, ":");
    push_decimal(&mut url, port as u64);
    assert(url@ =~= server_url(host, port));
    let mut label: Vec<char> = Vec::new();
    push_str(&mut label, kind.label());
    push_str(&mut label, " @ ");
    push_dotted(&mut label, host);
    push_str(&mut label, ":");
    push_decimal(&mut label, port as u64);
    assert(label@ =~= server_label(host, port, kind));
    DiscoveredServer { url: string_of(url.as_slice()), kind, label: string_of(label.as_slice()) }
}

/// No two servers of a list share a URL.
pub open spec fn distinct_urls(v: Seq<DiscoveredServer>) -> bool {
    forall|i: int, j: int| 0 <= i < j < v.len() ==> v[i].url@ != v[j].url@
}

/// Add a found server to the results unless one with the same URL is there.
pub fn add_if_new(results: &mut Vec<DiscoveredServer>, server: DiscoveredServer)
    ensures
        (exists|j: int| 0 <= j < old(results)@.len() && old(results)@[j].url@ == server.url@)
            ==> final(results)@ == old(results)@,
        !(exists|j: int| 0 <= j < old(results)@.len() && old(results)@[j].url@ == server.url@)
            ==> final(results)@ == old(results)@.push(server),
        distinct_urls(old(results)@) ==> distinct_urls(final(results)@),
{
    let url = chars_of(server.url.as_str());
    let mut i: usize = 0;
    while i < results.len()
        invariant
            i <= results.len(),
            url@ == server.url@,
            forall|j: int| 0 <= j < i ==> results@[j].url@ != server.url@,
        decreases results.len() - i,
    {
        if same_chars(&chars_of(results[i].url.as_str()), &url) {
            return;
        }
        i = i + 1;
    }
    results.push(server);
}

} // verus!
