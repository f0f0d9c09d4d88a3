use llama_monitor::lan::{
    add_if_new, candidate_hosts, classify_reply, discovered_server, identify_step, scan_budget_ms,
    scan_ports, usable_local_ip, HostAddr, IdentifyStep, Probe,
};
use llama_monitor::types::ServerKind;

#[test]
fn candidate_hosts_always_includes_loopback() {
    let hosts = candidate_hosts(None);
    assert!(hosts.contains(&HostAddr(127, 0, 0, 1)));
    let hosts = candidate_hosts(Some(HostAddr(192, 168, 1, 7)));
    assert!(hosts.contains(&HostAddr(127, 0, 0, 1)));
}

#[test]
fn candidate_hosts_cover_the_local_subnet() {
    let hosts = candidate_hosts(Some(HostAddr(192, 168, 1, 7)));
    assert_eq!(hosts.len(), 255);
    assert_eq!(hosts[1], HostAddr(192, 168, 1, 1));
    assert_eq!(hosts[254], HostAddr(192, 168, 1, 254));
    assert_eq!(candidate_hosts(Some(HostAddr(127, 0, 1, 1))).len(), 1);
}

#[test]
fn local_ip_filters_unspecified_and_loopback() {
    assert_eq!(usable_local_ip(HostAddr(0, 0, 0, 0)), None);
    assert_eq!(usable_local_ip(HostAddr(127, 5, 0, 1)), None);
    assert_eq!(usable_local_ip(HostAddr(10, 0, 0, 3)), Some(HostAddr(10, 0, 0, 3)));
}

#[test]
fn scan_ports_and_budget() {
    assert_eq!(scan_ports(), vec![8080, 11434, 8000, 443, 80, 1234]);
    assert_eq!(scan_budget_ms(None), 9000);
    assert_eq!(scan_budget_ms(Some(500)), 500);
    assert_eq!(scan_budget_ms(Some(1000)), 1000);
    assert_eq!(scan_budget_ms(Some(12000)), 12000);
}

#[test]
fn identification_follows_the_probe_order() {
    assert_eq!(identify_step(Probe::OllamaPs, Some("[{\"name\":\"x\"}]")), IdentifyStep::Found(ServerKind::Ollama));
    assert_eq!(identify_step(Probe::OllamaPs, Some("{\"models\":[]}")), IdentifyStep::Next(Probe::Metrics));
    assert_eq!(identify_step(Probe::OllamaPs, Some("not json")), IdentifyStep::Next(Probe::Metrics));
    assert_eq!(identify_step(Probe::OllamaPs, None), IdentifyStep::Next(Probe::Metrics));
    assert_eq!(identify_step(Probe::Metrics, Some("vllm:x 1")), IdentifyStep::Found(ServerKind::Vllm));
    assert_eq!(identify_step(Probe::Metrics, Some("llamacpp:x 1")), IdentifyStep::Found(ServerKind::Local));
    assert_eq!(identify_step(Probe::Metrics, Some("other 1")), IdentifyStep::Next(Probe::Health));
    assert_eq!(identify_step(Probe::Health, Some("")), IdentifyStep::Found(ServerKind::Local));
    assert_eq!(identify_step(Probe::Health, None), IdentifyStep::Next(Probe::OpenAiModels));
    assert_eq!(identify_step(Probe::OpenAiModels, Some("{}")), IdentifyStep::Found(ServerKind::Cloud));
    assert_eq!(identify_step(Probe::OpenAiModels, None), IdentifyStep::Found(ServerKind::Local));
    assert_eq!(classify_reply(Probe::OllamaPs, Some("[]"), true), IdentifyStep::Found(ServerKind::Ollama));
    assert_eq!(Probe::first().path(), "/api/ps");
    assert_eq!(Probe::OpenAiModels.path(), "/v1/models");
}

#[test]
fn discovered_server_url_and_label() {
    let s = discovered_server(HostAddr(192, 168, 1, 50), 8080, ServerKind::Local);
    assert_eq!(s.url, "http://192.168.1.50:8080");
    assert_eq!(s.label, "llama.cpp @ 192.168.1.50:8080");
    assert_eq!(s.kind, ServerKind::Local);
    let o = discovered_server(HostAddr(10, 0, 0, 9), 11434, ServerKind::Ollama);
    assert_eq!(o.label, "Ollama @ 10.0.0.9:11434");
}

#[test]
fn results_keep_one_server_per_url() {
    let mut results = Vec::new();
    add_if_new(&mut results, discovered_server(HostAddr(10, 0, 0, 1), 80, ServerKind::Local));
    add_if_new(&mut results, discovered_server(HostAddr(10, 0, 0, 1), 80, ServerKind::Cloud));
    add_if_new(&mut results, discovered_server(HostAddr(10, 0, 0, 1), 81, ServerKind::Cloud));
    assert_eq!(results.len(), 2);
    assert_eq!(results[0].kind, ServerKind::Local);
}
