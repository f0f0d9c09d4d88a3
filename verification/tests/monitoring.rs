use llama_monitor::adapters::{
    parse_slots, LlamaProps, ModelEntry, ModelsResponse, PropsResponse, ServerProps, SlotReport,
    SlotTimings,
};
use llama_monitor::calculator::ParsedSnapshot;
use llama_monitor::config::Settings;
use llama_monitor::metrics::{context_from_counts, first_found, metric_names, pair_speeds, MetricName};
use llama_monitor::monitoring::{
    apply_metrics, apply_models, apply_props, apply_slots, degraded_state, metrics_is_text,
    note_metrics_refused, stale_threshold_secs, PollState,
};
use llama_monitor::types::{ConnectionStatus, ContextMetric, MonitoringState, SpeedMetric};

fn rate(v: f64) -> SpeedMetric<f64> {
    SpeedMetric::from_rate(v)
}

#[test]
fn context_counts_full_known() {
    let c = context_from_counts(Some(32768), Some(8192));
    assert!(c.available);
    assert_eq!(c.total, Some(32768));
    assert_eq!(c.used, Some(8192));
    assert_eq!(c.remaining, Some(24576));
    assert_eq!(c.percent_parts(), Some((8192, 32768)));
}

#[test]
fn context_counts_total_only_marks_used_unknown() {
    let c = context_from_counts(Some(32768), None);
    assert!(c.available);
    assert_eq!(c.used, None, "used must be None, never a fake zero");
    assert_eq!(c.remaining, None);
    assert_eq!(c.percent_parts(), None);
}

#[test]
fn context_counts_absent_is_unavailable() {
    assert_eq!(context_from_counts(None, None), ContextMetric::default());
    assert_eq!(context_from_counts(None, Some(5)), ContextMetric::default());
}

#[test]
fn context_counts_used_greater_than_total_clamps_remaining() {
    let c = context_from_counts(Some(100), Some(150));
    assert_eq!(c.remaining, Some(0), "negative remaining must clamp to 0");
    assert_eq!(c.percent_parts(), Some((150, 100)));
    let (u, t) = c.percent_parts().unwrap();
    assert_eq!(Some((u as f64 / t as f64).clamp(0.0, 1.0)), Some(1.0), "percent must clamp to 1.0");
}

#[test]
fn speeds_split_only_when_both_known() {
    let (p, g) = pair_speeds(rate(400.0), rate(40.0));
    assert!(p.split_available && g.split_available);
    assert_eq!(p.current, Some(400.0));
    let (p, g) = pair_speeds(rate(400.0), SpeedMetric::unavailable());
    assert!(!p.split_available && !g.split_available);
    assert!(p.available);
}

#[test]
fn stale_threshold_is_three_poll_intervals() {
    assert_eq!(stale_threshold_secs(3000), 9);
    assert_eq!(stale_threshold_secs(2500), 6);
    assert_eq!(stale_threshold_secs(999), 0);
}

#[test]
fn props_win_over_models_list() {
    let mut snap: ParsedSnapshot<f64> = ParsedSnapshot::empty();
    let e = ModelEntry { id: Some("list-name".to_string()), loaded: Some(false), ..ModelEntry::empty() };
    apply_models(&mut snap, &ModelsResponse { models: Some(vec![e]) });
    assert_eq!(snap.model.name.as_deref(), Some("list-name"));
    let props = PropsResponse {
        model_ftype: Some("Q4_0".to_string()),
        llama: Some(LlamaProps { model: None, context: Some(4096), quantization: None }),
        server: Some(ServerProps { hostname: Some("gpu".to_string()), port: Some(9), model: None, version: None }),
        ..PropsResponse::empty()
    };
    snap.server_label = Some("old".to_string());
    apply_props(&mut snap, &props);
    assert_eq!(snap.model.name.as_deref(), Some("list-name"));
    assert_eq!(snap.model.quantization.as_deref(), Some("Q4_0"));
    assert_eq!(snap.model.context_size, Some(4096));
    assert!(snap.model.loaded);
    assert_eq!(snap.server_label.as_deref(), Some("gpu:9"));
    apply_props(&mut snap, &PropsResponse::empty());
    assert_eq!(snap.server_label.as_deref(), Some("gpu:9"));
}

#[test]
fn metrics_refusal_is_noted_only_when_definitive() {
    let mut snap: ParsedSnapshot<f64> = ParsedSnapshot::empty();
    note_metrics_refused(&mut snap, 502);
    assert!(snap.diagnostics.is_empty());
    note_metrics_refused(&mut snap, 501);
    note_metrics_refused(&mut snap, 404);
    assert_eq!(snap.diagnostics.len(), 2);
    assert_eq!(snap.diagnostics[0], "Метрики отключены на сервере (нет --metrics)");
}

#[test]
fn metrics_context_only_replaces_when_published() {
    let mut snap: ParsedSnapshot<f64> = ParsedSnapshot::empty();
    snap.context = context_from_counts(Some(10), Some(1));
    apply_metrics(&mut snap, ContextMetric::default(), rate(1.0), rate(2.0));
    assert_eq!(snap.context.total, Some(10));
    assert_eq!(snap.generation_speed.current, Some(2.0));
    apply_metrics(&mut snap, context_from_counts(Some(20), None), rate(1.0), rate(2.0));
    assert_eq!(snap.context.total, Some(20));
}

#[test]
fn slots_fill_gaps_and_note_idle_server() {
    let slot = SlotReport {
        n_ctx: Some(8192),
        n_prompt_tokens: Some(100),
        timings: Some(SlotTimings { prompt_per_second: Some(50.0), predicted_per_second: None }),
        ..SlotReport::blank()
    };
    let info = parse_slots(&Some(vec![slot]));
    let mut snap: ParsedSnapshot<f64> = ParsedSnapshot::empty();
    snap.generation_speed = rate(9.0);
    apply_slots(&mut snap, &info, false);
    assert_eq!(snap.context.used, Some(100));
    assert_eq!(snap.prefill_speed, SpeedMetric::from_rate(50.0));
    assert_eq!(snap.generation_speed.current, Some(9.0));
    assert_eq!(snap.model.context_size, Some(8192));
    assert_eq!(snap.diagnostics, vec!["Сервер простаивает".to_string()]);
    let mut snap2: ParsedSnapshot<f64> = ParsedSnapshot::empty();
    apply_slots(&mut snap2, &info, true);
    assert!(snap2.diagnostics.is_empty());
}

#[test]
fn degraded_state_keeps_last_update_and_labels_server() {
    let settings = Settings::default_settings();
    let mut prev: MonitoringState<f64> = MonitoringState::initial();
    prev.last_update = Some(42);
    let d: MonitoringState<f64> = degraded_state(Some(&prev), &settings, "timeout");
    assert_eq!(d.connection, ConnectionStatus::ServerUnavailable);
    assert_eq!(d.last_update, Some(42));
    assert_eq!(d.server_label.as_deref(), Some("127.0.0.1:8080"));
    assert_eq!(d.diagnostics, vec!["Ошибка опроса: timeout".to_string()]);
    let labelled = Settings { server_label: Some("Workstation".to_string()), ..Settings::default_settings() };
    let d2: MonitoringState<f64> = degraded_state(None, &labelled, "x");
    assert_eq!(d2.server_label.as_deref(), Some("Workstation"));
    assert_eq!(d2.last_update, None);
}

#[test]
fn metrics_content_type_decides_the_format() {
    assert!(metrics_is_text("text/plain; version=0.0.4"));
    assert!(!metrics_is_text("application/json"));
    assert!(!metrics_is_text(""));
}

#[test]
fn first_found_takes_the_first_present_reading() {
    assert_eq!(first_found(&vec![None, Some(3.0), Some(4.0)]), Some(3.0));
    assert_eq!(first_found::<f64>(&vec![None, None]), None);
    assert_eq!(first_found::<u64>(&vec![]), None);
}

#[test]
fn poll_state_smooths_speeds_across_polls() {
    let mut poll: PollState<f64> = PollState::new(30);
    let mut snap: ParsedSnapshot<f64> = ParsedSnapshot::empty();
    snap.timestamp_ms = 1_000;
    snap.generation_speed = rate(10.0);
    let first = poll.on_snapshot(&snap, 3000, |v: &Vec<f64>| {
        if v.is_empty() { None } else { Some(v.iter().sum::<f64>() / v.len() as f64) }
    });
    assert_eq!(first.generation_speed.avg_30s, Some(10.0));
    snap.timestamp_ms = 4_000;
    snap.generation_speed = rate(20.0);
    let second = poll.on_snapshot(&snap, 3000, |v: &Vec<f64>| {
        if v.is_empty() { None } else { Some(v.iter().sum::<f64>() / v.len() as f64) }
    });
    assert_eq!(second.generation_speed.current, Some(20.0));
    assert_eq!(second.generation_speed.avg_30s, Some(15.0));
    assert_eq!(poll.window.generation, vec![10.0, 20.0]);
    assert_eq!(poll.prev.as_ref().and_then(|p| p.last_update), Some(4_000));
}

#[test]
fn poll_state_failure_keeps_last_update_and_state() {
    let mut poll: PollState<f64> = PollState::new(30);
    let mut snap: ParsedSnapshot<f64> = ParsedSnapshot::empty();
    snap.timestamp_ms = 7_000;
    poll.on_snapshot(&snap, 3000, |_: &Vec<f64>| None);
    let s = Settings::default_settings();
    let d = poll.on_failure(&s, "connection refused");
    assert_eq!(d.connection, ConnectionStatus::ServerUnavailable);
    assert_eq!(d.last_update, Some(7_000));
    assert_eq!(d.server_label.as_deref(), Some("127.0.0.1:8080"));
    assert_eq!(d.diagnostics, vec!["Ошибка опроса: connection refused".to_string()]);
    assert_eq!(poll.prev.as_ref().and_then(|p| p.last_update), Some(7_000));
}

#[test]
fn stale_after_three_poll_intervals_across_polls() {
    let mut poll: PollState<f64> = PollState::new(30);
    let mut snap: ParsedSnapshot<f64> = ParsedSnapshot::empty();
    snap.model.loaded = true;
    snap.timestamp_ms = 1_000;
    poll.on_snapshot(&snap, 3000, |_: &Vec<f64>| None);
    snap.timestamp_ms = 20_000;
    let s = poll.on_snapshot(&snap, 3000, |_: &Vec<f64>| None);
    assert_eq!(s.connection, ConnectionStatus::Stale);
}

#[test]
fn metric_names_in_order_of_preference() {
    assert_eq!(
        metric_names(MetricName::ContextTotal),
        vec!["llamacpp:ctx_mem_total", "ctx_mem_total", "llamacpp:context_total", "context_total", "llamacpp:ctx_total", "ctx_total"]
    );
    assert_eq!(
        metric_names(MetricName::GenerationSeconds),
        vec!["llamacpp:tokens_predicted_seconds_total", "tokens_predicted_seconds_total"]
    );
    assert_eq!(metric_names(MetricName::VllmInterTokenLatency), vec!["vllm:inter_token_latency_seconds", "vllm:itl_s"]);
}

#[test]
fn failed_polls_back_off_and_success_resets() {
    let mut poll: PollState<f64> = PollState::new(30);
    let s = Settings::default_settings();
    assert_eq!(poll.next_delay_ms(3000), 3000);
    poll.on_failure(&s, "down");
    assert_eq!(poll.next_delay_ms(3000), 6000);
    poll.on_failure(&s, "down");
    assert_eq!(poll.next_delay_ms(3000), 12000);
    poll.on_failure(&s, "down");
    poll.on_failure(&s, "down");
    assert_eq!(poll.failures, 4);
    assert_eq!(poll.next_delay_ms(3000), 24000);
    assert_eq!(poll.next_delay_ms(u64::MAX), u64::MAX);
    let mut snap: ParsedSnapshot<f64> = ParsedSnapshot::empty();
    snap.timestamp_ms = 1;
    poll.on_snapshot(&snap, 3000, |_: &Vec<f64>| None);
    assert_eq!(poll.failures, 0);
    assert_eq!(poll.next_delay_ms(3000), 3000);
}
