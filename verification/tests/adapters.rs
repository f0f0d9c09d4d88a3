use std::collections::HashMap;

use llama_monitor::adapters::{
    detect_kind_from_metrics, detect_kind_from_ps, extract_cloud_model, extract_model,
    extract_model_entry_metric, extract_model_from_props, extract_ollama_model,
    extract_server_label, merge_model, now_ms, timestamp_ms, parse_ollama_ps, parse_slots, CloudModelEntry,
    LlamaProps, ModelEntry, ModelsResponse, OllamaPsEntry, PropsResponse, ServerProps,
    SlotReport, SlotTimings,
};
use llama_monitor::metrics::prometheus_samples;
use llama_monitor::types::{ModelMetric, ServerKind};

/// The metrics map the application builds: every sample whose value reads
/// as a number, later lines winning.
fn parse_prometheus(text: &str) -> HashMap<String, f64> {
    let mut map = HashMap::new();
    for s in prometheus_samples(text) {
        if let Ok(v) = s.value_text.parse::<f64>() {
            map.insert(s.key, v);
        }
    }
    map
}

#[test]
fn parses_prometheus_text() {
    let text = "\
# HELP llama_context_n_tokens_total Tokens
llama_context_n_tokens_total 4096
llama_context_n_ctx_total 32768
prompt_tokens_per_second 412.5
generation_tokens_per_second 38.25
";
    let map = parse_prometheus(text);
    assert_eq!(map.get("llama_context_n_tokens_total"), Some(&4096.0));
    assert_eq!(map.get("prompt_tokens_per_second"), Some(&412.5));
}

const REAL_METRICS: &str = "\
# HELP llamacpp:prompt_tokens_total Number of prompt tokens processed.
# TYPE llamacpp:prompt_tokens_total counter
llamacpp:prompt_tokens_total 25
# HELP llamacpp:prompt_seconds_total Prompt process time
# TYPE llamacpp:prompt_seconds_total counter
llamacpp:prompt_seconds_total 3.68
# HELP llamacpp:tokens_predicted_total Number of generation tokens processed.
# TYPE llamacpp:tokens_predicted_total counter
llamacpp:tokens_predicted_total 200
# HELP llamacpp:tokens_predicted_seconds_total Predict process time
# TYPE llamacpp:tokens_predicted_seconds_total counter
llamacpp:tokens_predicted_seconds_total 39.8
# HELP llamacpp:n_decode_total Total number of llama_decode() calls
# TYPE llamacpp:n_decode_total counter
llamacpp:n_decode_total 202
# HELP llamacpp:n_tokens_max Largest observed n_tokens.
# TYPE llamacpp:n_tokens_max counter
llamacpp:n_tokens_max 224
# HELP llamacpp:prompt_tokens_seconds Average prompt throughput in tokens/s.
# TYPE llamacpp:prompt_tokens_seconds gauge
llamacpp:prompt_tokens_seconds 6.79348
# HELP llamacpp:predicted_tokens_seconds Average generation throughput in tokens/s.
# TYPE llamacpp:predicted_tokens_seconds gauge
llamacpp:predicted_tokens_seconds 5.02513
# HELP llamacpp:requests_processing Number of requests processing.
# TYPE llamacpp:requests_processing gauge
llamacpp:requests_processing 0
# HELP llamacpp:n_busy_slots_per_decode Average number of busy slots per llama_decode() call
# TYPE llamacpp:n_busy_slots_per_decode gauge
llamacpp:n_busy_slots_per_decode 1
";

#[test]
fn parses_real_llamacpp_metrics_names() {
    let map = parse_prometheus(REAL_METRICS);
    assert_eq!(map.get("llamacpp:prompt_tokens_seconds"), Some(&6.79348));
    assert_eq!(map.get("llamacpp:predicted_tokens_seconds"), Some(&5.02513));
    assert_eq!(map.get("llamacpp:prompt_tokens_total"), Some(&25.0));
    assert_eq!(map.get("llamacpp:tokens_predicted_seconds_total"), Some(&39.8));
}

#[test]
fn parses_prometheus_with_labels() {
    let text = "llama_context_n_tokens_total{slot=\"0\"} 1234\n";
    let map = parse_prometheus(text);
    assert_eq!(map.get("llama_context_n_tokens_total"), Some(&1234.0));
}

#[test]
fn prometheus_samples_keep_value_text_and_skip_comments() {
    let samples = prometheus_samples("  # comment\n\nname   42.5  extra\r\nbare_name\n{x} 1\n");
    assert_eq!(samples.len(), 2);
    assert_eq!(samples[0].key, "name");
    assert_eq!(samples[0].value_text, "42.5");
    assert_eq!(samples[1].key, "");
    assert_eq!(samples[1].value_text, "1");
}

#[test]
fn prometheus_sample_with_unparsable_value_does_not_override() {
    let map = parse_prometheus("a 1\na NaNish\n");
    assert_eq!(map.get("a"), Some(&1.0));
}

fn entry() -> ModelEntry {
    ModelEntry::empty()
}

#[test]
fn model_from_models_list() {
    let e = ModelEntry {
        id: Some("ornith-1.5-35b".to_string()),
        n_ctx: Some(32768),
        loaded: Some(true),
        ..entry()
    };
    let resp = ModelsResponse { models: Some(vec![e]) };
    let m = extract_model(&resp);
    assert_eq!(m.name.as_deref(), Some("ornith-1.5-35b"));
    assert_eq!(m.context_size, Some(32768));
    assert!(m.loaded);
}

#[test]
fn model_unknown_yields_no_name() {
    let resp = ModelsResponse { models: None };
    let m = extract_model(&resp);
    assert_eq!(m.name, None, "must not invent a model name");
    assert!(!m.loaded);
}

#[test]
fn model_from_empty_list_is_unknown() {
    let m = extract_model(&ModelsResponse { models: Some(vec![]) });
    assert_eq!(m, ModelMetric::default());
}

#[test]
fn model_list_prefers_the_first_loaded_entry() {
    let first = ModelEntry { model: Some("third-choice".to_string()), ..entry() };
    let second = ModelEntry { id: Some("second".to_string()), loaded: Some(true), ..entry() };
    let third = ModelEntry { id: Some("third".to_string()), loaded: Some(true), ..entry() };
    let m = extract_model(&ModelsResponse { models: Some(vec![first, second, third]) });
    assert_eq!(m.name.as_deref(), Some("second"));
    assert!(m.loaded);
}

#[test]
fn model_list_without_loaded_entry_takes_the_first_and_name_fallbacks() {
    let first = ModelEntry { model: Some("third-choice".to_string()), loaded: Some(false), ..entry() };
    let second = ModelEntry { id: Some("second".to_string()), ..entry() };
    let m = extract_model(&ModelsResponse { models: Some(vec![first, second]) });
    assert_eq!(m.name.as_deref(), Some("third-choice"));
    assert!(!m.loaded);
}

#[test]
fn model_entry_metric_falls_back_to_context_length() {
    let e = ModelEntry {
        name: Some("gpt".to_string()),
        context_length: Some(128000),
        content_type: Some("Q4".to_string()),
        path: Some("/m".to_string()),
        ..entry()
    };
    let m = extract_model_entry_metric(&e);
    assert_eq!(m.name.as_deref(), Some("gpt"));
    assert_eq!(m.context_size, Some(128000));
    assert_eq!(m.quantization.as_deref(), Some("Q4"));
    assert_eq!(m.path.as_deref(), Some("/m"));
    assert_eq!(m.version, None);
    let e2 = ModelEntry { n_ctx: Some(4096), context_length: Some(8192), ..entry() };
    assert_eq!(extract_model_entry_metric(&e2).context_size, Some(4096));
    // The models-list reader ignores `context_length`.
    let m2 = extract_model(&ModelsResponse { models: Some(vec![ModelEntry { context_length: Some(1), ..entry() }]) });
    assert_eq!(m2.context_size, None);
}

#[test]
fn model_from_props_fallback() {
    let props = PropsResponse {
        llama: Some(LlamaProps {
            model: Some("fallback-model".to_string()),
            context: Some(4096),
            quantization: Some("Q5_K_M".to_string()),
        }),
        ..PropsResponse::empty()
    };
    let m = extract_model_from_props(&props);
    assert_eq!(m.name.as_deref(), Some("fallback-model"));
    assert_eq!(m.context_size, Some(4096));
    assert_eq!(m.quantization.as_deref(), Some("Q5_K_M"));
}

#[test]
fn model_from_modern_flat_props() {
    let props = PropsResponse {
        generation_n_ctx: Some(192256),
        model_alias: Some("F:\\\\Models\\\\gemma-4-12B-it-QAT-Q4_0.gguf".to_string()),
        model_ftype: Some("Q4_0".to_string()),
        model_path: Some("F:\\\\Models\\\\gemma-4-12B-it-QAT-Q4_0.gguf".to_string()),
        build_info: Some("b10897-18c17b4d6".to_string()),
        ..PropsResponse::empty()
    };
    let m = extract_model_from_props(&props);
    assert_eq!(m.name.as_deref(), Some("F:\\\\Models\\\\gemma-4-12B-it-QAT-Q4_0.gguf"));
    assert_eq!(m.quantization.as_deref(), Some("Q4_0"));
    assert_eq!(m.context_size, Some(192_256));
    assert_eq!(m.version.as_deref(), Some("b10897-18c17b4d6"));
    assert!(m.loaded);
}

#[test]
fn model_from_props_falls_back_to_model_path_when_alias_empty() {
    let props = PropsResponse {
        model_alias: Some(String::new()),
        model_path: Some("/models/mistral-7b.gguf".to_string()),
        model_ftype: Some("Q8_0".to_string()),
        ..PropsResponse::empty()
    };
    let m = extract_model_from_props(&props);
    assert_eq!(m.name.as_deref(), Some("/models/mistral-7b.gguf"));
}

#[test]
fn empty_props_is_tolerated() {
    let props = PropsResponse::empty();
    let m = extract_model_from_props(&props);
    assert_eq!(m.name, None);
}

#[test]
fn props_zero_context_and_build_number_fallbacks() {
    let props = PropsResponse {
        generation_n_ctx: Some(0),
        n_ctx: Some(2048),
        build_number: Some("b42".to_string()),
        server: Some(ServerProps {
            hostname: None,
            port: None,
            model: Some("srv-model".to_string()),
            version: Some("v9".to_string()),
        }),
        ..PropsResponse::empty()
    };
    let m = extract_model_from_props(&props);
    assert_eq!(m.context_size, Some(2048));
    assert_eq!(m.version.as_deref(), Some("b42"));
    assert_eq!(m.name.as_deref(), Some("srv-model"));
    assert_eq!(m.path, None);
}

#[test]
fn server_label_from_hostname_and_port() {
    let mut props = PropsResponse::empty();
    assert_eq!(extract_server_label(&props), None);
    props.server = Some(ServerProps {
        hostname: Some("box".to_string()),
        port: Some(8080),
        model: Some("m".to_string()),
        version: None,
    });
    assert_eq!(extract_server_label(&props).as_deref(), Some("box:8080"));
    props.server = Some(ServerProps { hostname: Some("box".to_string()), port: None, model: None, version: None });
    assert_eq!(extract_server_label(&props).as_deref(), Some("box"));
    props.server = Some(ServerProps { hostname: None, port: Some(1), model: Some("m".to_string()), version: None });
    assert_eq!(extract_server_label(&props).as_deref(), Some("m"));
}

#[test]
fn merge_model_props_fills_gaps_left_by_models_list() {
    let mut base = ModelMetric {
        name: Some("gemma-4-12B".to_string()),
        loaded: false,
        ..Default::default()
    };
    let props = ModelMetric {
        name: Some("gemma-4-12B".to_string()),
        context_size: Some(192_256),
        quantization: Some("Q4_0".to_string()),
        version: Some("b10897".to_string()),
        loaded: true,
        ..Default::default()
    };
    merge_model(&mut base, props);
    assert_eq!(base.name.as_deref(), Some("gemma-4-12B"));
    assert_eq!(base.context_size, Some(192_256));
    assert_eq!(base.quantization.as_deref(), Some("Q4_0"));
    assert_eq!(base.version.as_deref(), Some("b10897"));
    assert!(base.loaded);
}

#[test]
fn merge_model_does_not_erase_existing_values_with_none() {
    let mut base = ModelMetric {
        name: Some("kept".to_string()),
        quantization: Some("Q5_K_M".to_string()),
        ..Default::default()
    };
    merge_model(&mut base, ModelMetric::default());
    assert_eq!(base.name.as_deref(), Some("kept"));
    assert_eq!(base.quantization.as_deref(), Some("Q5_K_M"));
}

#[test]
fn merge_model_twice_equals_once() {
    let incoming = ModelMetric { path: Some("/p".to_string()), loaded: true, ..Default::default() };
    let mut once = ModelMetric { name: Some("n".to_string()), ..Default::default() };
    merge_model(&mut once, incoming.clone());
    let mut twice = once.clone();
    merge_model(&mut twice, incoming);
    assert_eq!(once, twice);
}

#[test]
fn now_ms_is_after_2020() {
    assert!(now_ms() > 1_577_836_800_000);
}

fn slot(n_ctx: u64, processing: bool) -> SlotReport<f64> {
    SlotReport { n_ctx: Some(n_ctx), is_processing: Some(processing), ..SlotReport::blank() }
}

#[test]
fn parses_slots_with_active_slot() {
    let active = SlotReport {
        n_prompt_tokens: Some(2418),
        n_prompt_tokens_processed: Some(0),
        ..slot(192256, true)
    };
    let slots = Some(vec![slot(192256, false), slot(192256, false), slot(192256, false), active]);
    let info = parse_slots(&slots);
    assert!(info.active, "slot 3 is processing");
    assert_eq!(info.context_size, Some(192_256));
    assert!(info.context.available);
    assert_eq!(info.context.total, Some(192_256));
    assert_eq!(info.context.used, Some(2418));
    assert_eq!(info.context.remaining, Some(192_256 - 2418));
}

#[test]
fn parses_slots_all_idle_reports_zero_used() {
    let slots = Some(vec![slot(8192, false), slot(8192, false)]);
    let info = parse_slots(&slots);
    assert!(!info.active);
    assert!(info.context.available);
    assert_eq!(info.context.used, Some(0));
    assert_eq!(info.context.remaining, Some(8192));
}

#[test]
fn parses_slots_keeps_context_after_generation_ends() {
    let used = SlotReport {
        n_prompt_tokens: Some(226),
        n_prompt_tokens_processed: Some(0),
        ..slot(192256, false)
    };
    let slots = Some(vec![slot(192256, false), slot(192256, false), slot(192256, false), used]);
    let info = parse_slots(&slots);
    assert!(!info.active, "no slot is currently processing");
    assert!(info.context.available);
    assert_eq!(info.context.used, Some(226), "retained prompt must be counted");
    assert_eq!(info.context.remaining, Some(192_256 - 226));
}

#[test]
fn parses_slots_prefers_planned_prompt_over_unprocessed_zero() {
    let s = SlotReport {
        n_prompt_tokens: Some(2418),
        n_prompt_tokens_processed: Some(0),
        ..slot(32768, true)
    };
    let info = parse_slots(&Some(vec![s]));
    assert_eq!(info.context.used, Some(2418));
}

#[test]
fn parses_slots_with_timings_for_speeds() {
    let s = SlotReport {
        n_prompt_tokens_processed: Some(512),
        n_decoded: Some(64),
        timings: Some(SlotTimings { prompt_per_second: Some(412.5), predicted_per_second: Some(38.25) }),
        ..slot(4096, true)
    };
    let info = parse_slots(&Some(vec![s]));
    assert_eq!(info.prefill_speed, Some(412.5));
    assert_eq!(info.generation_speed, Some(38.25));
}

#[test]
fn parses_slots_non_array_is_tolerated() {
    let info = parse_slots::<f64>(&None);
    assert!(!info.active);
    assert!(!info.context.available);
    assert!(info.context_opt().is_none());
}

#[test]
fn parses_slots_used_is_clamped_to_total() {
    let s = SlotReport {
        n_prompt_tokens_processed: Some(500),
        n_decoded: Some(900),
        ..slot(100, true)
    };
    let info = parse_slots(&Some(vec![s]));
    assert_eq!(info.context.used, Some(100));
    assert_eq!(info.context.remaining, Some(0));
    let (u, t) = info.context.percent_parts().unwrap();
    assert_eq!(Some((u as f64 / t as f64).clamp(0.0, 1.0)), Some(1.0));
}

#[test]
fn parses_slots_first_timings_win_and_next_token_counts() {
    let a = SlotReport {
        n_prompt_tokens: Some(10),
        next_token_n_decoded: Some(5),
        timings: Some(SlotTimings { prompt_per_second: None, predicted_per_second: Some(7.0) }),
        ..slot(0, false)
    };
    let b = SlotReport {
        n_prompt_tokens: Some(3),
        timings: Some(SlotTimings { prompt_per_second: Some(99.0), predicted_per_second: Some(1.0) }),
        ..slot(64, false)
    };
    let info = parse_slots(&Some(vec![a, b]));
    assert_eq!(info.context_size, Some(64));
    assert_eq!(info.context.used, Some(15));
    assert_eq!(info.prefill_speed, Some(99.0));
    assert_eq!(info.generation_speed, Some(7.0));
    assert_eq!(info.context_opt(), Some(info.context));
}

#[test]
fn parses_slots_without_context_size_is_unavailable() {
    let s = SlotReport { n_prompt_tokens: Some(10), ..SlotReport::<f64>::blank() };
    let info = parse_slots(&Some(vec![s]));
    assert!(!info.context.available);
    assert_eq!(info.context.used, None);
}

#[test]
fn detects_vllm_from_metrics_prefix() {
    assert_eq!(detect_kind_from_metrics("# HELP vllm:kv_cache_usage_sys"), Some(ServerKind::Vllm));
    assert_eq!(
        detect_kind_from_metrics("# HELP llamacpp:prompt_tokens_total"),
        Some(ServerKind::Local)
    );
    assert_eq!(detect_kind_from_metrics("# just some help"), None);
}

#[test]
fn detection_prefers_vllm_over_llamacpp() {
    assert_eq!(detect_kind_from_metrics("llamacpp:x 1\nvllm:y 2"), Some(ServerKind::Vllm));
}

#[test]
fn detects_ollama_from_ps_array() {
    let e = OllamaPsEntry { name: Some("llama3.1".to_string()), ..OllamaPsEntry::empty() };
    assert_eq!(detect_kind_from_ps(&Some(vec![e])), Some(ServerKind::Ollama));
    assert_eq!(detect_kind_from_ps(&None), None);
    assert_eq!(detect_kind_from_ps(&Some(vec![OllamaPsEntry::empty()])), None);
}

#[test]
fn ollama_ps_reports_model_and_context() {
    let e = OllamaPsEntry {
        name: Some("gemma-2-2b".to_string()),
        context_length: Some(8192),
        context: Some(2048),
        ..OllamaPsEntry::empty()
    };
    let (model, ctx) = parse_ollama_ps(&Some(vec![e]));
    let model = model.unwrap();
    assert_eq!(model.name, Some("gemma-2-2b".to_string()));
    let ctx = ctx.unwrap();
    assert!(ctx.available);
    assert_eq!(ctx.used, Some(2048));
    assert_eq!(ctx.total, Some(8192));
}

#[test]
fn ollama_ps_context_total_only_when_no_loaded_tokens() {
    let e = OllamaPsEntry {
        name: Some("qwen".to_string()),
        context_length: Some(4096),
        ..OllamaPsEntry::empty()
    };
    let (_, ctx) = parse_ollama_ps(&Some(vec![e]));
    let c = ctx.unwrap();
    assert!(c.available);
    assert_eq!(c.total, Some(4096));
    assert_eq!(c.used, None, "loaded tokens unknown -> None, not 0");
}

#[test]
fn ollama_model_prefers_info_context_length() {
    let e = OllamaPsEntry {
        name: Some("m".to_string()),
        info_context_length: Some(1000),
        context_length: Some(2000),
        quantize_level: Some("Q4_K_M".to_string()),
        context: Some(1500),
    };
    let m = extract_ollama_model(&e);
    assert_eq!(m.context_size, Some(1000));
    assert_eq!(m.quantization.as_deref(), Some("Q4_K_M"));
    assert!(m.loaded);
    let (_, ctx) = parse_ollama_ps(&Some(vec![e]));
    assert_eq!(ctx.unwrap().remaining, Some(0));
    assert_eq!(parse_ollama_ps(&Some(vec![])), (None, None));
}

#[test]
fn cloud_model_reads_context_length() {
    let e = CloudModelEntry {
        id: Some(Some("gpt-4o-mini".to_string())),
        name: None,
        context_length: Some(Some(128000)),
        context_size: None,
    };
    let m = extract_cloud_model(&e);
    assert_eq!(m.name.as_deref(), Some("gpt-4o-mini"));
    assert_eq!(m.context_size, Some(128000));
    assert!(!m.loaded);
}

#[test]
fn cloud_model_without_context_length_has_no_size() {
    let e = CloudModelEntry {
        id: Some(Some("gpt-3.5-turbo".to_string())),
        name: None,
        context_length: None,
        context_size: None,
    };
    let m = extract_cloud_model(&e);
    assert_eq!(m.name.as_deref(), Some("gpt-3.5-turbo"));
    assert_eq!(m.context_size, None);
}

#[test]
fn cloud_model_non_string_id_hides_name() {
    let e = CloudModelEntry {
        id: Some(None),
        name: Some(Some("shadowed".to_string())),
        context_length: None,
        context_size: Some(Some(77)),
    };
    let m = extract_cloud_model(&e);
    assert_eq!(m.name, None);
    assert_eq!(m.context_size, Some(77));
}

#[test]
fn timestamp_ms_converts_elapsed_millis_and_zero_before_epoch() {
    assert_eq!(timestamp_ms(Some(1_700_000_000_123)), 1_700_000_000_123);
    assert_eq!(timestamp_ms(None), 0);
    assert_eq!(timestamp_ms(Some(1u128 << 63)), i64::MIN);
}
