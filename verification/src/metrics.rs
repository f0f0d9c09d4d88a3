//! The Prometheus text exposition format as the monitor reads it, and the
//! rules that turn metric readings into context and speed metrics.
//!
//! A metrics line looks like `name 123.4` or `name{label="x"} 45`: the
//! metric name ends at the first `{` or space, and the value is the first
//! whitespace-separated token after the first space. Reading the value as a
//! number is left to the application (the values are floating point).
use vstd::prelude::*;
use crate::text::{
    chars_of, contains, is_whitespace, is_ws, line_bounds, lines, occurs_at, string_of, trim,
    trim_bounds,
};
use crate::types::{sat_sub, ContextMetric, SpeedMetric};

verus! {

/// Which characters end a scan.
#[derive(Debug, Clone, Copy, PartialEq, Eq)]
pub enum Stop {
    /// `{` or a space: the end of a metric name.
    NameEnd,
    /// A space.
    Space,
    /// Any whitespace.
    Whitespace,
}

pub open spec fn is_stop(which: Stop, c: char) -> bool {
    match which {
        Stop::NameEnd => c == '{' || c == ' ',
        Stop::Space => c == ' ',
        Stop::Whitespace => is_ws(c),
    }
}

/// Index of the first character of `s` that ends a scan, or `s.len()`.
pub open spec fn stop_index(s: Seq<char>, which: Stop) -> int
    decreases s.len(),
{
    if s.len() == 0 {
        0
    } else if is_stop(which, s[0]) {
        0
    } else {
        1 + stop_index(s.drop_first(), which)
    }
}

proof fn lemma_stop_index_is(s: Seq<char>, which: Stop, m: int)
    requires
        0 <= m <= s.len(),
        forall|j: int| 0 <= j < m ==> !is_stop(which, s[j]),
        m < s.len() ==> is_stop(which, s[m]),
    ensures
        stop_index(s, which) == m,
    decreases m,
{
    if m > 0 {
        lemma_stop_index_is(s.drop_first(), which, m - 1);
    }
}

/// The first whitespace-separated token of `s` (empty when there is none).
pub open spec fn first_token(s: Seq<char>) -> Seq<char> {
    let u = trim(s);
    u.take(stop_index(u, Stop::Whitespace))
}

/// The metric name and value text a line holds, if any: blank lines,
/// `#` comments and lines without a space hold none.
pub open spec fn sample_of_line(l: Seq<char>) -> Option<(Seq<char>, Seq<char>)> {
    let t = trim(l);
    if t.len() == 0 || t[0] == '#' {
        None
    } else {
        let k = stop_index(t, Stop::Space);
        if k >= t.len() {
            None
        } else {
            Some((t.take(stop_index(t, Stop::NameEnd)), first_token(t.skip(k + 1))))
        }
    }
}

/// The samples of a sequence of lines, in order.
pub open spec fn samples_of(ls: Seq<Seq<char>>) -> Seq<(Seq<char>, Seq<char>)>
    decreases ls.len(),
{
    if ls.len() == 0 {
        Seq::empty()
    } else {
        let prev = samples_of(ls.drop_last());
        match sample_of_line(ls.last()) {
            Some(p) => prev.push(p),
            None => prev,
        }
    }
}

/// The samples of a metrics text (see [`sample_of_line`]).
pub open spec fn prometheus_samples_of(text: Seq<char>) -> Seq<(Seq<char>, Seq<char>)> {
    samples_of(lines(text))
}

/// One metric reading: the metric name (with any `llamacpp:` / `vllm:`
/// namespace prefix kept) and the text of its value.
#[derive(Debug, Clone, PartialEq, Eq)]
pub struct MetricSample {
    pub key: String,
    pub value_text: String,
}

fn stops(which: Stop, c: char) -> (b: bool)
    ensures
        b == is_stop(which, c),
{
    match which {
        Stop::NameEnd => c == '{' || c == ' ',
        Stop::Space => c == ' ',
        Stop::Whitespace => is_whitespace(c),
    }
}

/// The first position in `lo..hi` that ends a scan, or `hi`.
fn scan_to(v: &Vec<char>, lo: usize, hi: usize, which: Stop) -> (k: usize)
    requires
        lo <= hi <= v.len(),
    ensures
        lo <= k <= hi,
        k - lo == stop_index(v@.subrange(lo as int, hi as int), which),
{
    let mut k = lo;
    while k < hi && !stops(which, v[k])
        invariant
            lo <= k <= hi <= v.len(),
            forall|j: int| lo <= j < k ==> !is_stop(which, v@[j]),
        decreases hi - k,
    {
        k = k + 1;
    }
    proof {
        let s = v@.subrange(lo as int, hi as int);
        assert forall|j: int| 0 <= j < k - lo implies !is_stop(which, s[j]) by {
            assert(s[j] == v@[lo + j]);
        }
        if k < hi {
            assert(s[k - lo] == v@[k as int]);
        }
        lemma_stop_index_is(s, which, k - lo);
    }
    k
}

/// The sample of the line `v[lo..hi]`, as character ranges of `v`.
fn sample_bounds(v: &Vec<char>, lo: usize, hi: usize) -> (r: Option<(usize, usize, usize, usize)>)
    requires
        lo <= hi <= v.len(),
    ensures
        match r {
            Some((a, b, c, d)) => a <= b <= v.len() && c <= d <= v.len() && sample_of_line(
                v@.subrange(lo as int, hi as int),
            ) == Some((v@.subrange(a as int, b as int), v@.subrange(c as int, d as int))),
            None => sample_of_line(v@.subrange(lo as int, hi as int)) is None,
        },
{
    let ghost l = v@.subrange(lo as int, hi as int);
    let (a, b) = trim_bounds(v, lo, hi);
    let ghost t = v@.subrange(a as int, b as int);
    assert(t == trim(l));
    if a == b || v[a] == '#' {
        assert(a < b ==> t[0] == v@[a as int]);
        return None;
    }
    let k = scan_to(v, a, b, Stop::Space);
    if k >= b {
        return None;
    }
    let e = scan_to(v, a, b, Stop::NameEnd);
    assert(v@.subrange(a as int, e as int) =~= t.take(e - a));
    let (c0, d0) = trim_bounds(v, k + 1, b);
    assert(v@.subrange(k + 1, b as int) =~= t.skip(k - a + 1));
    let d = scan_to(v, c0, d0, Stop::Whitespace);
    assert(v@.subrange(c0 as int, d as int) =~= v@.subrange(c0 as int, d0 as int).take(d - c0));
    Some((a, e, c0, d))
}

/// Read the samples of a Prometheus metrics text, in line order.
pub fn prometheus_samples(text: &str) -> (r: Vec<MetricSample>)
    ensures
        r@.len() == prometheus_samples_of(text@).len(),
        forall|i: int|
            #![trigger r@[i]]
            0 <= i < r@.len() ==> r@[i].key@ == prometheus_samples_of(text@)[i].0
                && r@[i].value_text@ == prometheus_samples_of(text@)[i].1,
{
    let v = chars_of(text);
    let bounds = line_bounds(&v);
    let ghost ls = lines(v@);
    let mut out: Vec<MetricSample> = Vec::new();
    let mut i: usize = 0;
    while i < bounds.len()
        invariant
            i <= bounds.len() == ls.len(),
            ls == lines(v@),
            forall|j: int|
                #![trigger bounds@[j]]
                0 <= j < bounds@.len() ==> bounds@[j].0 <= bounds@[j].1 <= v@.len()
                    && v@.subrange(bounds@[j].0 as int, bounds@[j].1 as int) == ls[j],
            out@.len() == samples_of(ls.take(i as int)).len(),
            forall|j: int|
                #![trigger out@[j]]
                0 <= j < out@.len() ==> out@[j].key@ == samples_of(ls.take(i as int))[j].0
                    && out@[j].value_text@ == samples_of(ls.take(i as int))[j].1,
        decreases bounds.len() - i,
    {
        let (lo, hi) = bounds[i];
        assert(ls.take(i + 1).drop_last() =~= ls.take(i as int));
        assert(ls.take(i + 1).last() == ls[i as int]);
        let ghost before = out@;
        match sample_bounds(&v, lo, hi) {
            Some((a, b, c, d)) => {
                let key = string_of(&v.as_slice()[a..b]);
                let value_text = string_of(&v.as_slice()[c..d]);
                out.push(MetricSample { key, value_text });
                assert forall|j: int|
                    #![trigger out@[j]]
                    0 <= j < out@.len() implies out@[j].key@ == samples_of(ls.take(i + 1))[j].0
                        && out@[j].value_text@ == samples_of(ls.take(i + 1))[j].1 by {
                    if j < before.len() {
                        assert(out@[j] == before[j]);
                    }
                }
            },
            None => {},
        }
        i = i + 1;
    }
    assert(ls.take(i as int) =~= ls);
    out
}

/// The context metric of a total and a used token count: both known gives
/// the full metric; the total alone gives an available metric whose usage is
/// unknown; without the total nothing is known.
pub open spec fn context_of_counts(total: Option<u64>, used: Option<u64>) -> ContextMetric {
    match (total, used) {
        (Some(t), Some(u)) => ContextMetric {
            total: Some(t),
            used: Some(u),
            remaining: Some(sat_sub(t, u)),
            available: true,
        },
        (Some(t), None) => ContextMetric {
            total: Some(t),
            used: None,
            remaining: None,
            available: true,
        },
        _ => ContextMetric::unknown(),
    }
}

/// Build the context metric from the context counters a metrics text
/// publishes: the total and the used tokens, each when present.
pub fn context_from_counts(total: Option<u64>, used: Option<u64>) -> (r: ContextMetric)
    ensures
        r == context_of_counts(total, used),
        r.is_consistent(),
{
    match (total, used) {
        (Some(t), Some(u)) => ContextMetric {
            total: Some(t),
            used: Some(u),
            remaining: Some(t.saturating_sub(u)),
            available: true,
        },
        (Some(t), None) => ContextMetric {
            total: Some(t),
            used: None,
            remaining: None,
            available: true,
        },
        _ => ContextMetric::default(),
    }
}

/// Pair a prefill and a generation speed: both are reported as split
/// exactly when both have a current value.
pub fn pair_speeds<F>(prefill: SpeedMetric<F>, generation: SpeedMetric<F>) -> (r: (
    SpeedMetric<F>,
    SpeedMetric<F>,
))
    ensures
        r.0 == (SpeedMetric {
            split_available: prefill.current is Some && generation.current is Some,
            ..prefill
        }),
        r.1 == (SpeedMetric {
            split_available: prefill.current is Some && generation.current is Some,
            ..generation
        }),
{
    let split = prefill.current.is_some() && generation.current.is_some();
    (
        SpeedMetric { split_available: split, ..prefill },
        SpeedMetric { split_available: split, ..generation },
    )
}

/// The first present reading of a list (a metric looked up under each of
/// its known names, in order of preference).
pub open spec fn first_reading<F>(readings: Seq<Option<F>>) -> Option<F>
    decreases readings.len(),
{
    if readings.len() == 0 {
        None
    } else {
        match readings[0] {
            Some(v) => Some(v),
            None => first_reading(readings.skip(1)),
        }
    }
}

/// The reading under the first of a metric's names that the metrics publish.
pub fn first_found<F: Copy>(readings: &Vec<Option<F>>) -> (r: Option<F>)
    ensures
        r == first_reading(readings@),
{
    let mut i: usize = 0;
    assert(readings@.skip(0) =~= readings@);
    while i < readings.len()
        invariant
            i <= readings.len(),
            first_reading(readings@) == first_reading(readings@.skip(i as int)),
        decreases readings.len() - i,
    {
        assert(readings@.skip(i as int).skip(1) =~= readings@.skip(i + 1));
        match readings[i] {
            Some(v) => {
                return Some(v);
            },
            None => {},
        }
        i = i + 1;
    }
    None
}

/// A reading a metrics text may publish, under one of several names.
#[derive(Debug, Clone, Copy, PartialEq, Eq, Structural)]
pub enum MetricName {
    /// The total context size.
    ContextTotal,
    /// The used context.
    ContextUsed,
    /// The prefill rate gauge (tokens/sec).
    PrefillRate,
    /// The generation rate gauge (tokens/sec).
    GenerationRate,
    /// The prompt tokens counter.
    PrefillTokens,
    /// The prompt seconds counter.
    PrefillSeconds,
    /// The generated tokens counter.
    GenerationTokens,
    /// The generation seconds counter.
    GenerationSeconds,
    /// VLLM's used KV cache.
    VllmKvUsed,
    /// VLLM's KV cache size.
    VllmKvTotal,
    /// VLLM's time to first token (seconds).
    VllmFirstTokenLatency,
    /// VLLM's inter-token latency (seconds).
    VllmInterTokenLatency,
}

/// The names a reading is published under, in order of preference.
pub open spec fn names_of(m: MetricName) -> Seq<Seq<char>> {
    match m {
        MetricName::ContextTotal => seq!["llamacpp:ctx_mem_total"@, "ctx_mem_total"@, "llamacpp:context_total"@, "context_total"@, "llamacpp:ctx_total"@, "ctx_total"@],
        MetricName::ContextUsed => seq!["llamacpp:ctx_mem_used"@, "ctx_mem_used"@, "llamacpp:context_used"@, "context_used"@, "llamacpp:ctx_used"@, "ctx_used"@],
        MetricName::PrefillRate => seq!["llamacpp:prompt_tokens_seconds"@, "prompt_tokens_seconds"@, "prompt_tokens_per_second"@, "prefill_tokens_per_second"@],
        MetricName::GenerationRate => seq!["llamacpp:predicted_tokens_seconds"@, "predicted_tokens_seconds"@, "generation_tokens_per_second"@, "tokens_per_second"@],
        MetricName::PrefillTokens => seq!["llamacpp:prompt_tokens_total"@, "prompt_tokens_total"@],
        MetricName::PrefillSeconds => seq!["llamacpp:prompt_seconds_total"@, "prompt_seconds_total"@],
        MetricName::GenerationTokens => seq!["llamacpp:tokens_predicted_total"@, "tokens_predicted_total"@],
        MetricName::GenerationSeconds => seq!["llamacpp:tokens_predicted_seconds_total"@, "tokens_predicted_seconds_total"@],
        MetricName::VllmKvUsed => seq!["vllm:kv_cache_usage_sys"@, "vllm:kv_cache_used"@],
        MetricName::VllmKvTotal => seq!["vllm:kv_cache_usage_max"@, "vllm:kv_cache_max"@],
        MetricName::VllmFirstTokenLatency => seq!["vllm:time_to_first_token_seconds"@, "vllm:ttft_s"@],
        MetricName::VllmInterTokenLatency => seq!["vllm:inter_token_latency_seconds"@, "vllm:itl_s"@],
    }
}

/// The views of a list of names.
pub open spec fn name_views(v: Seq<&str>) -> Seq<Seq<char>> {
    v.map_values(|k: &str| k@)
}

/// The names `m` is published under, in order of preference.
pub fn metric_names(m: MetricName) -> (r: Vec<&'static str>)
    ensures
        name_views(r@) == names_of(m),
{
    let mut v: Vec<&'static str> = Vec::new();
    match m {
        MetricName::ContextTotal => {
            v.push("llamacpp:ctx_mem_total");
            v.push("ctx_mem_total");
            v.push("llamacpp:context_total");
            v.push("context_total");
            v.push("llamacpp:ctx_total");
            v.push("ctx_total");
            assert(name_views(v@) =~= names_of(m));
        },
        MetricName::ContextUsed => {
            v.push("llamacpp:ctx_mem_used");
            v.push("ctx_mem_used");
            v.push("llamacpp:context_used");
            v.push("context_used");
            v.push("llamacpp:ctx_used");
            v.push("ctx_used");
            assert(name_views(v@) =~= names_of(m));
        },
        MetricName::PrefillRate => {
            v.push("llamacpp:prompt_tokens_seconds");
            v.push("prompt_tokens_seconds");
            v.push("prompt_tokens_per_second");
            v.push("prefill_tokens_per_second");
            assert(name_views(v@) =~= names_of(m));
        },
        MetricName::GenerationRate => {
            v.push("llamacpp:predicted_tokens_seconds");
            v.push("predicted_tokens_seconds");
            v.push("generation_tokens_per_second");
            v.push("tokens_per_second");
            assert(name_views(v@) =~= names_of(m));
        },
        MetricName::PrefillTokens => {
            v.push("llamacpp:prompt_tokens_total");
            v.push("prompt_tokens_total");
            assert(name_views(v@) =~= names_of(m));
        },
        MetricName::PrefillSeconds => {
            v.push("llamacpp:prompt_seconds_total");
            v.push("prompt_seconds_total");
            assert(name_views(v@) =~= names_of(m));
        },
        MetricName::GenerationTokens => {
            v.push("llamacpp:tokens_predicted_total");
            v.push("tokens_predicted_total");
            assert(name_views(v@) =~= names_of(m));
        },
        MetricName::GenerationSeconds => {
            v.push("llamacpp:tokens_predicted_seconds_total");
            v.push("tokens_predicted_seconds_total");
            assert(name_views(v@) =~= names_of(m));
        },
        MetricName::VllmKvUsed => {
            v.push("vllm:kv_cache_usage_sys");
            v.push("vllm:kv_cache_used");
            assert(name_views(v@) =~= names_of(m));
        },
        MetricName::VllmKvTotal => {
            v.push("vllm:kv_cache_usage_max");
            v.push("vllm:kv_cache_max");
            assert(name_views(v@) =~= names_of(m));
        },
        MetricName::VllmFirstTokenLatency => {
            v.push("vllm:time_to_first_token_seconds");
            v.push("vllm:ttft_s");
            assert(name_views(v@) =~= names_of(m));
        },
        MetricName::VllmInterTokenLatency => {
            v.push("vllm:inter_token_latency_seconds");
            v.push("vllm:itl_s");
            assert(name_views(v@) =~= names_of(m));
        },
    }
    v
}

/// Each reading is looked up under names of its own phase and kind: the
/// prefill names speak of the prompt (or prefill), the generation names of
/// predicted (or generated) tokens, the context names of the total or the
/// used context; the prefill and the generation rate gauges share no name,
/// and each list starts with llama.cpp's own gauge.
pub proof fn lemma_metric_names_match_their_reading()
    ensures
        names_of(MetricName::PrefillRate)[0] == "llamacpp:prompt_tokens_seconds"@,
        names_of(MetricName::GenerationRate)[0] == "llamacpp:predicted_tokens_seconds"@,
        forall|i: int| 0 <= i < names_of(MetricName::PrefillRate).len() ==> (contains(#[trigger] names_of(MetricName::PrefillRate)[i], "prompt"@) || contains(#[trigger] names_of(MetricName::PrefillRate)[i], "prefill"@)),
        forall|i: int| 0 <= i < names_of(MetricName::GenerationRate).len() ==> (contains(#[trigger] names_of(MetricName::GenerationRate)[i], "predicted"@) || contains(#[trigger] names_of(MetricName::GenerationRate)[i], "generation"@) || #[trigger] names_of(MetricName::GenerationRate)[i] == "tokens_per_second"@),
        forall|i: int| 0 <= i < names_of(MetricName::PrefillTokens).len() ==> (contains(#[trigger] names_of(MetricName::PrefillTokens)[i], "prompt"@)),
        forall|i: int| 0 <= i < names_of(MetricName::PrefillSeconds).len() ==> (contains(#[trigger] names_of(MetricName::PrefillSeconds)[i], "prompt"@)),
        forall|i: int| 0 <= i < names_of(MetricName::GenerationTokens).len() ==> (contains(#[trigger] names_of(MetricName::GenerationTokens)[i], "predicted"@)),
        forall|i: int| 0 <= i < names_of(MetricName::GenerationSeconds).len() ==> (contains(#[trigger] names_of(MetricName::GenerationSeconds)[i], "predicted"@)),
        forall|i: int| 0 <= i < names_of(MetricName::ContextTotal).len() ==> (contains(#[trigger] names_of(MetricName::ContextTotal)[i], "total"@)),
        forall|i: int| 0 <= i < names_of(MetricName::ContextUsed).len() ==> (contains(#[trigger] names_of(MetricName::ContextUsed)[i], "used"@)),
        forall|i: int, j: int| 0 <= i < names_of(MetricName::PrefillRate).len() && 0 <= j < names_of(MetricName::GenerationRate).len() ==> #[trigger] names_of(MetricName::PrefillRate)[i] != #[trigger] names_of(MetricName::GenerationRate)[j],
{
    reveal_strlit("context_total");
    reveal_strlit("context_used");
    reveal_strlit("ctx_mem_total");
    reveal_strlit("ctx_mem_used");
    reveal_strlit("ctx_total");
    reveal_strlit("ctx_used");
    reveal_strlit("generation");
    reveal_strlit("generation_tokens_per_second");
    reveal_strlit("llamacpp:context_total");
    reveal_strlit("llamacpp:context_used");
    reveal_strlit("llamacpp:ctx_mem_total");
    reveal_strlit("llamacpp:ctx_mem_used");
    reveal_strlit("llamacpp:ctx_total");
    reveal_strlit("llamacpp:ctx_used");
    reveal_strlit("llamacpp:predicted_tokens_seconds");
    reveal_strlit("llamacpp:prompt_seconds_total");
    reveal_strlit("llamacpp:prompt_tokens_seconds");
    reveal_strlit("llamacpp:prompt_tokens_total");
    reveal_strlit("llamacpp:tokens_predicted_seconds_total");
    reveal_strlit("llamacpp:tokens_predicted_total");
    reveal_strlit("predicted");
    reveal_strlit("predicted_tokens_seconds");
    reveal_strlit("prefill");
    reveal_strlit("prefill_tokens_per_second");
    reveal_strlit("prompt");
    reveal_strlit("prompt_seconds_total");
    reveal_strlit("prompt_tokens_per_second");
    reveal_strlit("prompt_tokens_seconds");
    reveal_strlit("prompt_tokens_total");
    reveal_strlit("tokens_per_second");
    reveal_strlit("tokens_predicted_seconds_total");
    reveal_strlit("tokens_predicted_total");
    reveal_strlit("total");
    reveal_strlit("used");
    let s = names_of(MetricName::PrefillRate);
    assert forall|i: int| 0 <= i < s.len() implies (contains(s[i], "prompt"@) || contains(s[i], "prefill"@)) by {
        if i == 0 {
            assert(s[i].subrange(9, 15) =~= "prompt"@);
            assert(occurs_at(s[i], "prompt"@, 9));
        }
        if i == 1 {
            assert(s[i].subrange(0, 6) =~= "prompt"@);
            assert(occurs_at(s[i], "prompt"@, 0));
        }
        if i == 2 {
            assert(s[i].subrange(0, 6) =~= "prompt"@);
            assert(occurs_at(s[i], "prompt"@, 0));
        }
        if i == 3 {
            assert(s[i].subrange(0, 7) =~= "prefill"@);
            assert(occurs_at(s[i], "prefill"@, 0));
        }
    }
    let s = names_of(MetricName::GenerationRate);
    assert forall|i: int| 0 <= i < s.len() implies (contains(s[i], "predicted"@) || contains(s[i], "generation"@) || s[i] == "tokens_per_second"@) by {
        if i == 0 {
            assert(s[i].subrange(9, 18) =~= "predicted"@);
            assert(occurs_at(s[i], "predicted"@, 9));
        }
        if i == 1 {
            assert(s[i].subrange(0, 9) =~= "predicted"@);
            assert(occurs_at(s[i], "predicted"@, 0));
        }
        if i == 2 {
            assert(s[i].subrange(0, 10) =~= "generation"@);
            assert(occurs_at(s[i], "generation"@, 0));
        }
        if i == 3 { assert(s[i] == "tokens_per_second"@); }
    }
    let s = names_of(MetricName::PrefillTokens);
    assert forall|i: int| 0 <= i < s.len() implies (contains(s[i], "prompt"@)) by {
        if i == 0 {
            assert(s[i].subrange(9, 15) =~= "prompt"@);
            assert(occurs_at(s[i], "prompt"@, 9));
        }
        if i == 1 {
            assert(s[i].subrange(0, 6) =~= "prompt"@);
            assert(occurs_at(s[i], "prompt"@, 0));
        }
    }
    let s = names_of(MetricName::PrefillSeconds);
    assert forall|i: int| 0 <= i < s.len() implies (contains(s[i], "prompt"@)) by {
        if i == 0 {
            assert(s[i].subrange(9, 15) =~= "prompt"@);
            assert(occurs_at(s[i], "prompt"@, 9));
        }
        if i == 1 {
            assert(s[i].subrange(0, 6) =~= "prompt"@);
            assert(occurs_at(s[i], "prompt"@, 0));
        }
    }
    let s = names_of(MetricName::GenerationTokens);
    assert forall|i: int| 0 <= i < s.len() implies (contains(s[i], "predicted"@)) by {
        if i == 0 {
            assert(s[i].subrange(16, 25) =~= "predicted"@);
            assert(occurs_at(s[i], "predicted"@, 16));
        }
        if i == 1 {
            assert(s[i].subrange(7, 16) =~= "predicted"@);
            assert(occurs_at(s[i], "predicted"@, 7));
        }
    }
    let s = names_of(MetricName::GenerationSeconds);
    assert forall|i: int| 0 <= i < s.len() implies (contains(s[i], "predicted"@)) by {
        if i == 0 {
            assert(s[i].subrange(16, 25) =~= "predicted"@);
            assert(occurs_at(s[i], "predicted"@, 16));
        }
        if i == 1 {
            assert(s[i].subrange(7, 16) =~= "predicted"@);
            assert(occurs_at(s[i], "predicted"@, 7));
        }
    }
    let s = names_of(MetricName::ContextTotal);
    assert forall|i: int| 0 <= i < s.len() implies (contains(s[i], "total"@)) by {
        if i == 0 {
            assert(s[i].subrange(17, 22) =~= "total"@);
            assert(occurs_at(s[i], "total"@, 17));
        }
        if i == 1 {
            assert(s[i].subrange(8, 13) =~= "total"@);
            assert(occurs_at(s[i], "total"@, 8));
        }
        if i == 2 {
            assert(s[i].subrange(17, 22) =~= "total"@);
            assert(occurs_at(s[i], "total"@, 17));
        }
        if i == 3 {
            assert(s[i].subrange(8, 13) =~= "total"@);
            assert(occurs_at(s[i], "total"@, 8));
        }
        if i == 4 {
            assert(s[i].subrange(13, 18) =~= "total"@);
            assert(occurs_at(s[i], "total"@, 13));
        }
        if i == 5 {
            assert(s[i].subrange(4, 9) =~= "total"@);
            assert(occurs_at(s[i], "total"@, 4));
        }
    }
    let s = names_of(MetricName::ContextUsed);
    assert forall|i: int| 0 <= i < s.len() implies (contains(s[i], "used"@)) by {
        if i == 0 {
            assert(s[i].subrange(17, 21) =~= "used"@);
            assert(occurs_at(s[i], "used"@, 17));
        }
        if i == 1 {
            assert(s[i].subrange(8, 12) =~= "used"@);
            assert(occurs_at(s[i], "used"@, 8));
        }
        if i == 2 {
            assert(s[i].subrange(17, 21) =~= "used"@);
            assert(occurs_at(s[i], "used"@, 17));
        }
        if i == 3 {
            assert(s[i].subrange(8, 12) =~= "used"@);
            assert(occurs_at(s[i], "used"@, 8));
        }
        if i == 4 {
            assert(s[i].subrange(13, 17) =~= "used"@);
            assert(occurs_at(s[i], "used"@, 13));
        }
        if i == 5 {
            assert(s[i].subrange(4, 8) =~= "used"@);
            assert(occurs_at(s[i], "used"@, 4));
        }
    }
    let p = names_of(MetricName::PrefillRate);
    let g = names_of(MetricName::GenerationRate);
    assert forall|i: int, j: int| 0 <= i < p.len() && 0 <= j < g.len() implies #[trigger] p[i] != #[trigger] g[j] by {
        if p[i] == g[j] {
            assert(p[i][2] == g[j][2]);
            assert(p[i].len() == g[j].len());
        }
    }
}

} // verus!
