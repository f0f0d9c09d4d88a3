//! Data adapters: turn what the different inference servers report into the
//! monitor's domain types.
//!
//! Different llama.cpp builds (and vLLM, Ollama, OpenAI-compatible clouds)
//! expose different fields, so each adapter tolerates missing fields and
//! reports what it could extract. The adapters read the server replies
//! through the plain reply types below; the application fills those from the
//! JSON it receives.
use vstd::prelude::*;
use std::time::{Duration, SystemTime, SystemTimeError};
use crate::text::{chars_of, contains, contains_chars, host_port, push_host_port, string_of};
use crate::types::{clone_text, sat_sub, ContextMetric, ModelMetric, ServerKind};

verus! {

/// `a`, or `b` when `a` is `None` (`Option::or`).
pub open spec fn or_opt<T>(a: Option<T>, b: Option<T>) -> Option<T> {
    match a {
        Some(x) => Some(x),
        None => b,
    }
}

/// The text, unless it is empty.
pub open spec fn nonempty(t: Option<String>) -> Option<String> {
    match t {
        Some(s) => if s@.len() > 0 { Some(s) } else { None },
        None => None,
    }
}

/// The number, unless it is zero.
pub open spec fn positive(n: Option<u64>) -> Option<u64> {
    match n {
        Some(v) => if v > 0 { Some(v) } else { None },
        None => None,
    }
}

fn first_text(a: &Option<String>, b: &Option<String>) -> (r: Option<String>)
    ensures
        r == or_opt(*a, *b),
{
    match a {
        Some(s) => Some(s.clone()),
        None => clone_text(b),
    }
}

fn nonempty_text(t: &Option<String>) -> (r: Option<String>)
    ensures
        r == nonempty(*t),
{
    match t {
        Some(s) => if s.as_str().is_empty() { None } else { Some(s.clone()) },
        None => None,
    }
}

/// Models list (`GET /v1/models`, llama.cpp flavour).
#[derive(Debug, Clone, PartialEq, Eq)]
pub struct ModelsResponse {
    pub models: Option<Vec<ModelEntry>>,
}

/// One entry of a models list.
#[derive(Debug, Clone, PartialEq, Eq)]
pub struct ModelEntry {
    pub id: Option<String>,
    pub name: Option<String>,
    pub model: Option<String>,
    pub path: Option<String>,
    pub content_type: Option<String>,
    pub n_ctx: Option<u64>,
    /// OpenAI-compatible `/v1/models` reports the context window as
    /// `context_length` (not `n_ctx`); cloud providers only populate this field.
    pub context_length: Option<u64>,
    pub loaded: Option<bool>,
}

impl ModelEntry {
    /// An entry with no field present.
    pub fn empty() -> (r: ModelEntry)
        ensures
            r.id is None && r.name is None && r.model is None && r.path is None,
            r.content_type is None && r.n_ctx is None && r.context_length is None,
            r.loaded is None,
    {
        ModelEntry {
            id: None,
            name: None,
            model: None,
            path: None,
            content_type: None,
            n_ctx: None,
            context_length: None,
            loaded: None,
        }
    }
}

/// The model name an entry advertises: `id`, else `name`, else `model`.
pub open spec fn entry_name(e: ModelEntry) -> Option<String> {
    or_opt(or_opt(e.id, e.name), e.model)
}

/// The model metric read from an entry of a models list.
pub open spec fn models_list_metric(e: ModelEntry) -> ModelMetric {
    ModelMetric {
        name: entry_name(e),
        context_size: e.n_ctx,
        loaded: e.loaded == Some(true),
        quantization: e.content_type,
        path: e.path,
        version: None,
    }
}

/// The index of the first entry at or after `i` that is reported loaded,
/// or the length of the list when there is none.
pub open spec fn loaded_index(v: Seq<ModelEntry>, i: int) -> int
    decreases v.len() - i,
{
    if i < 0 || i >= v.len() {
        v.len() as int
    } else if v[i].loaded == Some(true) {
        i
    } else {
        loaded_index(v, i + 1)
    }
}

/// The entry a models list describes the model by: the first loaded
/// entry, else the first entry.
pub open spec fn preferred_entry(v: Seq<ModelEntry>) -> ModelEntry {
    let k = loaded_index(v, 0);
    if k < v.len() {
        v[k]
    } else {
        v[0]
    }
}

/// The model metric of a models list entry.
fn list_entry_metric(m: &ModelEntry) -> (r: ModelMetric)
    ensures
        r == models_list_metric(*m),
{
    ModelMetric {
        name: first_text(&first_text(&m.id, &m.name), &m.model),
        context_size: m.n_ctx,
        loaded: match m.loaded {
            Some(b) => b,
            None => false,
        },
        quantization: clone_text(&m.content_type),
        path: clone_text(&m.path),
        version: None,
    }
}

/// Extract model info from a models response: the first loaded entry,
/// else the first entry, or nothing known when the list is absent or empty.
pub fn extract_model(models: &ModelsResponse) -> (r: ModelMetric)
    ensures
        r == (match models.models {
            Some(v) => if v@.len() > 0 {
                models_list_metric(preferred_entry(v@))
            } else {
                ModelMetric::unknown()
            },
            None => ModelMetric::unknown(),
        }),
{
    match &models.models {
        Some(v) => {
            if v.len() > 0 {
                let mut i: usize = 0;
                while i < v.len()
                    invariant
                        i <= v.len(),
                        loaded_index(v@, 0) == loaded_index(v@, i as int),
                    ensures
                        i <= v.len(),
                        loaded_index(v@, 0) == loaded_index(v@, i as int),
                        i < v.len() ==> v@[i as int].loaded == Some(true),
                    decreases v.len() - i,
                {
                    let is_loaded = match v[i].loaded {
                        Some(b) => b,
                        None => false,
                    };
                    if is_loaded {
                        break;
                    }
                    i = i + 1;
                }
                if i < v.len() {
                    list_entry_metric(&v[i])
                } else {
                    list_entry_metric(&v[0])
                }
            } else {
                ModelMetric::default()
            }
        },
        None => ModelMetric::default(),
    }
}

/// The model metric of one `/v1/models` entry.
pub open spec fn entry_metric(e: ModelEntry) -> ModelMetric {
    ModelMetric { context_size: or_opt(e.n_ctx, e.context_length), ..models_list_metric(e) }
}

/// Extract model info from one OpenAI `/v1/models` entry: like
/// [`extract_model`], but the context window falls back to `context_length`.
pub fn extract_model_entry_metric(entry: &ModelEntry) -> (r: ModelMetric)
    ensures
        r == entry_metric(*entry),
{
    ModelMetric {
        name: first_text(&first_text(&entry.id, &entry.name), &entry.model),
        context_size: match entry.n_ctx {
            Some(n) => Some(n),
            None => entry.context_length,
        },
        loaded: match entry.loaded {
            Some(b) => b,
            None => false,
        },
        quantization: clone_text(&entry.content_type),
        path: clone_text(&entry.path),
        version: None,
    }
}

/// Legacy nested `llama` object of `/props`.
#[derive(Debug, Clone, PartialEq, Eq)]
pub struct LlamaProps {
    pub model: Option<String>,
    pub context: Option<u64>,
    pub quantization: Option<String>,
}

/// Legacy nested `server` object of `/props`.
#[derive(Debug, Clone, PartialEq, Eq)]
pub struct ServerProps {
    pub hostname: Option<String>,
    pub port: Option<u16>,
    pub model: Option<String>,
    pub version: Option<String>,
}

/// Server properties (`GET /props`). Modern llama.cpp builds return a flat
/// object; older builds nest the same data under `llama` / `server`. The
/// flat fields hold the values of the keys of the same name when they have
/// the expected JSON type, and `None` otherwise.
#[derive(Debug, Clone, PartialEq, Eq)]
pub struct PropsResponse {
    pub llama: Option<LlamaProps>,
    pub server: Option<ServerProps>,
    /// `model_alias` (string).
    pub model_alias: Option<String>,
    /// `model_path` (string).
    pub model_path: Option<String>,
    /// `model_ftype` (string), e.g. `Q4_0`.
    pub model_ftype: Option<String>,
    /// `default_generation_settings.n_ctx` (unsigned integer).
    pub generation_n_ctx: Option<u64>,
    /// Top-level `n_ctx` (unsigned integer).
    pub n_ctx: Option<u64>,
    /// `build_info` when it is a string.
    pub build_info: Option<String>,
    /// `build_info.build_number` when `build_info` is an object holding that string.
    pub build_number: Option<String>,
}

impl PropsResponse {
    /// A response with no field present (`{}`).
    pub fn empty() -> (r: PropsResponse)
        ensures
            r.llama is None && r.server is None && r.model_alias is None,
            r.model_path is None && r.model_ftype is None && r.generation_n_ctx is None,
            r.n_ctx is None && r.build_info is None && r.build_number is None,
    {
        PropsResponse {
            llama: None,
            server: None,
            model_alias: None,
            model_path: None,
            model_ftype: None,
            generation_n_ctx: None,
            n_ctx: None,
            build_info: None,
            build_number: None,
        }
    }
}

pub open spec fn llama_model(p: PropsResponse) -> Option<String> {
    match p.llama { Some(l) => l.model, None => None }
}

pub open spec fn llama_context(p: PropsResponse) -> Option<u64> {
    match p.llama { Some(l) => l.context, None => None }
}

pub open spec fn llama_quantization(p: PropsResponse) -> Option<String> {
    match p.llama { Some(l) => l.quantization, None => None }
}

pub open spec fn server_model(p: PropsResponse) -> Option<String> {
    match p.server { Some(s) => s.model, None => None }
}

pub open spec fn server_version(p: PropsResponse) -> Option<String> {
    match p.server { Some(s) => s.version, None => None }
}

/// The model metric `/props` describes: the flat modern fields first, the
/// legacy nested ones as fallbacks; empty names and zero sizes count as absent.
pub open spec fn props_model(p: PropsResponse) -> ModelMetric {
    ModelMetric {
        name: or_opt(
            or_opt(or_opt(nonempty(p.model_alias), nonempty(p.model_path)), llama_model(p)),
            server_model(p),
        ),
        context_size: or_opt(or_opt(positive(p.generation_n_ctx), positive(p.n_ctx)), llama_context(p)),
        loaded: true,
        quantization: or_opt(nonempty(p.model_ftype), llama_quantization(p)),
        path: p.model_path,
        version: or_opt(or_opt(p.build_info, p.build_number), server_version(p)),
    }
}

/// Extract model info from server props.
pub fn extract_model_from_props(props: &PropsResponse) -> (r: ModelMetric)
    ensures
        r == props_model(*props),
{
    let (llama_model, llama_context, llama_quant) = match &props.llama {
        Some(l) => (clone_text(&l.model), l.context, clone_text(&l.quantization)),
        None => (None, None, None),
    };
    let (server_model, server_version) = match &props.server {
        Some(s) => (clone_text(&s.model), clone_text(&s.version)),
        None => (None, None),
    };
    let name = first_text(
        &first_text(&first_text(&nonempty_text(&props.model_alias), &nonempty_text(&props.model_path)), &llama_model),
        &server_model,
    );
    let gen_ctx = match props.generation_n_ctx {
        Some(n) => if n > 0 { Some(n) } else { None },
        None => None,
    };
    let flat_ctx = match props.n_ctx {
        Some(n) => if n > 0 { Some(n) } else { None },
        None => None,
    };
    let context_size = match gen_ctx {
        Some(n) => Some(n),
        None => match flat_ctx {
            Some(n) => Some(n),
            None => llama_context,
        },
    };
    let quantization = first_text(&nonempty_text(&props.model_ftype), &llama_quant);
    let version = first_text(&first_text(&props.build_info, &props.build_number), &server_version);
    ModelMetric {
        name,
        context_size,
        loaded: true,
        quantization,
        path: clone_text(&props.model_path),
        version,
    }
}

/// The name `/props` gives the model: a non-empty `model_alias` is the
/// canonical name; `model_path` names the model only when there is no
/// non-empty alias; the legacy nested names only when neither flat field has
/// text.
pub proof fn lemma_props_name_prefers_alias(p: PropsResponse, r: ModelMetric)
    requires
        r == props_model(p),
    ensures
        p.model_alias matches Some(a) && a@.len() > 0 ==> r.name == p.model_alias,
        !(p.model_alias matches Some(a) && a@.len() > 0) && (p.model_path matches Some(m)
            && m@.len() > 0) ==> r.name == p.model_path,
        !(p.model_alias matches Some(a) && a@.len() > 0) && !(p.model_path matches Some(m)
            && m@.len() > 0) ==> r.name == (match p.llama {
            Some(l) if l.model is Some => l.model,
            _ => match p.server {
                Some(sv) => sv.model,
                None => None,
            },
        }),
        r.path == p.model_path,
        r.loaded,
{
}

/// `existing` with every field `incoming` provides replaced by it; `loaded` is OR-ed.
pub open spec fn merged(existing: ModelMetric, incoming: ModelMetric) -> ModelMetric {
    ModelMetric {
        name: or_opt(incoming.name, existing.name),
        context_size: or_opt(incoming.context_size, existing.context_size),
        loaded: existing.loaded || incoming.loaded,
        quantization: or_opt(incoming.quantization, existing.quantization),
        path: or_opt(incoming.path, existing.path),
        version: or_opt(incoming.version, existing.version),
    }
}

/// Merge model info from a higher-priority source into an existing metric.
///
/// `incoming` wins for any field it actually provides; fields it leaves as
/// `None` keep the existing value. `loaded` is OR-ed, so a model reported
/// loaded by either source counts as loaded.
pub fn merge_model(existing: &mut ModelMetric, incoming: ModelMetric)
    ensures
        *final(existing) == merged(*old(existing), incoming),
{
    if incoming.name.is_some() {
        existing.name = incoming.name;
    }
    if incoming.context_size.is_some() {
        existing.context_size = incoming.context_size;
    }
    if incoming.quantization.is_some() {
        existing.quantization = incoming.quantization;
    }
    if incoming.path.is_some() {
        existing.path = incoming.path;
    }
    if incoming.version.is_some() {
        existing.version = incoming.version;
    }
    existing.loaded = existing.loaded || incoming.loaded;
}

/// Merging in a source that provides nothing changes nothing.
pub proof fn lemma_merge_nothing_is_identity(m: ModelMetric)
    ensures
        merged(m, ModelMetric::unknown()) == m,
{
}

/// Merging the same source twice is the same as merging it once.
pub proof fn lemma_merge_idempotent(m: ModelMetric, incoming: ModelMetric)
    ensures
        merged(merged(m, incoming), incoming) == merged(m, incoming),
{
}

/// Every value `incoming` provides survives the merge unchanged.
pub proof fn lemma_merge_incoming_wins(m: ModelMetric, incoming: ModelMetric)
    ensures
        incoming.name is Some ==> merged(m, incoming).name == incoming.name,
        incoming.context_size is Some ==> merged(m, incoming).context_size == incoming.context_size,
        incoming.quantization is Some ==> merged(m, incoming).quantization == incoming.quantization,
        incoming.path is Some ==> merged(m, incoming).path == incoming.path,
        incoming.version is Some ==> merged(m, incoming).version == incoming.version,
        incoming.loaded ==> merged(m, incoming).loaded,
{
}

/// The label `/props` gives the server: `hostname:port` (or the bare host
/// name without a port) from the legacy `server` object, else its model.
pub open spec fn server_label_of(p: PropsResponse) -> Option<Seq<char>> {
    match p.server {
        Some(s) => match s.hostname {
            Some(h) => match s.port {
                Some(port) => Some(host_port(h@, port as nat)),
                None => Some(h@),
            },
            None => match s.model {
                Some(m) => Some(m@),
                None => None,
            },
        },
        None => None,
    }
}

/// Extract server label from props. Modern builds have no `server` object;
/// the caller then falls back to `host:port` of its own settings.
pub fn extract_server_label(props: &PropsResponse) -> (r: Option<String>)
    ensures
        match r {
            Some(s) => server_label_of(*props) == Some(s@),
            None => server_label_of(*props) is None,
        },
{
    match &props.server {
        Some(s) => match &s.hostname {
            Some(h) => match s.port {
                Some(p) => {
                    let mut out: Vec<char> = Vec::new();
                    push_host_port(&mut out, h.as_str(), p);
                    assert(out@ =~= host_port(h@, p as nat));
                    Some(string_of(out.as_slice()))
                },
                None => Some(h.clone()),
            },
            None => clone_text(&s.model),
        },
        None => None,
    }
}

#[verifier::external_type_specification]
#[verifier::external_body]
pub struct ExSystemTime(SystemTime);

#[verifier::external_type_specification]
#[verifier::external_body]
pub struct ExSystemTimeError(SystemTimeError);

/// `SystemTime::now`: the system clock, nothing promised of it.
#[verifier::external_body]
fn system_now() -> SystemTime {
    SystemTime::now()
}

/// `SystemTime::duration_since(UNIX_EPOCH)`: the time since the Unix epoch,
/// or an error when the clock reads earlier; nothing promised of either.
#[verifier::external_body]
fn since_unix_epoch(t: &SystemTime) -> Result<Duration, SystemTimeError> {
    t.duration_since(std::time::UNIX_EPOCH)
}

/// `Duration::as_millis`: whole milliseconds of a duration (opaque here).
#[verifier::external_body]
fn whole_millis(d: &Duration) -> u128 {
    d.as_millis()
}

/// The timestamp for a clock reading: the whole milliseconds since the Unix
/// epoch, converted to `i64` as `as` converts (wrapping past `i64::MAX`), or
/// 0 when the clock read before the epoch (`None`).
pub open spec fn timestamp_of(elapsed_ms: Option<u128>) -> i64 {
    match elapsed_ms {
        Some(m) => m as i64,
        None => 0,
    }
}

/// The timestamp for the milliseconds elapsed since the Unix epoch, if the
/// clock read after it.
pub fn timestamp_ms(elapsed_ms: Option<u128>) -> (r: i64)
    ensures
        r == timestamp_of(elapsed_ms),
{
    match elapsed_ms {
        Some(m) => m as i64,
        None => 0,
    }
}

/// Current time as a Unix timestamp in milliseconds; 0 when the clock reads
/// before the epoch (see [`timestamp_ms`]). The value depends on the clock:
/// nothing is promised of it.
pub fn now_ms() -> i64 {
    let elapsed = match since_unix_epoch(&system_now()) {
        Ok(d) => Some(whole_millis(&d)),
        Err(_) => None,
    };
    timestamp_ms(elapsed)
}

/// The engine a metrics text comes from, by its metric namespace:
/// `vllm:` means vLLM (checked first), `llamacpp:` means llama.cpp.
pub open spec fn metrics_kind(text: Seq<char>) -> Option<ServerKind> {
    if contains(text, "vllm:"@) {
        Some(ServerKind::Vllm)
    } else if contains(text, "llamacpp:"@) {
        Some(ServerKind::Local)
    } else {
        None
    }
}

/// Detect the upstream engine from a raw Prometheus metrics text.
pub fn detect_kind_from_metrics(text: &str) -> (r: Option<ServerKind>)
    ensures
        r == metrics_kind(text@),
{
    let t = chars_of(text);
    if contains_chars(&t, &chars_of("vllm:")) {
        Some(ServerKind::Vllm)
    } else if contains_chars(&t, &chars_of("llamacpp:")) {
        Some(ServerKind::Local)
    } else {
        None
    }
}

/// `a + b` capped at `u64::MAX` (`u64::saturating_add`).
pub open spec fn sat_add(a: u64, b: u64) -> u64 {
    if a + b > u64::MAX {
        u64::MAX
    } else {
        (a + b) as u64
    }
}

/// The `timings` object of a `/slots` entry (present in some recent builds).
#[derive(Debug, Clone, Copy, PartialEq)]
pub struct SlotTimings<F> {
    /// `prompt_per_second`, prefill tok/s.
    pub prompt_per_second: Option<F>,
    /// `predicted_per_second`, generation tok/s.
    pub predicted_per_second: Option<F>,
}

/// One entry of the llama.cpp `/slots` array, as far as the monitor reads it.
/// Idle slots carry only `id` / `n_ctx` / `is_processing`; used slots add the
/// token counters. A slot keeps its counters after generation ends.
#[derive(Debug, Clone, Copy, PartialEq)]
pub struct SlotReport<F> {
    /// `n_ctx` (unsigned integer).
    pub n_ctx: Option<u64>,
    /// `is_processing` (boolean).
    pub is_processing: Option<bool>,
    /// `n_prompt_tokens`: the planned prompt size.
    pub n_prompt_tokens: Option<u64>,
    /// `n_prompt_tokens_processed`.
    pub n_prompt_tokens_processed: Option<u64>,
    /// `n_decoded`.
    pub n_decoded: Option<u64>,
    /// `next_token.n_decoded` (when `next_token` is an object holding it).
    pub next_token_n_decoded: Option<u64>,
    /// `timings`, when the key is present.
    pub timings: Option<SlotTimings<F>>,
}

impl<F> SlotReport<F> {
    /// A slot with no field present.
    pub fn blank() -> (r: SlotReport<F>)
        ensures
            r.n_ctx is None && r.is_processing is None && r.n_prompt_tokens is None,
            r.n_prompt_tokens_processed is None && r.n_decoded is None,
            r.next_token_n_decoded is None && r.timings is None,
    {
        SlotReport {
            n_ctx: None,
            is_processing: None,
            n_prompt_tokens: None,
            n_prompt_tokens_processed: None,
            n_decoded: None,
            next_token_n_decoded: None,
            timings: None,
        }
    }
}

/// Information extracted from the `/slots` endpoint.
#[derive(Debug, Clone, Copy, PartialEq)]
pub struct SlotsInfo<F> {
    /// Context usage of the slots (used vs. total).
    pub context: ContextMetric,
    /// Prefill speed reported by a slot's timings (tok/s).
    pub prefill_speed: Option<F>,
    /// Generation speed reported by a slot's timings (tok/s).
    pub generation_speed: Option<F>,
    /// Context size (`n_ctx`) advertised by the slots.
    pub context_size: Option<u64>,
    /// Whether at least one slot is actively processing.
    pub active: bool,
}

impl<F> SlotsInfo<F> {
    pub open spec fn nothing() -> SlotsInfo<F> {
        SlotsInfo {
            context: ContextMetric::unknown(),
            prefill_speed: None,
            generation_speed: None,
            context_size: None,
            active: false,
        }
    }
}

impl<F: Copy> SlotsInfo<F> {
    /// Returns the context metric if the slots yielded any usable numbers.
    pub fn context_opt(&self) -> (r: Option<ContextMetric>)
        ensures
            r == (if self.context.available { Some(self.context) } else { None }),
    {
        if self.context.available {
            Some(self.context)
        } else {
            None
        }
    }
}

/// Prompt tokens of a slot: the planned size, else the processed count.
pub open spec fn slot_prompt<F>(s: SlotReport<F>) -> Option<u64> {
    or_opt(s.n_prompt_tokens, s.n_prompt_tokens_processed)
}

/// Decoded tokens of a slot: `n_decoded`, else `next_token.n_decoded`.
pub open spec fn slot_decoded<F>(s: SlotReport<F>) -> Option<u64> {
    or_opt(s.n_decoded, s.next_token_n_decoded)
}

/// Tokens a slot occupies (prompt + decoded); slots without a prompt count
/// none.
pub open spec fn slot_footprint<F>(s: SlotReport<F>) -> u64 {
    match slot_prompt(s) {
        Some(p) => sat_add(p, match slot_decoded(s) { Some(d) => d, None => 0 }),
        None => 0,
    }
}

/// The context size of the slots: the first positive `n_ctx` (the slots
/// share one context pool).
pub open spec fn slots_context_size<F>(s: Seq<SlotReport<F>>) -> Option<u64>
    decreases s.len(),
{
    if s.len() == 0 {
        None
    } else {
        or_opt(slots_context_size(s.drop_last()), positive(s.last().n_ctx))
    }
}

/// Some slot is processing.
pub open spec fn slots_active<F>(s: Seq<SlotReport<F>>) -> bool {
    exists|j: int| 0 <= j < s.len() && s[j].is_processing == Some(true)
}

/// The largest footprint of any slot (0 for none).
pub open spec fn slots_max_footprint<F>(s: Seq<SlotReport<F>>) -> u64
    decreases s.len(),
{
    if s.len() == 0 {
        0
    } else {
        let m = slots_max_footprint(s.drop_last());
        let f = slot_footprint(s.last());
        if f > m { f } else { m }
    }
}

/// The prefill speed of the slots: the first one a slot's timings give.
pub open spec fn slots_prefill<F>(s: Seq<SlotReport<F>>) -> Option<F>
    decreases s.len(),
{
    if s.len() == 0 {
        None
    } else {
        or_opt(slots_prefill(s.drop_last()), match s.last().timings {
            Some(t) => t.prompt_per_second,
            None => None,
        })
    }
}

/// The generation speed of the slots: the first one a slot's timings give.
pub open spec fn slots_generation<F>(s: Seq<SlotReport<F>>) -> Option<F>
    decreases s.len(),
{
    if s.len() == 0 {
        None
    } else {
        or_opt(slots_generation(s.drop_last()), match s.last().timings {
            Some(t) => t.predicted_per_second,
            None => None,
        })
    }
}

/// The context usage of the slots: used is the largest slot footprint,
/// clamped to the shared context size.
pub open spec fn slots_context<F>(s: Seq<SlotReport<F>>) -> ContextMetric {
    match slots_context_size(s) {
        Some(t) => {
            let m = slots_max_footprint(s);
            let u = if m < t { m } else { t };
            ContextMetric {
                total: Some(t),
                used: Some(u),
                remaining: Some(sat_sub(t, u)),
                available: true,
            }
        },
        None => ContextMetric::unknown(),
    }
}

/// Everything the monitor reads from a `/slots` reply.
pub open spec fn slots_info<F>(slots: Option<Vec<SlotReport<F>>>) -> SlotsInfo<F> {
    match slots {
        Some(v) => SlotsInfo {
            context: slots_context(v@),
            prefill_speed: slots_prefill(v@),
            generation_speed: slots_generation(v@),
            context_size: slots_context_size(v@),
            active: slots_active(v@),
        },
        None => SlotsInfo::nothing(),
    }
}

proof fn lemma_positive_context_size<F>(s: Seq<SlotReport<F>>)
    ensures
        slots_context_size(s) matches Some(t) ==> t > 0,
    decreases s.len(),
{
    if s.len() > 0 {
        lemma_positive_context_size(s.drop_last());
    }
}

/// The tokens a slot holds, read off its fields: its prompt (planned, else
/// processed) plus what it decoded (`n_decoded`, else `next_token.n_decoded`),
/// capped at `u64::MAX`; a slot without a prompt holds none.
pub open spec fn tokens_held<F>(s: SlotReport<F>) -> int {
    let decoded: int = match s.n_decoded {
        Some(d) => d as int,
        None => match s.next_token_n_decoded {
            Some(d) => d as int,
            None => 0,
        },
    };
    let held: int = match s.n_prompt_tokens {
        Some(p) => p + decoded,
        None => match s.n_prompt_tokens_processed {
            Some(p) => p + decoded,
            None => 0,
        },
    };
    if held > u64::MAX {
        u64::MAX as int
    } else {
        held
    }
}

/// `h` capped at `t`.
pub open spec fn capped(t: u64, h: int) -> int {
    if h < t {
        h
    } else {
        t as int
    }
}

proof fn lemma_max_footprint<F>(v: Seq<SlotReport<F>>)
    ensures
        forall|j: int| 0 <= j < v.len() ==> slots_max_footprint(v) >= tokens_held(#[trigger] v[j]),
        v.len() > 0 ==> exists|j: int|
            0 <= j < v.len() && slots_max_footprint(v) == tokens_held(#[trigger] v[j]),
    decreases v.len(),
{
    if v.len() > 0 {
        let w = v.drop_last();
        lemma_max_footprint(w);
        let last = v.last();
        assert(slot_footprint(last) == tokens_held(last));
        assert forall|j: int| 0 <= j < v.len() implies slots_max_footprint(v) >= tokens_held(
            #[trigger] v[j],
        ) by {
            if j < w.len() {
                assert(v[j] == w[j]);
            }
        }
        if w.len() > 0 && slots_max_footprint(w) >= slot_footprint(last) {
            let k = choose|k: int| 0 <= k < w.len() && slots_max_footprint(w) == tokens_held(w[k]);
            assert(v[k] == w[k]);
        } else {
            assert(v[v.len() - 1] == last);
        }
    }
}

/// The context `/slots` reports used is the largest footprint any slot
/// reports, capped at the context size: when the slots report a size `t`,
/// the used context is at least every slot's footprint (capped at `t`), it
/// is the footprint of some slot (capped at `t`), and it never exceeds `t`;
/// the remaining context is what is left of `t`.
pub proof fn lemma_slots_used_is_largest_footprint<F>(v: Vec<SlotReport<F>>, r: SlotsInfo<F>)
    requires
        r == slots_info(Some(v)),
    ensures
        r.context.total matches Some(t) ==> {
            &&& r.context.used matches Some(u)
            &&& forall|j: int| 0 <= j < v@.len() ==> u >= capped(t, tokens_held(#[trigger] v@[j]))
            &&& exists|j: int| 0 <= j < v@.len() && u == capped(t, tokens_held(#[trigger] v@[j]))
            &&& u <= t
            &&& r.context.remaining == Some((t - u) as u64)
        },
{
    lemma_max_footprint(v@);
    lemma_positive_context_size(v@);
    if slots_context_size(v@) is Some {
        assert(v@.len() > 0);
    }
}

/// Parse the llama.cpp `/slots` reply (`None` when it is not an array, e.g.
/// an error object) into a [`SlotsInfo`].
///
/// The token counters are read whether or not a slot is processing, so the
/// widget keeps showing the context occupied by the last request instead of
/// snapping back to 0 when generation ends.
pub fn parse_slots<F: Copy>(slots: &Option<Vec<SlotReport<F>>>) -> (r: SlotsInfo<F>)
    ensures
        r == slots_info(*slots),
        r.context.is_consistent(),
        r.context.used matches Some(u) ==> u <= r.context.total->0,
{
    let v = match slots {
        Some(v) => v,
        None => {
            return SlotsInfo {
                context: ContextMetric::default(),
                prefill_speed: None,
                generation_speed: None,
                context_size: None,
                active: false,
            };
        },
    };
    let mut context_size: Option<u64> = None;
    let mut active = false;
    let mut max_used: u64 = 0;
    let mut prefill: Option<F> = None;
    let mut generation: Option<F> = None;
    let mut i: usize = 0;
    while i < v.len()
        invariant
            i <= v.len(),
            context_size == slots_context_size(v@.take(i as int)),
            active == slots_active(v@.take(i as int)),
            max_used == slots_max_footprint(v@.take(i as int)),
            prefill == slots_prefill(v@.take(i as int)),
            generation == slots_generation(v@.take(i as int)),
        decreases v.len() - i,
    {
        let slot = &v[i];
        let ghost pre = v@.take(i as int);
        assert(v@.take(i + 1).drop_last() =~= pre);
        assert(v@.take(i + 1).last() == v@[i as int]);
        if context_size.is_none() {
            match slot.n_ctx {
                Some(n) => if n > 0 { context_size = Some(n); },
                None => {},
            }
        }
        let processing = match slot.is_processing {
            Some(b) => b,
            None => false,
        };
        if processing {
            active = true;
            assert(v@.take(i + 1)[i as int] == v@[i as int]);
        }
        proof {
            let nxt = v@.take(i + 1);
            if slots_active(nxt) && !slots_active(pre) {
                let j = choose|j: int| 0 <= j < nxt.len() && nxt[j].is_processing == Some(true);
                if j < i {
                    assert(pre[j] == nxt[j]);
                }
            }
            if slots_active(pre) {
                let j = choose|j: int| 0 <= j < pre.len() && pre[j].is_processing == Some(true);
                assert(nxt[j] == pre[j]);
            }
        }
        let prompt = match slot.n_prompt_tokens {
            Some(p) => Some(p),
            None => slot.n_prompt_tokens_processed,
        };
        let decoded = match slot.n_decoded {
            Some(d) => Some(d),
            None => slot.next_token_n_decoded,
        };
        match prompt {
            Some(p) => {
                let d = match decoded {
                    Some(d) => d,
                    None => 0,
                };
                let f = p.saturating_add(d);
                if f > max_used {
                    max_used = f;
                }
            },
            None => {},
        }
        match slot.timings {
            Some(t) => {
                if prefill.is_none() {
                    prefill = t.prompt_per_second;
                }
                if generation.is_none() {
                    generation = t.predicted_per_second;
                }
            },
            None => {},
        }
        i = i + 1;
    }
    assert(v@.take(i as int) =~= v@);
    let context = match context_size {
        Some(total) => {
            proof {
                lemma_positive_context_size(v@);
            }
            let used = if max_used < total { max_used } else { total };
            ContextMetric {
                total: Some(total),
                used: Some(used),
                remaining: Some(total.saturating_sub(used)),
                available: true,
            }
        },
        None => ContextMetric::default(),
    };
    SlotsInfo { context, prefill_speed: prefill, generation_speed: generation, context_size, active }
}

/// One running model of an Ollama `/api/ps` reply, as far as the monitor
/// reads it.
#[derive(Debug, Clone, PartialEq, Eq)]
pub struct OllamaPsEntry {
    /// `name` (string).
    pub name: Option<String>,
    /// `info.context_length` when `info` is an object holding an unsigned integer there.
    pub info_context_length: Option<u64>,
    /// Top-level `context_length` (unsigned integer).
    pub context_length: Option<u64>,
    /// `info.quantize_level` (string).
    pub quantize_level: Option<String>,
    /// `context`: context tokens currently loaded for the model.
    pub context: Option<u64>,
}

impl OllamaPsEntry {
    /// An entry with no field present.
    pub fn empty() -> (r: OllamaPsEntry)
        ensures
            r.name is None && r.info_context_length is None && r.context_length is None,
            r.quantize_level is None && r.context is None,
    {
        OllamaPsEntry {
            name: None,
            info_context_length: None,
            context_length: None,
            quantize_level: None,
            context: None,
        }
    }
}

/// The model an Ollama `/api/ps` entry describes.
pub open spec fn ollama_model(e: OllamaPsEntry) -> ModelMetric {
    ModelMetric {
        name: e.name,
        context_size: or_opt(e.info_context_length, e.context_length),
        loaded: true,
        quantization: e.quantize_level,
        path: None,
        version: None,
    }
}

/// Extract the model name and context window from an Ollama `/api/ps` entry.
pub fn extract_ollama_model(entry: &OllamaPsEntry) -> (r: ModelMetric)
    ensures
        r == ollama_model(*entry),
{
    ModelMetric {
        name: clone_text(&entry.name),
        context_size: match entry.info_context_length {
            Some(n) => Some(n),
            None => entry.context_length,
        },
        loaded: true,
        quantization: clone_text(&entry.quantize_level),
        path: None,
        version: None,
    }
}

/// The context usage an Ollama entry reports: loaded tokens against the
/// model's window; the window alone when the loaded tokens are unknown;
/// nothing without a positive window.
pub open spec fn ollama_context(used: Option<u64>, total: Option<u64>) -> Option<ContextMetric> {
    match (used, total) {
        (Some(u), Some(t)) => if t > 0 {
            Some(ContextMetric {
                total: Some(t),
                used: Some(u),
                remaining: Some(sat_sub(t, u)),
                available: true,
            })
        } else {
            None
        },
        (None, Some(t)) => if t > 0 {
            Some(ContextMetric { total: Some(t), used: None, remaining: None, available: true })
        } else {
            None
        },
        _ => None,
    }
}

/// Parse an Ollama `/api/ps` reply (`None` when it is not an array): the
/// first running model and its context usage.
pub fn parse_ollama_ps(ps: &Option<Vec<OllamaPsEntry>>) -> (r: (Option<ModelMetric>, Option<ContextMetric>))
    ensures
        r == (match *ps {
            Some(v) => if v@.len() > 0 {
                (
                    Some(ollama_model(v@[0])),
                    ollama_context(v@[0].context, ollama_model(v@[0]).context_size),
                )
            } else {
                (None, None)
            },
            None => (None, None),
        }),
        r.1 matches Some(c) ==> c.is_consistent(),
{
    let v = match ps {
        Some(v) => v,
        None => return (None, None),
    };
    if v.len() == 0 {
        return (None, None);
    }
    let first = &v[0];
    let model = extract_ollama_model(first);
    let used = first.context;
    let total = model.context_size;
    let ctx = match (used, total) {
        (Some(u), Some(t)) => if t > 0 {
            Some(ContextMetric {
                total: Some(t),
                used: Some(u),
                remaining: Some(t.saturating_sub(u)),
                available: true,
            })
        } else {
            None
        },
        (None, Some(t)) => if t > 0 {
            Some(ContextMetric { total: Some(t), used: None, remaining: None, available: true })
        } else {
            None
        },
        _ => None,
    };
    (Some(model), ctx)
}

/// Detect Ollama from an `/api/ps` reply: an array whose first entry has a
/// string `name`.
pub fn detect_kind_from_ps(ps: &Option<Vec<OllamaPsEntry>>) -> (r: Option<ServerKind>)
    ensures
        r == (match *ps {
            Some(v) => if v@.len() > 0 && v@[0].name is Some {
                Some(ServerKind::Ollama)
            } else {
                None
            },
            None => None,
        }),
{
    match ps {
        Some(v) => {
            if v.len() > 0 && v[0].name.is_some() {
                Some(ServerKind::Ollama)
            } else {
                None
            }
        },
        None => None,
    }
}

/// One model object of an OpenAI-compatible `/v1/models` reply. For each
/// key, the outer `Option` says whether the key is present, the inner one
/// whether its value has the expected JSON type.
#[derive(Debug, Clone, PartialEq, Eq)]
pub struct CloudModelEntry {
    /// `id` (string).
    pub id: Option<Option<String>>,
    /// `name` (string), read only when `id` is absent.
    pub name: Option<Option<String>>,
    /// `context_length` (unsigned integer).
    pub context_length: Option<Option<u64>>,
    /// `contextSize` (unsigned integer), read only when `context_length` is absent.
    pub context_size: Option<Option<u64>>,
}

/// The value of the first present key among two, if it has the expected type.
pub open spec fn first_present<T>(a: Option<Option<T>>, b: Option<Option<T>>) -> Option<T> {
    match a {
        Some(x) => x,
        None => match b {
            Some(y) => y,
            None => None,
        },
    }
}

/// The model a cloud `/v1/models` entry describes: clouds expose no live
/// context or speed, only name and window; the model is not reported loaded.
pub open spec fn cloud_model(e: CloudModelEntry) -> ModelMetric {
    ModelMetric {
        name: first_present(e.id, e.name),
        context_size: first_present(e.context_length, e.context_size),
        loaded: false,
        quantization: None,
        path: None,
        version: None,
    }
}

/// Extract the model name and context window from an OpenAI `/v1/models` entry.
pub fn extract_cloud_model(entry: &CloudModelEntry) -> (r: ModelMetric)
    ensures
        r == cloud_model(*entry),
{
    let name = match &entry.id {
        Some(x) => clone_text(x),
        None => match &entry.name {
            Some(y) => clone_text(y),
            None => None,
        },
    };
    let context_size = match entry.context_length {
        Some(x) => x,
        None => match entry.context_size {
            Some(y) => y,
            None => None,
        },
    };
    ModelMetric { name, context_size, loaded: false, quantization: None, path: None, version: None }
}

} // verus!
