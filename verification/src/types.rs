//! Shared domain types describing the monitoring state.
//!
//! Design rules:
//! - `None` means "unknown / unavailable", never a real zero.
//! - `available: false` tells the UI to render a placeholder, not a crash.
//! - `remaining` is always clamped to >= 0.
//!
//! Token speeds are carried as an opaque sample type `F` (the application
//! uses `f64`): the library routes, keeps and averages speed samples, but
//! every arithmetic on them is supplied by the caller.
use vstd::prelude::*;

verus! {

/// Connection / data health status.
#[derive(Debug, Clone, Copy, PartialEq, Eq, Structural)]
pub enum ConnectionStatus {
    Connected,
    Connecting,
    Disconnected,
    Error,
    Stale,
    ServerUnavailable,
    MetricsUnavailable,
}

/// The human readable (Russian) label of a status, as shown by the widget.
pub open spec fn status_label(s: ConnectionStatus) -> Seq<char> {
    match s {
        ConnectionStatus::Connected => "Подключено"@,
        ConnectionStatus::Connecting => "Подключение"@,
        ConnectionStatus::Disconnected => "Нет соединения"@,
        ConnectionStatus::Error => "Ошибка данных"@,
        ConnectionStatus::Stale => "Данные устарели"@,
        ConnectionStatus::ServerUnavailable => "Сервер недоступен"@,
        ConnectionStatus::MetricsUnavailable => "Метрики недоступны"@,
    }
}

impl ConnectionStatus {
    pub fn label(self) -> (r: &'static str)
        ensures
            r@ == status_label(self),
    {
        match self {
            ConnectionStatus::Connected => "Подключено",
            ConnectionStatus::Connecting => "Подключение",
            ConnectionStatus::Disconnected => "Нет соединения",
            ConnectionStatus::Error => "Ошибка данных",
            ConnectionStatus::Stale => "Данные устарели",
            ConnectionStatus::ServerUnavailable => "Сервер недоступен",
            ConnectionStatus::MetricsUnavailable => "Метрики недоступны",
        }
    }
}

/// What each status reads in the widget: "Подключено" when connected,
/// "Нет соединения" when disconnected, and so on for every status; no two
/// statuses read alike.
pub proof fn lemma_status_labels(a: ConnectionStatus, b: ConnectionStatus)
    ensures
        status_label(ConnectionStatus::Connected) == "Подключено"@,
        status_label(ConnectionStatus::Connecting) == "Подключение"@,
        status_label(ConnectionStatus::Disconnected) == "Нет соединения"@,
        status_label(ConnectionStatus::Error) == "Ошибка данных"@,
        status_label(ConnectionStatus::Stale) == "Данные устарели"@,
        status_label(ConnectionStatus::ServerUnavailable) == "Сервер недоступен"@,
        status_label(ConnectionStatus::MetricsUnavailable) == "Метрики недоступны"@,
        a != b ==> status_label(a) != status_label(b),
{
    reveal_strlit("Подключено");
    reveal_strlit("Подключение");
    reveal_strlit("Нет соединения");
    reveal_strlit("Ошибка данных");
    reveal_strlit("Данные устарели");
    reveal_strlit("Сервер недоступен");
    reveal_strlit("Метрики недоступны");
    assert(a != b ==> status_label(a).len() != status_label(b).len());
}

/// The kind of inference engine behind a server address; it decides which
/// adapter the monitor uses.
#[derive(Debug, Clone, Copy, PartialEq, Eq, Structural)]
pub enum ServerKind {
    /// llama.cpp `llama-server`.
    Local,
    Vllm,
    Ollama,
    /// An OpenAI-compatible endpoint (`/v1/models`).
    Cloud,
}

pub open spec fn kind_label(k: ServerKind) -> Seq<char> {
    match k {
        ServerKind::Local => "llama.cpp"@,
        ServerKind::Vllm => "vLLM"@,
        ServerKind::Ollama => "Ollama"@,
        ServerKind::Cloud => "Cloud"@,
    }
}

impl ServerKind {
    /// Engine name used in human readable labels.
    pub fn label(self) -> (r: &'static str)
        ensures
            r@ == kind_label(self),
    {
        match self {
            ServerKind::Local => "llama.cpp",
            ServerKind::Vllm => "vLLM",
            ServerKind::Ollama => "Ollama",
            ServerKind::Cloud => "Cloud",
        }
    }
}

/// Context usage metric (in tokens). The fill ratio shown by the UI is
/// `used / total`, clamped to `0..=1`; it is derived by the application
/// from `used` and `total` and exists exactly when both are known.
#[derive(Debug, Clone, Copy, PartialEq, Eq, Structural)]
pub struct ContextMetric {
    pub total: Option<u64>,
    pub used: Option<u64>,
    pub remaining: Option<u64>,
    pub available: bool,
}

/// `a - b` clamped at zero (`u64::saturating_sub`).
pub open spec fn sat_sub(a: u64, b: u64) -> u64 {
    if a >= b {
        (a - b) as u64
    } else {
        0
    }
}

impl ContextMetric {
    /// The metric of an unknown context: nothing known, not available.
    pub open spec fn unknown() -> ContextMetric {
        ContextMetric { total: None, used: None, remaining: None, available: false }
    }

    /// The invariant every context metric of this library keeps: it is
    /// available exactly when the total is known, `used` is never known
    /// without the total, and `remaining` is `total - used` clamped at zero,
    /// known exactly when both are.
    pub open spec fn is_consistent(self) -> bool {
        &&& self.available == self.total is Some
        &&& self.used is Some ==> self.total is Some
        &&& match (self.total, self.used) {
            (Some(t), Some(u)) => self.remaining == Some(sat_sub(t, u)),
            _ => self.remaining is None,
        }
    }
}

impl ContextMetric {
    /// The parts of the fill ratio the UI shows, `(used, total)`: the ratio
    /// is `used / total` clamped to `0..=1`, and exists exactly when both
    /// counts are known.
    pub fn percent_parts(&self) -> (r: Option<(u64, u64)>)
        ensures
            r == (match (self.used, self.total) {
                (Some(u), Some(t)) => Some((u, t)),
                _ => None,
            }),
    {
        match (self.used, self.total) {
            (Some(u), Some(t)) => Some((u, t)),
            _ => None,
        }
    }
}

impl Default for ContextMetric {
    fn default() -> (r: Self)
        ensures
            r == ContextMetric::unknown(),
    {
        ContextMetric { total: None, used: None, remaining: None, available: false }
    }
}

/// Token speed metric (tokens/sec), with samples of type `F`.
#[derive(Debug, Clone, Copy, PartialEq)]
pub struct SpeedMetric<F> {
    pub current: Option<F>,
    /// Average over the smoothing window.
    pub avg_30s: Option<F>,
    pub available: bool,
    /// Prefill and generation are reported separately (both are known).
    pub split_available: bool,
}

impl<F> SpeedMetric<F> {
    pub open spec fn unknown() -> SpeedMetric<F> {
        SpeedMetric { current: None, avg_30s: None, available: false, split_available: false }
    }

    /// A speed known only as an instantaneous rate.
    pub open spec fn of_rate(v: F) -> SpeedMetric<F> {
        SpeedMetric { current: Some(v), avg_30s: None, available: true, split_available: false }
    }

    /// Unknown speed.
    pub fn unavailable() -> (r: Self)
        ensures
            r == SpeedMetric::<F>::unknown(),
    {
        SpeedMetric { current: None, avg_30s: None, available: false, split_available: false }
    }

    /// An instantaneous rate, available, without average.
    pub fn from_rate(v: F) -> (r: Self)
        ensures
            r == SpeedMetric::<F>::of_rate(v),
    {
        SpeedMetric { current: Some(v), avg_30s: None, available: true, split_available: false }
    }
}

/// Loaded model info.
#[derive(Debug, Clone, PartialEq, Eq)]
pub struct ModelMetric {
    pub name: Option<String>,
    pub context_size: Option<u64>,
    pub loaded: bool,
    pub quantization: Option<String>,
    pub path: Option<String>,
    pub version: Option<String>,
}

impl ModelMetric {
    /// Nothing known about the model.
    pub open spec fn unknown() -> ModelMetric {
        ModelMetric {
            name: None,
            context_size: None,
            loaded: false,
            quantization: None,
            path: None,
            version: None,
        }
    }

    /// A copy of this metric.
    pub fn duplicate(&self) -> (r: ModelMetric)
        ensures
            r == *self,
    {
        ModelMetric {
            name: clone_text(&self.name),
            context_size: self.context_size,
            loaded: self.loaded,
            quantization: clone_text(&self.quantization),
            path: clone_text(&self.path),
            version: clone_text(&self.version),
        }
    }
}

impl Default for ModelMetric {
    fn default() -> (r: Self)
        ensures
            r == ModelMetric::unknown(),
    {
        ModelMetric {
            name: None,
            context_size: None,
            loaded: false,
            quantization: None,
            path: None,
            version: None,
        }
    }
}

/// A copy of an optional text.
pub fn clone_text(t: &Option<String>) -> (r: Option<String>)
    ensures
        r == *t,
{
    match t {
        Some(s) => Some(s.clone()),
        None => None,
    }
}

/// A copy of a list of texts.
pub fn clone_texts(v: &Vec<String>) -> (r: Vec<String>)
    ensures
        r@ == v@,
{
    let mut out: Vec<String> = Vec::new();
    let mut i: usize = 0;
    while i < v.len()
        invariant
            i <= v.len(),
            out@ == v@.take(i as int),
        decreases v.len() - i,
    {
        out.push(v[i].clone());
        assert(out@ =~= v@.take(i + 1));
        i = i + 1;
    }
    assert(v@.take(i as int) =~= v@);
    out
}

/// Full monitoring state pushed to the UI.
#[derive(Debug, Clone, PartialEq)]
pub struct MonitoringState<F> {
    pub connection: ConnectionStatus,
    pub last_update: Option<i64>,
    pub server_label: Option<String>,
    pub context: ContextMetric,
    pub prefill_speed: SpeedMetric<F>,
    pub generation_speed: SpeedMetric<F>,
    pub model: ModelMetric,
    /// Human-readable diagnostics shown in the expanded view.
    pub diagnostics: Vec<String>,
}

impl<F> MonitoringState<F> {
    /// The state before any data arrived.
    pub fn initial() -> (r: Self)
        ensures
            r.connection == ConnectionStatus::Disconnected,
            r.last_update is None,
            r.server_label is None,
            r.context == ContextMetric::unknown(),
            r.prefill_speed == SpeedMetric::<F>::unknown(),
            r.generation_speed == SpeedMetric::<F>::unknown(),
            r.model == ModelMetric::unknown(),
            r.diagnostics@ == Seq::<String>::empty(),
    {
        MonitoringState {
            connection: ConnectionStatus::Disconnected,
            last_update: None,
            server_label: None,
            context: ContextMetric::default(),
            prefill_speed: SpeedMetric::unavailable(),
            generation_speed: SpeedMetric::unavailable(),
            model: ModelMetric::default(),
            diagnostics: Vec::new(),
        }
    }
}

/// Two states show the same: equal fields, and the same diagnostics texts.
pub open spec fn same_state<F>(a: MonitoringState<F>, b: MonitoringState<F>) -> bool {
    &&& a == (MonitoringState { diagnostics: a.diagnostics, ..b })
    &&& a.diagnostics@ == b.diagnostics@
}

impl<F: Copy> MonitoringState<F> {
    /// A copy of this state.
    pub fn duplicate(&self) -> (r: Self)
        ensures
            same_state(r, *self),
    {
        MonitoringState {
            connection: self.connection,
            last_update: self.last_update,
            server_label: clone_text(&self.server_label),
            context: self.context,
            prefill_speed: self.prefill_speed,
            generation_speed: self.generation_speed,
            model: self.model.duplicate(),
            diagnostics: clone_texts(&self.diagnostics),
        }
    }
}

} // verus!
