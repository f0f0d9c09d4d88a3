//! Metrics calculator: turns a parsed snapshot into a [`MonitoringState`].
//!
//! Owns the sliding-window smoothing of speeds and decides the overall
//! connection status from partial data. Pure logic, no I/O. Speed samples
//! are opaque (`F`); the caller supplies how a window of them is averaged.
use vstd::prelude::*;
use crate::types::{
    clone_text, clone_texts, ConnectionStatus, ContextMetric, ModelMetric, MonitoringState,
    SpeedMetric,
};

verus! {

/// Sliding windows of recent speed samples (tokens/sec) for smoothing.
#[derive(Debug, Clone, PartialEq)]
pub struct SpeedWindow<F> {
    pub prefill: Vec<F>,
    pub generation: Vec<F>,
    /// How many samples a window keeps.
    pub window_secs: u32,
}

impl<F> SpeedWindow<F> {
    pub fn new(window_secs: u32) -> (r: Self)
        ensures
            r.prefill@.len() == 0,
            r.generation@.len() == 0,
            r.window_secs == window_secs,
    {
        SpeedWindow { prefill: Vec::new(), generation: Vec::new(), window_secs }
    }
}

/// The last `w` samples of `s` (all of them when there are fewer).
pub open spec fn windowed<F>(s: Seq<F>, w: u32) -> Seq<F> {
    if s.len() > w {
        s.skip(s.len() - w)
    } else {
        s
    }
}

/// Push a value into a sliding window, trimming it to the window length.
pub fn push_window<F: Copy>(samples: &mut Vec<F>, value: F, window_secs: u32)
    ensures
        final(samples)@ == windowed(old(samples)@.push(value), window_secs),
{
    samples.push(value);
    let n = samples.len();
    if n > window_secs as usize {
        let excess = n - window_secs as usize;
        let mut kept: Vec<F> = Vec::new();
        let mut i = excess;
        while i < n
            invariant
                excess <= i <= n == samples.len(),
                kept@ == samples@.subrange(excess as int, i as int),
            decreases n - i,
        {
            kept.push(samples[i]);
            assert(kept@ =~= samples@.subrange(excess as int, i + 1));
            i = i + 1;
        }
        assert(kept@ =~= samples@.skip(excess as int));
        *samples = kept;
    }
}

/// A window never holds more than its length, and its newest sample is the
/// one just pushed (when it keeps any).
pub proof fn lemma_window_bounded<F>(s: Seq<F>, value: F, w: u32)
    ensures
        windowed(s.push(value), w).len() <= w,
        windowed(s.push(value), w).len() == (if s.len() + 1 > w { w as nat } else { s.len() + 1 }),
        w > 0 ==> windowed(s.push(value), w).last() == value,
        s.len() < w ==> windowed(s.push(value), w) == s.push(value),
{
}

/// A parsed snapshot combining all adapters.
#[derive(Debug, Clone, PartialEq)]
pub struct ParsedSnapshot<F> {
    pub context: ContextMetric,
    pub prefill_speed: SpeedMetric<F>,
    pub generation_speed: SpeedMetric<F>,
    pub model: ModelMetric,
    pub server_label: Option<String>,
    pub timestamp_ms: i64,
    pub diagnostics: Vec<String>,
}

impl<F> ParsedSnapshot<F> {
    /// A snapshot with nothing known, taken at time 0.
    pub fn empty() -> (r: Self)
        ensures
            r.context == ContextMetric::unknown(),
            r.prefill_speed == SpeedMetric::<F>::unknown(),
            r.generation_speed == SpeedMetric::<F>::unknown(),
            r.model == ModelMetric::unknown(),
            r.server_label is None,
            r.timestamp_ms == 0,
            r.diagnostics@.len() == 0,
    {
        ParsedSnapshot {
            context: ContextMetric::default(),
            prefill_speed: SpeedMetric::unavailable(),
            generation_speed: SpeedMetric::unavailable(),
            model: ModelMetric::default(),
            server_label: None,
            timestamp_ms: 0,
            diagnostics: Vec::new(),
        }
    }
}

/// Result of applying a new snapshot on top of previous state.
#[derive(Debug, Clone, PartialEq)]
pub struct CalcResult<F> {
    pub state: MonitoringState<F>,
    pub diagnostics: Vec<String>,
}

/// The views of a list of strings.
pub open spec fn texts(v: Seq<String>) -> Seq<Seq<char>> {
    v.map_values(|s: String| s@)
}

/// The status a snapshot supports on its own: metrics are unavailable when
/// neither the model nor any speed is known, the server is connected otherwise.
pub open spec fn snapshot_status<F>(snap: ParsedSnapshot<F>) -> ConnectionStatus {
    let model_ok = snap.model.name is Some || snap.model.loaded;
    let any_metric = snap.prefill_speed.available || snap.generation_speed.available;
    if !model_ok && !any_metric {
        ConnectionStatus::MetricsUnavailable
    } else {
        ConnectionStatus::Connected
    }
}

/// The snapshot is stale: more whole seconds than `stale_secs` separate it
/// from the previous update (the difference is read as unsigned, so a
/// snapshot older than the previous update counts as stale).
pub open spec fn is_stale(ts: i64, prev_update: Option<i64>, stale_secs: u64) -> bool {
    match prev_update {
        Some(last) => ((ts - last) as u64) / 1000 > stale_secs,
        None => false,
    }
}

pub open spec fn note_if(cond: bool, text: Seq<char>) -> Seq<Seq<char>> {
    if cond {
        seq![text]
    } else {
        Seq::empty()
    }
}

/// The diagnostics of a snapshot, in display order, followed by those the
/// snapshot gathered while it was fetched.
pub open spec fn snapshot_diagnostics<F>(snap: ParsedSnapshot<F>, stale: bool) -> Seq<Seq<char>> {
    note_if(!snap.context.available, "Контекст неизвестен"@)
        + note_if(!snap.prefill_speed.available, "Скорость prefill недоступна"@)
        + note_if(!snap.generation_speed.available, "Скорость generation недоступна"@)
        + note_if(snap.model.name is None, "Модель не определена"@)
        + note_if(
        !snap.prefill_speed.split_available && (snap.prefill_speed.available
            || snap.generation_speed.available),
        "Разделение prefill/generation недоступно"@,
    ) + note_if(stale, "Данные устарели"@) + texts(snap.diagnostics@)
}

/// A speed with its window average refreshed: when it has a current value,
/// the window holds that value and the average is `average` of the window.
pub open spec fn smoothed<F, A: Fn(&Vec<F>) -> Option<F>>(
    speed: SpeedMetric<F>,
    before: Seq<F>,
    after: Vec<F>,
    w: u32,
    average: A,
    result: SpeedMetric<F>,
) -> bool {
    match speed.current {
        Some(v) => {
            &&& after@ == windowed(before.push(v), w)
            &&& result.current == speed.current
            &&& result.available == speed.available
            &&& result.split_available == speed.split_available
            &&& average.ensures((&after,), result.avg_30s)
        },
        None => after@ == before && result == speed,
    }
}

/// `state` is what [`calculate`] gives for `snap` on top of a previous update
/// at `prev_update`, with the speed window going from `before` to `after`.
pub open spec fn calculated<F, A: Fn(&Vec<F>) -> Option<F>>(
    snap: ParsedSnapshot<F>,
    prev_update: Option<i64>,
    before: SpeedWindow<F>,
    after: SpeedWindow<F>,
    stale_secs: u64,
    average: A,
    state: MonitoringState<F>,
) -> bool {
    let stale = is_stale(snap.timestamp_ms, prev_update, stale_secs);
    &&& state.connection == (if stale {
        ConnectionStatus::Stale
    } else {
        snapshot_status(snap)
    })
    &&& texts(state.diagnostics@) == snapshot_diagnostics(snap, stale)
    &&& state.last_update == Some(snap.timestamp_ms)
    &&& state.server_label == snap.server_label
    &&& state.context == snap.context
    &&& state.model == snap.model
    &&& after.window_secs == before.window_secs
    &&& smoothed(
        snap.prefill_speed,
        before.prefill@,
        after.prefill,
        before.window_secs,
        average,
        state.prefill_speed,
    )
    &&& smoothed(
        snap.generation_speed,
        before.generation@,
        after.generation,
        before.window_secs,
        average,
        state.generation_speed,
    )
}

/// The connection status a poll shows: stale exactly when more whole
/// seconds than `stale_secs` passed since the previous update; otherwise
/// "metrics unavailable" exactly when neither the model (by name or as
/// loaded) nor any speed is known, and "connected" whenever the model or a
/// prefill or generation speed is.
pub proof fn lemma_status_follows_data<F, A: Fn(&Vec<F>) -> Option<F>>(
    snap: ParsedSnapshot<F>,
    prev_update: Option<i64>,
    before: SpeedWindow<F>,
    after: SpeedWindow<F>,
    stale_secs: u64,
    average: A,
    state: MonitoringState<F>,
)
    requires
        calculated(snap, prev_update, before, after, stale_secs, average, state),
    ensures
        (state.connection == ConnectionStatus::Stale) == (prev_update matches Some(l) && ((
        snap.timestamp_ms - l) as u64) / 1000 > stale_secs),
        state.connection != ConnectionStatus::Stale ==> ((state.connection
            == ConnectionStatus::MetricsUnavailable) == (snap.model.name is None
            && !snap.model.loaded && !snap.prefill_speed.available
            && !snap.generation_speed.available)),
        state.connection != ConnectionStatus::Stale && (snap.model.name is Some || snap.model.loaded
            || snap.prefill_speed.available || snap.generation_speed.available)
            ==> state.connection == ConnectionStatus::Connected,
        state.connection == ConnectionStatus::Stale || state.connection
            == ConnectionStatus::MetricsUnavailable || state.connection
            == ConnectionStatus::Connected,
{
}

fn push_text(v: &mut Vec<String>, s: &str)
    ensures
        texts(final(v)@) == texts(old(v)@).push(s@),
{
    broadcast use vstd::string::group_string_axioms;
    let t = s.to_string();
    v.push(t);
    assert(texts(v@) =~= texts(old(v)@).push(s@));
}

fn note(v: &mut Vec<String>, cond: bool, s: &str)
    ensures
        texts(final(v)@) == texts(old(v)@) + note_if(cond, s@),
{
    if cond {
        push_text(v, s);
    } else {
        assert(texts(v@) =~= texts(v@) + note_if(cond, s@));
    }
}

/// Apply a fresh snapshot on top of the previous state, smoothing the
/// speeds through `window`.
pub fn calculate<F: Copy, A: Fn(&Vec<F>) -> Option<F>>(
    snap: &ParsedSnapshot<F>,
    prev: Option<&MonitoringState<F>>,
    window: &mut SpeedWindow<F>,
    stale_secs: u64,
    average: A,
) -> (r: CalcResult<F>)
    requires
        forall|s: &Vec<F>| average.requires((s,)),
        prev matches Some(p) ==> (p.last_update matches Some(l) ==> i64::MIN <= snap.timestamp_ms
            - l <= i64::MAX),
    ensures
        ({
            let prev_update = match prev {
                Some(p) => p.last_update,
                None => None,
            };
            let stale = is_stale(snap.timestamp_ms, prev_update, stale_secs);
            &&& r.state.connection == (if stale {
                ConnectionStatus::Stale
            } else {
                snapshot_status(*snap)
            })
            &&& texts(r.state.diagnostics@) == snapshot_diagnostics(*snap, stale)
        }),
        calculated(
            *snap,
            match prev {
                Some(p) => p.last_update,
                None => None,
            },
            *old(window),
            *final(window),
            stale_secs,
            average,
            r.state,
        ),
        r.diagnostics@ == r.state.diagnostics@,
        r.state.last_update == Some(snap.timestamp_ms),
        r.state.server_label == snap.server_label,
        r.state.context == snap.context,
        r.state.model == snap.model,
        final(window).window_secs == old(window).window_secs,
        smoothed(
            snap.prefill_speed,
            old(window).prefill@,
            final(window).prefill,
            old(window).window_secs,
            average,
            r.state.prefill_speed,
        ),
        smoothed(
            snap.generation_speed,
            old(window).generation@,
            final(window).generation,
            old(window).window_secs,
            average,
            r.state.generation_speed,
        ),
{
    let mut diagnostics: Vec<String> = Vec::new();
    let model_ok = snap.model.name.is_some() || snap.model.loaded;
    let any_metric = snap.prefill_speed.available || snap.generation_speed.available;
    let status = if !model_ok && !any_metric {
        ConnectionStatus::MetricsUnavailable
    } else {
        ConnectionStatus::Connected
    };
    let prev_update = match prev {
        Some(p) => p.last_update,
        None => None,
    };
    let stale = match prev_update {
        Some(last) => (snap.timestamp_ms - last) as u64 / 1000 > stale_secs,
        None => false,
    };
    let ghost d0 = texts(diagnostics@);
    assert(d0 =~= Seq::<Seq<char>>::empty());
    note(&mut diagnostics, !snap.context.available, "Контекст неизвестен");
    note(&mut diagnostics, !snap.prefill_speed.available, "Скорость prefill недоступна");
    note(&mut diagnostics, !snap.generation_speed.available, "Скорость generation недоступна");
    note(&mut diagnostics, snap.model.name.is_none(), "Модель не определена");
    note(
        &mut diagnostics,
        !snap.prefill_speed.split_available && (snap.prefill_speed.available
            || snap.generation_speed.available),
        "Разделение prefill/generation недоступно",
    );
    note(&mut diagnostics, stale, "Данные устарели");
    let mut i: usize = 0;
    let ghost base = texts(diagnostics@);
    while i < snap.diagnostics.len()
        invariant
            i <= snap.diagnostics.len(),
            texts(diagnostics@) == base + texts(snap.diagnostics@.take(i as int)),
        decreases snap.diagnostics.len() - i,
    {
        let ghost before = diagnostics@;
        diagnostics.push(snap.diagnostics[i].clone());
        assert(texts(diagnostics@) =~= texts(before).push(snap.diagnostics@[i as int]@));
        assert(texts(snap.diagnostics@.take(i + 1)) =~= texts(snap.diagnostics@.take(i as int)).push(
            snap.diagnostics@[i as int]@,
        ));
        assert(texts(diagnostics@) =~= base + texts(snap.diagnostics@.take(i + 1)));
        i = i + 1;
    }
    assert(snap.diagnostics@.take(i as int) =~= snap.diagnostics@);
    assert(texts(diagnostics@) =~= snapshot_diagnostics(*snap, stale));
    let mut prefill = snap.prefill_speed;
    let mut generation = snap.generation_speed;
    let w = window.window_secs;
    match prefill.current {
        Some(v) => {
            push_window(&mut window.prefill, v, w);
            prefill.avg_30s = average(&window.prefill);
        },
        None => {},
    }
    match generation.current {
        Some(v) => {
            push_window(&mut window.generation, v, w);
            generation.avg_30s = average(&window.generation);
        },
        None => {},
    }
    let state = MonitoringState {
        connection: if stale {
            ConnectionStatus::Stale
        } else {
            status
        },
        last_update: Some(snap.timestamp_ms),
        server_label: clone_text(&snap.server_label),
        context: snap.context,
        prefill_speed: prefill,
        generation_speed: generation,
        model: snap.model.duplicate(),
        diagnostics: clone_texts(&diagnostics),
    };
    CalcResult { state, diagnostics }
}

} // verus!
