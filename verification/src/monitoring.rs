//! The decisions of the polling service. The application performs each
//! request of a poll (health, models, props, metrics, slots) and hands the
//! parsed reply to the step below; the steps fold the replies into one
//! [`ParsedSnapshot`]. A failed poll produces a degraded state instead.
use vstd::prelude::*;
use crate::adapters::{
    extract_model, extract_model_from_props, extract_server_label, merge_model, merged,
    models_list_metric, or_opt, preferred_entry, props_model, server_label_of, ModelsResponse, PropsResponse,
    SlotsInfo,
};
use crate::calculator::{calculate, calculated, texts, ParsedSnapshot, SpeedWindow};
use crate::config::Settings;
use crate::text::{chars_of, contains, contains_chars, host_port, push_host_port, push_str, string_of};
use crate::types::{
    same_state, ConnectionStatus, ContextMetric, ModelMetric, MonitoringState, SpeedMetric,
};

verus! {

/// The time of the previous update, if there is a previous state.
pub open spec fn prev_update_of<F>(prev: Option<MonitoringState<F>>) -> Option<i64> {
    match prev {
        Some(p) => p.last_update,
        None => None,
    }
}

/// `r` is the state a failed poll shows: the server is unavailable, the last
/// update is kept, the label falls back to the configured one (or
/// `host:port`), nothing is known, and the error is the one diagnostic.
pub open spec fn degraded<F>(
    r: MonitoringState<F>,
    prev_update: Option<i64>,
    settings: Settings,
    error_text: Seq<char>,
) -> bool {
    &&& r.connection == ConnectionStatus::ServerUnavailable
    &&& r.last_update == prev_update
    &&& r.server_label matches Some(l) && l@ == fallback_label(settings)
    &&& r.context == ContextMetric::unknown()
    &&& r.prefill_speed == SpeedMetric::<F>::unknown()
    &&& r.generation_speed == SpeedMetric::<F>::unknown()
    &&& r.model == ModelMetric::unknown()
    &&& texts(r.diagnostics@) == seq!["Ошибка опроса: "@ + error_text]
}

/// How long without a fresh update the state counts as stale: three poll
/// intervals, in whole seconds.
pub fn stale_threshold_secs(poll_interval_ms: u64) -> (r: u64)
    ensures
        r == poll_interval_ms / 1000 * 3,
{
    poll_interval_ms / 1000 * 3
}

/// Step 4 of a poll reads `/metrics` as Prometheus text when the reply's
/// `content-type` names `text/plain`, and as a JSON object otherwise.
pub fn metrics_is_text(content_type: &str) -> (r: bool)
    ensures
        r == contains(content_type@, "text/plain"@),
{
    contains_chars(&chars_of(content_type), &chars_of("text/plain"))
}

/// Step 2 of a poll: the model list (`/v1/models`) gives the model.
pub fn apply_models<F>(snap: &mut ParsedSnapshot<F>, models: &ModelsResponse)
    ensures
        *final(snap) == (ParsedSnapshot { model: final(snap).model, ..*old(snap) }),
        final(snap).model == (match models.models {
            Some(v) => if v@.len() > 0 {
                models_list_metric(preferred_entry(v@))
            } else {
                ModelMetric::unknown()
            },
            None => ModelMetric::unknown(),
        }),
{
    snap.model = extract_model(models);
}

/// Step 3 of a poll: `/props` is the authoritative source for the loaded
/// model, so it wins on every field it provides; its server label, when it
/// has one, replaces the current label.
pub fn apply_props<F>(snap: &mut ParsedSnapshot<F>, props: &PropsResponse)
    ensures
        final(snap).model == merged(old(snap).model, props_model(*props)),
        match server_label_of(*props) {
            Some(l) => final(snap).server_label matches Some(s) && s@ == l,
            None => final(snap).server_label == old(snap).server_label,
        },
        final(snap).context == old(snap).context,
        final(snap).prefill_speed == old(snap).prefill_speed,
        final(snap).generation_speed == old(snap).generation_speed,
        final(snap).timestamp_ms == old(snap).timestamp_ms,
        final(snap).diagnostics == old(snap).diagnostics,
{
    let m = extract_model_from_props(props);
    merge_model(&mut snap.model, m);
    match extract_server_label(props) {
        Some(l) => {
            snap.server_label = Some(l);
        },
        None => {},
    }
}

/// The note a poll adds when the metrics endpoint answered without success.
pub open spec fn metrics_refusal_note(code: u16) -> Option<Seq<char>> {
    if code == 501 || code == 404 {
        Some("Метрики отключены на сервере (нет --metrics)"@)
    } else {
        None
    }
}

/// Step 4 of a poll, when `/metrics` answered with a non-success status:
/// 501 or 404 is definitive (the server runs without `--metrics`) and is
/// noted; any other status may be transient and is not.
pub fn note_metrics_refused<F>(snap: &mut ParsedSnapshot<F>, code: u16)
    ensures
        texts(final(snap).diagnostics@) == match metrics_refusal_note(code) {
            Some(n) => texts(old(snap).diagnostics@).push(n),
            None => texts(old(snap).diagnostics@),
        },
        *final(snap) == (ParsedSnapshot { diagnostics: final(snap).diagnostics, ..*old(snap) }),
{
    broadcast use vstd::string::group_string_axioms;
    if code == 501 || code == 404 {
        let ghost before = snap.diagnostics@;
        snap.diagnostics.push("Метрики отключены на сервере (нет --metrics)".to_string());
        assert(texts(snap.diagnostics@) =~= texts(before).push(
            "Метрики отключены на сервере (нет --metrics)"@,
        ));
    }
}

/// Step 4 of a poll, when a metrics map was read: its context is taken only
/// when the build publishes one; its speeds are always taken.
pub fn apply_metrics<F>(
    snap: &mut ParsedSnapshot<F>,
    context: ContextMetric,
    prefill: SpeedMetric<F>,
    generation: SpeedMetric<F>,
)
    ensures
        final(snap).context == (if context.available { context } else { old(snap).context }),
        final(snap).prefill_speed == prefill,
        final(snap).generation_speed == generation,
        final(snap).model == old(snap).model,
        final(snap).server_label == old(snap).server_label,
        final(snap).timestamp_ms == old(snap).timestamp_ms,
        final(snap).diagnostics == old(snap).diagnostics,
{
    if context.available {
        snap.context = context;
    }
    snap.prefill_speed = prefill;
    snap.generation_speed = generation;
}

/// Step 5 of a poll: `/slots` fills what the metrics left unknown (context,
/// speeds, the model's context size) and notes an idle server when no slot
/// is processing and no metrics were read.
pub fn apply_slots<F: Copy>(snap: &mut ParsedSnapshot<F>, info: &SlotsInfo<F>, got_metrics: bool)
    ensures
        final(snap).context == (if !old(snap).context.available && info.context.available {
            info.context
        } else {
            old(snap).context
        }),
        final(snap).prefill_speed == (match info.prefill_speed {
            Some(v) => if !old(snap).prefill_speed.available {
                SpeedMetric::of_rate(v)
            } else {
                old(snap).prefill_speed
            },
            None => old(snap).prefill_speed,
        }),
        final(snap).generation_speed == (match info.generation_speed {
            Some(v) => if !old(snap).generation_speed.available {
                SpeedMetric::of_rate(v)
            } else {
                old(snap).generation_speed
            },
            None => old(snap).generation_speed,
        }),
        final(snap).model == (ModelMetric {
            context_size: or_opt(old(snap).model.context_size, info.context_size),
            ..old(snap).model
        }),
        texts(final(snap).diagnostics@) == (if !info.active && !got_metrics {
            texts(old(snap).diagnostics@).push("Сервер простаивает"@)
        } else {
            texts(old(snap).diagnostics@)
        }),
        final(snap).server_label == old(snap).server_label,
        final(snap).timestamp_ms == old(snap).timestamp_ms,
{
    broadcast use vstd::string::group_string_axioms;
    if !snap.context.available {
        match info.context_opt() {
            Some(c) => {
                snap.context = c;
            },
            None => {},
        }
    }
    if !snap.prefill_speed.available {
        match info.prefill_speed {
            Some(v) => {
                snap.prefill_speed = SpeedMetric::from_rate(v);
            },
            None => {},
        }
    }
    if !snap.generation_speed.available {
        match info.generation_speed {
            Some(v) => {
                snap.generation_speed = SpeedMetric::from_rate(v);
            },
            None => {},
        }
    }
    if snap.model.context_size.is_none() {
        snap.model.context_size = info.context_size;
    }
    if !info.active && !got_metrics {
        let ghost before = snap.diagnostics@;
        snap.diagnostics.push("Сервер простаивает".to_string());
        assert(texts(snap.diagnostics@) =~= texts(before).push("Сервер простаивает"@));
    }
}

/// The label a failed poll shows: the configured label, else `host:port`.
pub open spec fn fallback_label(settings: Settings) -> Seq<char> {
    match settings.server_label {
        Some(l) => l@,
        None => host_port(settings.server_host@, settings.server_port as nat),
    }
}

/// The state a failed poll emits: the server is unavailable, the last
/// successful update time is kept, and the error is the only diagnostic.
pub fn degraded_state<F>(
    prev: Option<&MonitoringState<F>>,
    settings: &Settings,
    error_text: &str,
) -> (r: MonitoringState<F>)
    ensures
        degraded(
            r,
            match prev {
                Some(p) => p.last_update,
                None => None,
            },
            *settings,
            error_text@,
        ),
{
    let label = match &settings.server_label {
        Some(l) => l.clone(),
        None => {
            let mut out: Vec<char> = Vec::new();
            push_host_port(&mut out, settings.server_host.as_str(), settings.server_port);
            assert(out@ =~= host_port(settings.server_host@, settings.server_port as nat));
            string_of(out.as_slice())
        },
    };
    let mut msg: Vec<char> = Vec::new();
    push_str(&mut msg, "Ошибка опроса: ");
    push_str(&mut msg, error_text);
    let mut diagnostics: Vec<String> = Vec::new();
    diagnostics.push(string_of(msg.as_slice()));
    assert(texts(diagnostics@) =~= seq!["Ошибка опроса: "@ + error_text@]);
    MonitoringState {
        connection: ConnectionStatus::ServerUnavailable,
        last_update: match prev {
            Some(p) => p.last_update,
            None => None,
        },
        server_label: Some(label),
        context: ContextMetric::default(),
        prefill_speed: SpeedMetric::unavailable(),
        generation_speed: SpeedMetric::unavailable(),
        model: ModelMetric::default(),
        diagnostics,
    }
}

/// What the polling service keeps from one poll to the next: the speed
/// smoothing window, the last state shown, and how many polls in a row have
/// failed (which slows polling down).
pub struct PollState<F> {
    pub window: SpeedWindow<F>,
    pub prev: Option<MonitoringState<F>>,
    pub failures: u32,
}

/// How many poll intervals to wait after `failures` failed polls in a row:
/// one while polls succeed, doubling with each failure up to eight.
pub open spec fn backoff_factor(failures: u32) -> nat {
    if failures == 0 {
        1
    } else if failures == 1 {
        2
    } else if failures == 2 {
        4
    } else {
        8
    }
}

/// The delay before the next poll, in milliseconds (saturating at `u64::MAX`).
pub open spec fn backoff_delay(poll_interval_ms: u64, failures: u32) -> u64 {
    let d = poll_interval_ms * backoff_factor(failures);
    if d <= u64::MAX {
        d as u64
    } else {
        u64::MAX
    }
}

impl<F: Copy> PollState<F> {
    /// Before the first poll: an empty window of `window_secs` samples and no
    /// previous state.
    pub fn new(window_secs: u32) -> (r: Self)
        ensures
            r.window.prefill@.len() == 0,
            r.window.generation@.len() == 0,
            r.window.window_secs == window_secs,
            r.prev is None,
            r.failures == 0,
    {
        PollState { window: SpeedWindow::new(window_secs), prev: None, failures: 0 }
    }

    /// A successful poll: the snapshot is applied on top of the previous
    /// state, its speeds are smoothed through the kept window, and the new
    /// state is kept for the next poll. The state counts as stale after
    /// three poll intervals (in whole seconds).
    pub fn on_snapshot<A: Fn(&Vec<F>) -> Option<F>>(
        &mut self,
        snap: &ParsedSnapshot<F>,
        poll_interval_ms: u64,
        average: A,
    ) -> (r: MonitoringState<F>)
        requires
            forall|s: &Vec<F>| average.requires((s,)),
            prev_update_of(old(self).prev) matches Some(l) ==> i64::MIN <= snap.timestamp_ms - l
                <= i64::MAX,
        ensures
            calculated(
                *snap,
                prev_update_of(old(self).prev),
                old(self).window,
                final(self).window,
                (poll_interval_ms / 1000 * 3) as u64,
                average,
                r,
            ),
            final(self).prev matches Some(p) && same_state(p, r),
            final(self).failures == 0,
    {
        let stale_secs = stale_threshold_secs(poll_interval_ms);
        let prev = match &self.prev {
            Some(p) => Some(p),
            None => None,
        };
        let result = calculate(snap, prev, &mut self.window, stale_secs, average);
        let state = result.state;
        self.prev = Some(state.duplicate());
        self.failures = 0;
        state
    }

    /// A failed poll: the degraded state for `error_text`. The kept state
    /// and window are left as they are; one more failure in a row is counted.
    pub fn on_failure(&mut self, settings: &Settings, error_text: &str) -> (r: MonitoringState<F>)
        ensures
            degraded(r, prev_update_of(old(self).prev), *settings, error_text@),
            final(self).prev == old(self).prev,
            final(self).window == old(self).window,
            final(self).failures == (if old(self).failures == u32::MAX {
                u32::MAX
            } else {
                (old(self).failures + 1) as u32
            }),
    {
        let prev = match &self.prev {
            Some(p) => Some(p),
            None => None,
        };
        let r = degraded_state(prev, settings, error_text);
        if self.failures < u32::MAX {
            self.failures = self.failures + 1;
        }
        r
    }

    /// How long to wait before the next poll: the poll interval while polls
    /// succeed, backing off after failures instead of retrying at full rate.
    pub fn next_delay_ms(&self, poll_interval_ms: u64) -> (r: u64)
        ensures
            r == backoff_delay(poll_interval_ms, self.failures),
    {
        if self.failures == 0 {
            poll_interval_ms
        } else if self.failures == 1 {
            if poll_interval_ms <= u64::MAX / 2 {
                poll_interval_ms * 2
            } else {
                u64::MAX
            }
        } else if self.failures == 2 {
            if poll_interval_ms <= u64::MAX / 4 {
                poll_interval_ms * 4
            } else {
                u64::MAX
            }
        } else if poll_interval_ms <= u64::MAX / 8 {
            poll_interval_ms * 8
        } else {
            u64::MAX
        }
    }
}

} // verus!
