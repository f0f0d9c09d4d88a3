//! Settings: the server address rules, migration of old settings files and
//! the masking of secrets.
//!
//! Secrets (the API key) are stored in the settings but never shown: the UI
//! only ever sees a masked copy, and a masked value sent back keeps the
//! stored secret.
use vstd::prelude::*;
use crate::text::{
    chars_of, decimal, ends_with, ends_with_chars, host_port, is_digit, lemma_decimal_digits,
    push_host_port, push_range, push_str, string_of, text_is, trim_trailing, trim_trailing_len,
};
use crate::types::clone_text;

verus! {

/// The settings the monitoring logic reads. (The window geometry, opacity
/// and warning thresholds are presentation values kept by the application.)
#[derive(Debug, Clone, PartialEq, Eq)]
pub struct Settings {
    pub server_host: String,
    pub server_port: u16,
    pub base_path: String,
    pub poll_interval_ms: u64,
    pub request_timeout_ms: u64,
    /// `"auto"`, `"light"` or `"dark"`.
    pub theme: String,
    pub default_compact: bool,
    pub autorun: bool,
    pub minimize_to_tray: bool,
    pub always_on_top: bool,
    pub show_last_update: bool,
    pub verbose_logging: bool,
    pub api_key: Option<String>,
    pub server_label: Option<String>,
    pub smoothing_window_secs: u32,
    /// Global hotkey to toggle the window; `None` or empty disables it.
    pub hotkey: Option<String>,
}

impl Settings {
    /// The default settings: a llama.cpp server on `127.0.0.1:8080` whose
    /// native endpoints live at the root.
    pub fn default_settings() -> (s: Settings)
        ensures
            s.server_host@ == "127.0.0.1"@,
            s.server_port == 8080,
            s.base_path@ == Seq::<char>::empty(),
            s.poll_interval_ms == 3000,
            s.request_timeout_ms == 4000,
            s.theme@ == "auto"@,
            s.default_compact,
            !s.autorun,
            s.minimize_to_tray,
            !s.always_on_top,
            s.show_last_update,
            !s.verbose_logging,
            s.api_key is None,
            s.server_label is None,
            s.smoothing_window_secs == 30,
            s.hotkey matches Some(h) && h@ == "CmdOrCtrl+Shift+M"@,
    {
        broadcast use vstd::string::group_string_axioms;
        Settings {
            server_host: "127.0.0.1".to_string(),
            server_port: 8080,
            base_path: String::new(),
            poll_interval_ms: 3000,
            request_timeout_ms: 4000,
            theme: "auto".to_string(),
            default_compact: true,
            autorun: false,
            minimize_to_tray: true,
            always_on_top: false,
            show_last_update: true,
            verbose_logging: false,
            api_key: None,
            server_label: None,
            smoothing_window_secs: 30,
            hotkey: Some("CmdOrCtrl+Shift+M".to_string()),
        }
    }

    /// `http://host:port`, the root of the server.
    pub open spec fn server_root(self) -> Seq<char> {
        "http://"@ + host_port(self.server_host@, self.server_port as nat)
    }

    /// The configured base path without trailing slashes.
    pub open spec fn trimmed_path(self) -> Seq<char> {
        trim_trailing(self.base_path@, '/')
    }

    /// The base URL of the native llama.cpp endpoints.
    pub open spec fn native_url(self) -> Seq<char> {
        self.server_root() + self.trimmed_path()
    }

    /// The base URL of the OpenAI-compatible API: the native base URL with
    /// `/v1` appended unless the path already ends with it.
    pub open spec fn openai_url(self) -> Seq<char> {
        if ends_with(self.trimmed_path(), "/v1"@) {
            self.native_url()
        } else {
            self.native_url() + "/v1"@
        }
    }

    fn push_native_url(&self, out: &mut Vec<char>)
        ensures
            final(out)@ == old(out)@ + self.native_url(),
    {
        push_str(out, "http://");
        push_host_port(out, self.server_host.as_str(), self.server_port);
        let path = chars_of(self.base_path.as_str());
        let n = trim_trailing_len(&path, '/');
        push_range(out, &path, 0, n);
        assert(path@.subrange(0, n as int) =~= path@.take(n as int));
        assert(out@ =~= old(out)@ + self.native_url());
    }

    /// Base URL for **native** llama.cpp endpoints (`/health`, `/props`,
    /// `/slots`, `/metrics`), served from the server root.
    pub fn base_url(&self) -> (r: String)
        ensures
            r@ == self.native_url(),
    {
        let mut out: Vec<char> = Vec::new();
        self.push_native_url(&mut out);
        assert(out@ =~= self.native_url());
        string_of(out.as_slice())
    }

    /// Base URL for the **OpenAI-compatible** API (`/v1/models`, ...).
    pub fn openai_base_url(&self) -> (r: String)
        ensures
            r@ == self.openai_url(),
    {
        let mut out: Vec<char> = Vec::new();
        self.push_native_url(&mut out);
        let path = chars_of(self.base_path.as_str());
        let n = trim_trailing_len(&path, '/');
        let mut trimmed: Vec<char> = Vec::new();
        push_range(&mut trimmed, &path, 0, n);
        assert(trimmed@ =~= self.trimmed_path());
        if !ends_with_chars(&trimmed, &chars_of("/v1")) {
            push_str(&mut out, "/v1");
        }
        assert(out@ =~= self.openai_url());
        string_of(out.as_slice())
    }

    /// Bring an older settings file up to date; returns whether anything
    /// changed. The first releases defaulted `base_path` to `/v1`, which is
    /// wrong for the native endpoints; that untouched default becomes the
    /// empty root, while any other path is kept.
    pub fn migrate(&mut self) -> (changed: bool)
        ensures
            changed == (old(self).base_path@ == "/v1"@),
            changed ==> final(self).base_path@ == Seq::<char>::empty(),
            changed ==> *final(self) == (Settings { base_path: final(self).base_path, ..*old(self) }),
            !changed ==> *final(self) == *old(self),
            final(self).base_path@ != "/v1"@,
    {
        proof {
            reveal_strlit("/v1");
        }
        if text_is(self.base_path.as_str(), "/v1") {
            self.base_path = String::new();
            assert(self.base_path@.len() != "/v1"@.len());
            return true;
        }
        false
    }

    /// A copy for the UI: the API key, when set, is replaced by `"***"`.
    pub fn public_view(&self) -> (r: Settings)
        ensures
            masks(self.api_key, r.api_key),
            r == (Settings { api_key: r.api_key, ..*self }),
    {
        broadcast use vstd::string::group_string_axioms;
        Settings {
            server_host: self.server_host.clone(),
            server_port: self.server_port,
            base_path: self.base_path.clone(),
            poll_interval_ms: self.poll_interval_ms,
            request_timeout_ms: self.request_timeout_ms,
            theme: self.theme.clone(),
            default_compact: self.default_compact,
            autorun: self.autorun,
            minimize_to_tray: self.minimize_to_tray,
            always_on_top: self.always_on_top,
            show_last_update: self.show_last_update,
            verbose_logging: self.verbose_logging,
            api_key: mask_key(&self.api_key),
            server_label: clone_text(&self.server_label),
            smoothing_window_secs: self.smoothing_window_secs,
            hotkey: clone_text(&self.hotkey),
        }
    }
}

/// `shown` is what the UI sees of the secret `k`: `"***"` when it is set,
/// nothing when it is not.
pub open spec fn masks(k: Option<String>, shown: Option<String>) -> bool {
    match (k, shown) {
        (Some(_), Some(s)) => s@ == "***"@,
        (None, None) => true,
        _ => false,
    }
}

fn mask_key(k: &Option<String>) -> (r: Option<String>)
    ensures
        masks(*k, r),
{
    broadcast use vstd::string::group_string_axioms;
    match k {
        Some(_) => Some("***".to_string()),
        None => None,
    }
}

/// The secret to store when the UI sends `incoming` back while `existing` is
/// stored: a masked value (`"***"`) keeps the stored secret; anything else,
/// including clearing it, replaces it.
pub open spec fn restored(incoming: Option<String>, existing: Option<String>) -> Option<String> {
    match incoming {
        Some(s) => if s@ == "***"@ {
            existing
        } else {
            Some(s)
        },
        None => None,
    }
}

/// Merge a secret sent back by the UI with the stored one (see [`restored`]).
pub fn keep_secret_if_masked(incoming: Option<String>, existing: &Option<String>) -> (r: Option<
    String,
>)
    ensures
        r == restored(incoming, *existing),
{
    match incoming {
        Some(s) => if text_is(s.as_str(), "***") {
            clone_text(existing)
        } else {
            Some(s)
        },
        None => None,
    }
}

/// Sending the UI's masked view of the secret back keeps the stored secret.
pub proof fn lemma_masked_secret_round_trip(k: Option<String>, shown: Option<String>)
    requires
        masks(k, shown),
    ensures
        restored(shown, k) == k,
{
}

/// The OpenAI base URL extends the native base URL by `/v1`, and never
/// doubles it: when the configured path already ends with `/v1`, both URLs
/// coincide.
pub proof fn lemma_openai_url_extends_native(s: Settings)
    ensures
        s.openai_url() == s.native_url() || s.openai_url() == s.native_url() + "/v1"@,
        ends_with(s.trimmed_path(), "/v1"@) ==> s.openai_url() == s.native_url(),
        ends_with(s.openai_url(), "/v1"@),
{
    reveal_strlit("/v1");
    let n = s.native_url();
    if ends_with(s.trimmed_path(), "/v1"@) {
        let p = s.trimmed_path();
        assert(n.skip(n.len() - 3) =~= p.skip(p.len() - 3));
    } else {
        assert((n + "/v1"@).skip(n.len() + 3 - 3) =~= "/v1"@);
    }
}

/// `/v1` is appended to the native base URL exactly when that URL's text
/// does not already end with `/v1`. (The test on the configured path and the
/// test on the URL agree: the URL's text before the path ends in
/// `:` and the port's digits, which cannot form `/v1`.)
pub proof fn lemma_openai_url_appends_v1_when_missing(s: Settings)
    ensures
        s.openai_url() == (if ends_with(s.native_url(), "/v1"@) {
            s.native_url()
        } else {
            s.native_url() + "/v1"@
        }),
{
    reveal_strlit("/v1");
    reveal_strlit("http://");
    reveal_strlit(":");
    let n = s.native_url();
    let p = s.trimmed_path();
    let r = s.server_root();
    let d = decimal(s.server_port as nat);
    lemma_decimal_digits(s.server_port as nat);
    assert(n == r + p);
    assert(r == ("http://"@ + s.server_host@ + ":"@) + d);
    let k = r.len();
    assert(r[k - 1] == d[d.len() - 1]);
    assert(is_digit(r[k - 1]));
    assert(is_digit(r[k - 2]) || r[k - 2] == ':') by {
        if d.len() >= 2 {
            assert(r[k - 2] == d[d.len() - 2]);
        } else {
            assert(r[k - 2] == ':');
        }
    }
    if p.len() >= 3 {
        assert(n.skip(n.len() - 3) =~= p.skip(p.len() - 3));
    } else if p.len() == 2 {
        assert(n[n.len() - 3] == r[k - 1]);
        assert(n.skip(n.len() - 3)[0] != "/v1"@[0]);
    } else if p.len() == 1 {
        assert(n[n.len() - 2] == r[k - 1]);
        assert(n.skip(n.len() - 3)[1] != "/v1"@[1]);
    } else {
        assert(n[n.len() - 2] == r[k - 2]);
        assert(n.skip(n.len() - 3)[1] != "/v1"@[1]);
    }
}

} // verus!
