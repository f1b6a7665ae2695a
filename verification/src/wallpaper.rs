//! Applying a wallpaper: hyprpaper is told to preload it and to show it on
//! every candidate monitor in turn, then, if any monitor accepted it,
//! wallust regenerates the colours. The commands themselves are run by the caller; this module
//! decides which command comes next and what the outcome is.

use vstd::prelude::*;
use crate::config::AppConfig;
use crate::text::{same_text, ascii_lowercase, spec_ascii_lower, trim_text, spec_trim};

verus! {

/// How the wallpaper is fitted, from the configured preview fit: `contain`
/// and `fill` (in any ASCII case) are kept, anything else is `cover`.
pub open spec fn spec_fit(content_fit: Seq<char>) -> Seq<char> {
    let l = spec_ascii_lower(content_fit);
    if l == "contain"@ {
        "contain"@
    } else if l == "fill"@ {
        "fill"@
    } else {
        "cover"@
    }
}

/// The argument that shows `path` on monitor `mon` with the given fit; an
/// empty monitor name addresses hyprpaper's fallback wallpaper.
pub open spec fn spec_wallpaper_arg(mon: Seq<char>, path: Seq<char>, fit: Seq<char>) -> Seq<char> {
    mon + ","@ + path + ","@ + fit
}

/// The monitors to try, from the configured monitor and the monitor names
/// that hyprctl lists: an empty (or blank) setting means hyprpaper's
/// fallback (the empty name); `*` means every listed monitor, then the
/// fallback; anything else is that monitor alone, trimmed.
pub open spec fn spec_resolve_monitors(configured: Seq<char>, listed: Seq<Seq<char>>) -> Seq<Seq<char>> {
    let t = spec_trim(configured);
    if t.len() == 0 {
        seq![Seq::<char>::empty()]
    } else if t != "*"@ {
        seq![t]
    } else {
        listed.push(Seq::<char>::empty())
    }
}

/// The configured monitor asks for every monitor that hyprctl lists.
pub open spec fn spec_needs_monitor_list(configured: Seq<char>) -> bool {
    spec_trim(configured) == "*"@
}

/// hyprpaper's fit mode for the preview fit.
pub fn fit_mode(content_fit: &str) -> (r: &'static str)
    ensures
        r@ == spec_fit(content_fit@),
{
    let lower = ascii_lowercase(content_fit);
    if same_text(lower.as_str(), "contain") {
        "contain"
    } else if same_text(lower.as_str(), "fill") {
        "fill"
    } else {
        "cover"
    }
}

/// `mon,path,fit`: hyprpaper's wallpaper request.
pub fn wallpaper_arg(mon: &str, path: &str, fit: &str) -> (r: String)
    ensures
        r@ == spec_wallpaper_arg(mon@, path@, fit@),
{
    let mut out = String::from_str(mon);
    out.append(",");
    out.append(path);
    out.append(",");
    out.append(fit);
    out
}

/// Whether the configured monitor asks for every monitor hyprctl lists.
pub fn needs_monitor_list(configured: &str) -> (r: bool)
    ensures
        r == spec_needs_monitor_list(configured@),
{
    same_text(trim_text(configured), "*")
}

/// The monitors to try, given the configured monitor and the names hyprctl
/// listed (consulted only when the setting is `*`).
pub fn resolve_monitors(configured: &str, listed: Vec<String>) -> (r: Vec<String>)
    ensures
        r.deep_view() == spec_resolve_monitors(configured@, listed.deep_view()),
        r.len() > 0,
{
    let t = trim_text(configured);
    if t.unicode_len() == 0 {
        let mut out: Vec<String> = Vec::new();
        out.push(String::new());
        assert(out.deep_view() =~= seq![Seq::<char>::empty()]);
        return out;
    }
    if !same_text(t, "*") {
        let mut out: Vec<String> = Vec::new();
        out.push(String::from_str(t));
        assert(out.deep_view() =~= seq![t@]);
        return out;
    }
    let mut names = listed;
    let ghost before = names.deep_view();
    names.push(String::new());
    assert(names.deep_view() =~= before.push(Seq::<char>::empty()));
    names
}

/// The decimal digit `d`.
pub open spec fn digit_char(d: nat) -> char {
    ((48 + d) as u32) as char
}

/// `n` in decimal.
pub open spec fn spec_digits(n: nat) -> Seq<char>
    decreases n,
{
    if n < 10 {
        seq![digit_char(n)]
    } else {
        spec_digits(n / 10).push(digit_char(n % 10))
    }
}

/// `n` in decimal, with a leading `-` when negative.
pub open spec fn spec_int_text(n: int) -> Seq<char> {
    if n < 0 {
        seq!['-'] + spec_digits((-n) as nat)
    } else {
        spec_digits(n as nat)
    }
}

/// `i32`'s `Display` text: the number in decimal, with a leading `-` when
/// negative, as its documentation states.
#[verifier::external_body]
fn i32_text(n: i32) -> (r: String)
    ensures
        r@ == spec_int_text(n as int),
{
    n.to_string()
}

/// The error for a command that could not be started.
pub fn start_failure_message(label: &str, bin: &str, error: &str) -> (r: String)
    ensures
        r@ == "failed to start "@ + label@ + " ("@ + bin@ + "): "@ + error@,
{
    let mut r = String::from_str("failed to start ");
    r.append(label);
    r.append(" (");
    r.append(bin);
    r.append("): ");
    r.append(error);
    r
}

/// The error for a command that exited unsuccessfully: its exit code (-1
/// when it has none, as when a signal ended it) and its trimmed standard
/// output.
pub fn exit_failure_message(label: &str, code: Option<i32>, stdout: &str) -> (r: String)
    ensures
        r@ == label@ + " exited with "@ + spec_int_text(
            match code {
                Some(c) => c as int,
                None => -1,
            },
        ) + ": "@ + spec_trim(stdout@),
{
    let c: i32 = match code {
        Some(c) => c,
        None => -1,
    };
    let digits = i32_text(c);
    let mut r = String::from_str(label);
    r.append(" exited with ");
    r.append(digits.as_str());
    r.append(": ");
    r.append(trim_text(stdout));
    r
}

/// The elements of the JSON document in `bytes`, if it is an array: for
/// each element, its `name` member when that is a string.
pub uninterp spec fn json_array_names(bytes: Seq<u8>) -> Option<Seq<Option<Seq<char>>>>;

/// Parses `bytes` with `serde_json::from_slice` into a `serde_json::Value`
/// and, when that is an array, takes each element's `name` member where it
/// is a string. The outcome is named [`json_array_names`]; nothing more is
/// stated of it.
#[verifier::external_body]
fn parse_array_names(bytes: &[u8]) -> (r: Option<Vec<Option<String>>>)
    ensures
        r.deep_view() == json_array_names(bytes@),
{
    match serde_json::from_slice::<serde_json::Value>(bytes) {
        Ok(serde_json::Value::Array(items)) => Some(
            items.iter().map(|m| m.get("name").and_then(|n| n.as_str()).map(String::from)).collect(),
        ),
        Ok(_) => None,
        Err(_) => None,
    }
}

/// The names that are present, in order.
pub open spec fn spec_present_names(entries: Seq<Option<Seq<char>>>) -> Seq<Seq<char>>
    decreases entries.len(),
{
    if entries.len() == 0 {
        seq![]
    } else {
        let rest = spec_present_names(entries.drop_last());
        match entries.last() {
            Some(n) => rest.push(n),
            None => rest,
        }
    }
}

/// The monitor names in hyprctl's JSON monitor list; nothing when the
/// output is not a JSON array.
pub open spec fn spec_monitor_names(stdout: Seq<u8>) -> Seq<Seq<char>> {
    match json_array_names(stdout) {
        Some(entries) => spec_present_names(entries),
        None => seq![],
    }
}

/// The names that are present among the monitor entries, in order.
pub fn present_names(entries: Vec<Option<String>>) -> (r: Vec<String>)
    ensures
        r.deep_view() == spec_present_names(entries.deep_view()),
{
    let ghost ev = entries.deep_view();
    let mut out: Vec<String> = Vec::new();
    let n = entries.len();
    let mut i: usize = 0;
    assert(ev.take(0) =~= Seq::<Option<Seq<char>>>::empty());
    assert(out.deep_view() =~= spec_present_names(ev.take(0)));
    while i < n
        invariant
            n == entries.len(),
            ev == entries.deep_view(),
            i <= n,
            out.deep_view() == spec_present_names(ev.take(i as int)),
        decreases n - i,
    {
        assert(ev.take(i + 1).drop_last() =~= ev.take(i as int));
        assert(ev.take(i + 1).last() == ev[i as int]);
        let ghost before = out.deep_view();
        match &entries[i] {
            Some(name) => {
                out.push(name.clone());
                assert(out.deep_view() =~= before.push(name@));
            },
            None => {},
        }
        i = i + 1;
    }
    assert(ev.take(n as int) =~= ev);
    out
}

/// The monitor names in the standard output of `hyprctl -j monitors`.
pub fn monitor_names(stdout: &[u8]) -> (r: Vec<String>)
    ensures
        r.deep_view() == spec_monitor_names(stdout@),
{
    match parse_array_names(stdout) {
        Some(entries) => present_names(entries),
        None => {
            let r: Vec<String> = Vec::new();
            assert(r.deep_view() =~= Seq::<Seq<char>>::empty());
            r
        },
    }
}

/// Where an apply session stands.
#[derive(Clone, Copy, Debug)]
pub enum ApplyPhase {
    /// Not started.
    Idle,
    /// Waiting for hyprpaper's preload to finish.
    Preloading,
    /// Waiting for hyprctl's list of monitors.
    Listing,
    /// Waiting for hyprpaper to show the wallpaper on `next`'s monitor.
    SettingWallpaper,
    /// Waiting for wallust.
    RunningWallust,
    /// Done; the last step carried the outcome.
    Finished,
}

/// What the caller does next.
#[derive(Debug)]
pub enum ApplyStep {
    /// Run `bin` with `args`, logging under `label`; report the outcome
    /// with [`ApplySession::command_finished`].
    Run { bin: String, args: Vec<String>, label: String },
    /// Run `bin` with `args` and report the monitor names in its standard
    /// output with [`ApplySession::monitors_listed`] (none if it fails).
    ListMonitors { bin: String, args: Vec<String> },
    /// Applying is over, with this outcome.
    Done { result: Result<(), String> },
}

/// An [`ApplyStep`] as plain values.
pub enum StepView {
    Run { bin: Seq<char>, args: Seq<Seq<char>>, label: Seq<char> },
    ListMonitors { bin: Seq<char>, args: Seq<Seq<char>> },
    Done { result: Result<(), Seq<char>> },
}

pub open spec fn result_view(r: Result<(), String>) -> Result<(), Seq<char>> {
    match r {
        Ok(()) => Ok(()),
        Err(e) => Err(e@),
    }
}

impl View for ApplyStep {
    type V = StepView;

    open spec fn view(&self) -> StepView {
        match self {
            ApplyStep::Run { bin, args, label } => StepView::Run {
                bin: bin@,
                args: args.deep_view(),
                label: label@,
            },
            ApplyStep::ListMonitors { bin, args } => StepView::ListMonitors {
                bin: bin@,
                args: args.deep_view(),
            },
            ApplyStep::Done { result } => StepView::Done { result: result_view(*result) },
        }
    }
}

/// The session's state as plain values.
pub struct SessionView {
    /// The wallpaper, as handed to hyprpaper and wallust.
    pub path: Seq<char>,
    pub hyprpaper_enabled: bool,
    pub preload: bool,
    pub hyprctl_bin: Seq<char>,
    pub monitor: Seq<char>,
    pub fit: Seq<char>,
    pub wallust_enabled: bool,
    pub wallust_bin: Seq<char>,
    pub phase: ApplyPhase,
    /// The monitors to try, once known.
    pub monitors: Seq<Seq<char>>,
    /// The monitor being tried.
    pub next: nat,
    /// The error of the last failed attempt.
    pub last_err: Option<Seq<char>>,
    /// The monitors that accepted the wallpaper, in the order asked.
    pub succeeded: Seq<Seq<char>>,
}

impl SessionView {
    pub open spec fn wf(self) -> bool {
        self.phase is SettingWallpaper ==> self.next < self.monitors.len()
    }
}

/// Applies one wallpaper, one command at a time.
#[derive(Debug)]
pub struct ApplySession {
    path: String,
    hyprpaper_enabled: bool,
    preload: bool,
    hyprctl_bin: String,
    monitor: String,
    fit: String,
    wallust_enabled: bool,
    wallust_bin: String,
    phase: ApplyPhase,
    monitors: Vec<String>,
    next: usize,
    last_err: Option<String>,
    succeeded: Vec<String>,
}

impl View for ApplySession {
    type V = SessionView;

    closed spec fn view(&self) -> SessionView {
        SessionView {
            path: self.path@,
            hyprpaper_enabled: self.hyprpaper_enabled,
            preload: self.preload,
            hyprctl_bin: self.hyprctl_bin@,
            monitor: self.monitor@,
            fit: self.fit@,
            wallust_enabled: self.wallust_enabled,
            wallust_bin: self.wallust_bin@,
            phase: self.phase,
            monitors: self.monitors.deep_view(),
            next: self.next as nat,
            last_err: crate::paths::opt_view(self.last_err),
            succeeded: self.succeeded.deep_view(),
        }
    }
}

/// Running wallust on the wallpaper if it is enabled; otherwise done.
pub open spec fn spec_run_wallust(s: SessionView) -> (SessionView, StepView) {
    if s.wallust_enabled {
        (
            SessionView { phase: ApplyPhase::RunningWallust, ..s },
            StepView::Run { bin: s.wallust_bin, args: seq!["run"@, s.path], label: "wallust run"@ },
        )
    } else {
        (SessionView { phase: ApplyPhase::Finished, ..s }, StepView::Done { result: Ok(()) })
    }
}

/// Asking monitor `i`; past the last monitor, going on to wallust when some
/// monitor accepted the wallpaper, and otherwise done with the last
/// attempt's error (or a generic one when there was no attempt).
pub open spec fn spec_try_monitor(s: SessionView, i: nat) -> (SessionView, StepView) {
    if i < s.monitors.len() {
        (
            SessionView { phase: ApplyPhase::SettingWallpaper, next: i, ..s },
            StepView::Run {
                bin: s.hyprctl_bin,
                args: seq![
                    "hyprpaper"@,
                    "wallpaper"@,
                    spec_wallpaper_arg(s.monitors[i as int], s.path, s.fit),
                ],
                label: "hyprpaper wallpaper"@,
            },
        )
    } else if s.succeeded.len() > 0 {
        spec_run_wallust(s)
    } else {
        (
            SessionView { phase: ApplyPhase::Finished, ..s },
            StepView::Done {
                result: Err(
                    match s.last_err {
                        Some(e) => e,
                        None => "hyprpaper wallpaper failed"@,
                    },
                ),
            },
        )
    }
}

/// Finding the monitors: asking hyprctl for them when the setting is `*`,
/// else trying the configured one.
pub open spec fn spec_enter_monitors(s: SessionView) -> (SessionView, StepView) {
    if spec_needs_monitor_list(s.monitor) {
        (
            SessionView { phase: ApplyPhase::Listing, ..s },
            StepView::ListMonitors { bin: s.hyprctl_bin, args: seq!["-j"@, "monitors"@] },
        )
    } else {
        spec_try_monitor(
            SessionView { monitors: spec_resolve_monitors(s.monitor, seq![]), ..s },
            0,
        )
    }
}

/// hyprpaper's part: preloading the wallpaper if asked, else finding the
/// monitors.
pub open spec fn spec_set_hyprpaper(s: SessionView) -> (SessionView, StepView) {
    if s.preload {
        (
            SessionView { phase: ApplyPhase::Preloading, ..s },
            StepView::Run {
                bin: s.hyprctl_bin,
                args: seq!["hyprpaper"@, "preload"@, s.path],
                label: "hyprpaper preload"@,
            },
        )
    } else {
        spec_enter_monitors(s)
    }
}

/// The first step: hyprpaper's part if it is enabled, otherwise wallust's.
pub open spec fn spec_start(s: SessionView) -> (SessionView, StepView) {
    if s.hyprpaper_enabled {
        spec_set_hyprpaper(s)
    } else {
        spec_run_wallust(s)
    }
}

/// A command finished: a preload's outcome is ignored; a wallpaper request's
/// outcome is recorded (the monitor among those that accepted, or the error
/// as the last one) and the next monitor is asked, so that every monitor is
/// asked; wallust's outcome is the session's.
pub open spec fn spec_command_finished(s: SessionView, r: Result<(), Seq<char>>) -> (SessionView, StepView) {
    match s.phase {
        ApplyPhase::Preloading => spec_enter_monitors(s),
        ApplyPhase::SettingWallpaper => spec_try_monitor(spec_record(s, r), s.next + 1),
        _ => (SessionView { phase: ApplyPhase::Finished, ..s }, StepView::Done { result: r }),
    }
}

/// The outcome of the wallpaper request for the monitor being asked,
/// recorded.
pub open spec fn spec_record(s: SessionView, r: Result<(), Seq<char>>) -> SessionView {
    match r {
        Ok(()) => SessionView { succeeded: s.succeeded.push(s.monitors[s.next as int]), ..s },
        Err(e) => SessionView { last_err: Some(e), ..s },
    }
}

/// hyprctl listed monitors: every one of them, then hyprpaper's fallback, is
/// tried in turn.
pub open spec fn spec_monitors_listed(s: SessionView, names: Seq<Seq<char>>) -> (SessionView, StepView) {
    spec_try_monitor(SessionView { monitors: spec_resolve_monitors(s.monitor, names), ..s }, 0)
}

/// The session waits for a command's outcome in this phase.
pub open spec fn awaits_command(p: ApplyPhase) -> bool {
    p is Preloading || p is SettingWallpaper || p is RunningWallust
}

/// The step goes with the phase: a command to run while one is awaited, a
/// monitor listing while monitors are awaited, the end when finished.
pub open spec fn step_fits_phase(step: StepView, p: ApplyPhase) -> bool {
    match step {
        StepView::Run { .. } => awaits_command(p),
        StepView::ListMonitors { .. } => p is Listing,
        StepView::Done { .. } => p is Finished,
    }
}

fn text(s: &str) -> (r: String)
    ensures
        r@ == s@,
{
    String::from_str(s)
}

impl ApplySession {
    #[verifier::type_invariant]
    closed spec fn inv(self) -> bool {
        self@.wf()
    }

    /// A session that applies the wallpaper at `path` (absolute, as the
    /// commands receive it) under the configuration's hyprpaper and wallust
    /// settings.
    pub fn new(path: String, cfg: &AppConfig) -> (r: ApplySession)
        ensures
            r@ == (SessionView {
                path: path@,
                hyprpaper_enabled: cfg.hyprpaper.enabled,
                preload: cfg.hyprpaper.preload,
                hyprctl_bin: cfg.hyprpaper.hyprctl_bin@,
                monitor: cfg.hyprpaper.monitor@,
                fit: spec_fit(cfg.ui.preview.content_fit@),
                wallust_enabled: cfg.wallust.enabled,
                wallust_bin: cfg.wallust.bin@,
                phase: ApplyPhase::Idle,
                monitors: seq![],
                next: 0,
                last_err: None,
                succeeded: seq![],
            }),
            r@.wf(),
    {
        let fit = fit_mode(cfg.ui.preview.content_fit.as_str());
        let r = ApplySession {
            path,
            hyprpaper_enabled: cfg.hyprpaper.enabled,
            preload: cfg.hyprpaper.preload,
            hyprctl_bin: cfg.hyprpaper.hyprctl_bin.clone(),
            monitor: cfg.hyprpaper.monitor.clone(),
            fit: text(fit),
            wallust_enabled: cfg.wallust.enabled,
            wallust_bin: cfg.wallust.bin.clone(),
            phase: ApplyPhase::Idle,
            monitors: Vec::new(),
            next: 0,
            last_err: None,
            succeeded: Vec::new(),
        };
        assert(r@.monitors =~= Seq::<Seq<char>>::empty());
        assert(r@.succeeded =~= Seq::<Seq<char>>::empty());
        r
    }

    /// The monitors that accepted the wallpaper so far, in the order asked.
    pub fn succeeded(&self) -> (r: &Vec<String>)
        ensures
            r.deep_view() == self@.succeeded,
    {
        &self.succeeded
    }

    /// Whether the session waits for a command's outcome.
    pub fn awaiting_command(&self) -> (r: bool)
        ensures
            r == awaits_command(self@.phase),
    {
        match self.phase {
            ApplyPhase::Preloading | ApplyPhase::SettingWallpaper | ApplyPhase::RunningWallust => true,
            _ => false,
        }
    }

    /// Whether the session waits for hyprctl's list of monitors.
    pub fn awaiting_monitors(&self) -> (r: bool)
        ensures
            r == (self@.phase is Listing),
    {
        match self.phase {
            ApplyPhase::Listing => true,
            _ => false,
        }
    }

    fn run_wallust(&mut self) -> (r: ApplyStep)
        ensures
            (final(self)@, r@) == spec_run_wallust(old(self)@),
    {
        if self.wallust_enabled {
            self.phase = ApplyPhase::RunningWallust;
            let args = vec![text("run"), self.path.clone()];
            assert(args.deep_view() =~= seq!["run"@, self.path@]);
            ApplyStep::Run { bin: self.wallust_bin.clone(), args, label: text("wallust run") }
        } else {
            self.phase = ApplyPhase::Finished;
            ApplyStep::Done { result: Ok(()) }
        }
    }

    fn try_monitor(&mut self, i: usize) -> (r: ApplyStep)
        ensures
            (final(self)@, r@) == spec_try_monitor(old(self)@, i as nat),
    {
        if i < self.monitors.len() {
            self.next = i;
            self.phase = ApplyPhase::SettingWallpaper;
            let arg = wallpaper_arg(self.monitors[i].as_str(), self.path.as_str(), self.fit.as_str());
            let args = vec![text("hyprpaper"), text("wallpaper"), arg];
            assert(args.deep_view() =~= seq![
                "hyprpaper"@,
                "wallpaper"@,
                spec_wallpaper_arg(self@.monitors[i as int], self@.path, self@.fit),
            ]);
            ApplyStep::Run {
                bin: self.hyprctl_bin.clone(),
                args,
                label: text("hyprpaper wallpaper"),
            }
        } else if self.succeeded.len() > 0 {
            self.run_wallust()
        } else {
            self.phase = ApplyPhase::Finished;
            let e = match &self.last_err {
                Some(e) => e.clone(),
                None => text("hyprpaper wallpaper failed"),
            };
            ApplyStep::Done { result: Err(e) }
        }
    }

    fn enter_monitors(&mut self) -> (r: ApplyStep)
        requires
            !(old(self)@.phase is SettingWallpaper),
        ensures
            (final(self)@, r@) == spec_enter_monitors(old(self)@),
    {
        if needs_monitor_list(self.monitor.as_str()) {
            self.phase = ApplyPhase::Listing;
            let args = vec![text("-j"), text("monitors")];
            assert(args.deep_view() =~= seq!["-j"@, "monitors"@]);
            ApplyStep::ListMonitors { bin: self.hyprctl_bin.clone(), args }
        } else {
            let none: Vec<String> = Vec::new();
            assert(none.deep_view() =~= Seq::<Seq<char>>::empty());
            self.monitors = resolve_monitors(self.monitor.as_str(), none);
            self.try_monitor(0)
        }
    }

    fn set_hyprpaper(&mut self) -> (r: ApplyStep)
        requires
            !(old(self)@.phase is SettingWallpaper),
        ensures
            (final(self)@, r@) == spec_set_hyprpaper(old(self)@),
    {
        if self.preload {
            self.phase = ApplyPhase::Preloading;
            let args = vec![text("hyprpaper"), text("preload"), self.path.clone()];
            assert(args.deep_view() =~= seq!["hyprpaper"@, "preload"@, self@.path]);
            ApplyStep::Run { bin: self.hyprctl_bin.clone(), args, label: text("hyprpaper preload") }
        } else {
            self.enter_monitors()
        }
    }

    /// Starts applying.
    pub fn start(&mut self) -> (r: ApplyStep)
        requires
            old(self)@.phase is Idle,
        ensures
            (final(self)@, r@) == spec_start(old(self)@),
            final(self)@.wf(),
            step_fits_phase(r@, final(self)@.phase),
    {
        if self.hyprpaper_enabled {
            self.set_hyprpaper()
        } else {
            self.run_wallust()
        }
    }

    /// Reports the outcome of the command that the last step asked for.
    pub fn command_finished(&mut self, result: Result<(), String>) -> (r: ApplyStep)
        requires
            awaits_command(old(self)@.phase),
        ensures
            (final(self)@, r@) == spec_command_finished(old(self)@, result_view(result)),
            final(self)@.wf(),
            step_fits_phase(r@, final(self)@.phase),
    {
        match self.phase {
            ApplyPhase::Preloading => self.enter_monitors(),
            ApplyPhase::SettingWallpaper => {
                proof {
                    use_type_invariant(&*self);
                }
                assert(self.next < self.monitors.len());
                match result {
                    Ok(()) => {
                        let ghost before = self.succeeded.deep_view();
                        let mon = self.monitors[self.next].clone();
                        let mut accepted = self.succeeded.clone();
                        assert(accepted.deep_view() =~= before);
                        accepted.push(mon);
                        self.succeeded = accepted;
                        assert(self.succeeded.deep_view() =~= before.push(
                            old(self)@.monitors[old(self)@.next as int],
                        ));
                    },
                    Err(e) => {
                        self.last_err = Some(e);
                    },
                }
                let i = self.next + 1;
                self.try_monitor(i)
            },
            _ => {
                self.phase = ApplyPhase::Finished;
                ApplyStep::Done { result }
            },
        }
    }

    /// Reports the monitor names that hyprctl listed.
    pub fn monitors_listed(&mut self, names: Vec<String>) -> (r: ApplyStep)
        requires
            old(self)@.phase is Listing,
        ensures
            (final(self)@, r@) == spec_monitors_listed(old(self)@, names.deep_view()),
            final(self)@.wf(),
            step_fits_phase(r@, final(self)@.phase),
    {
        self.monitors = resolve_monitors(self.monitor.as_str(), names);
        self.try_monitor(0)
    }
}

/// The session after the wallpaper requests, from the monitor being asked
/// on, come back with `results` in turn.
pub open spec fn spec_report_each(s: SessionView, results: Seq<Result<(), Seq<char>>>) -> (SessionView, StepView)
    decreases results.len(),
{
    let (s1, step1) = spec_command_finished(s, results[0]);
    if results.len() <= 1 {
        (s1, step1)
    } else {
        spec_report_each(s1, results.drop_first())
    }
}

/// The monitors, from index `k` on, whose request came back `Ok` in
/// `results`.
pub open spec fn spec_accepting(monitors: Seq<Seq<char>>, results: Seq<Result<(), Seq<char>>>, k: int) -> Seq<Seq<char>>
    decreases results.len(),
{
    if results.len() == 0 {
        seq![]
    } else {
        let rest = spec_accepting(monitors, results.drop_first(), k + 1);
        if results[0] is Ok {
            seq![monitors[k]] + rest
        } else {
            rest
        }
    }
}

/// The error of the last failed request in `results`, else `prev`.
pub open spec fn spec_last_error(prev: Option<Seq<char>>, results: Seq<Result<(), Seq<char>>>) -> Option<Seq<char>>
    decreases results.len(),
{
    if results.len() == 0 {
        prev
    } else {
        let p = match results[0] {
            Ok(()) => prev,
            Err(e) => Some(e),
        };
        spec_last_error(p, results.drop_first())
    }
}

/// Every monitor, from the one being asked to the last, is asked in turn,
/// whatever each answers. Afterwards the monitors that accepted are
/// recorded in order; if any did, wallust's part follows, and otherwise
/// applying ends with the last error.
pub proof fn lemma_every_monitor_asked(s: SessionView, results: Seq<Result<(), Seq<char>>>)
    requires
        s.phase is SettingWallpaper,
        s.wf(),
        results.len() == s.monitors.len() - s.next,
    ensures
        ({
            let fin = SessionView {
                next: (s.monitors.len() - 1) as nat,
                succeeded: s.succeeded + spec_accepting(s.monitors, results, s.next as int),
                last_err: spec_last_error(s.last_err, results),
                ..s
            };
            spec_report_each(s, results) == if fin.succeeded.len() > 0 {
                spec_run_wallust(fin)
            } else {
                (
                    SessionView { phase: ApplyPhase::Finished, ..fin },
                    StepView::Done {
                        result: Err(
                            match fin.last_err {
                                Some(e) => e,
                                None => "hyprpaper wallpaper failed"@,
                            },
                        ),
                    },
                )
            }
        }),
    decreases results.len(),
{
    let s1 = spec_record(s, results[0]);
    let rest = results.drop_first();
    let k = s.next as int;
    let acc_rest = spec_accepting(s.monitors, rest, k + 1);
    assert(spec_last_error(s.last_err, results) == spec_last_error(s1.last_err, rest));
    if results[0] is Ok {
        assert(spec_accepting(s.monitors, results, k) == seq![s.monitors[k]] + acc_rest);
        assert(s1.succeeded + acc_rest =~= s.succeeded + (seq![s.monitors[k]] + acc_rest));
    } else {
        assert(spec_accepting(s.monitors, results, k) == acc_rest);
        assert(s1.succeeded == s.succeeded);
    }
    if results.len() > 1 {
        let (t, _) = spec_command_finished(s, results[0]);
        assert(t == SessionView { phase: ApplyPhase::SettingWallpaper, next: s.next + 1, ..s1 });
        lemma_every_monitor_asked(t, rest);
    } else {
        assert(rest.len() == 0);
        assert(acc_rest == Seq::<Seq<char>>::empty());
        assert(spec_last_error(s1.last_err, rest) == s1.last_err);
        assert(s1.succeeded + acc_rest =~= s1.succeeded);
    }
}

/// With `*`, the monitors asked are every monitor hyprctl listed, in its
/// order, then hyprpaper's fallback; asking starts with the first of them.
pub proof fn lemma_star_asks_every_listed_monitor(s: SessionView, names: Seq<Seq<char>>)
    requires
        spec_needs_monitor_list(s.monitor),
    ensures
        spec_monitors_listed(s, names).0.monitors == names.push(Seq::<char>::empty()),
        spec_monitors_listed(s, names).0.phase is SettingWallpaper,
        spec_monitors_listed(s, names).0.next == 0,
        spec_monitors_listed(s, names).0.succeeded == s.succeeded,
{
    reveal_strlit("*");
}

/// With hyprpaper enabled and a monitor named in the configuration (not
/// blank, not `*`), that monitor, trimmed, is the only one tried, and the
/// first wallpaper request is `<monitor>,<path>,<fit>` to hyprctl: at once
/// when nothing is preloaded, right after the preload otherwise, whatever
/// the preload's outcome.
pub proof fn lemma_named_monitor_request(s: SessionView, preload_result: Result<(), Seq<char>>)
    requires
        s.phase is Idle,
        s.hyprpaper_enabled,
        !spec_needs_monitor_list(s.monitor),
        spec_trim(s.monitor).len() > 0,
    ensures
        ({
            let (s1, step1) = spec_start(s);
            let (t, step) = if s.preload {
                spec_command_finished(s1, preload_result)
            } else {
                (s1, step1)
            };
            &&& t.monitors == seq![spec_trim(s.monitor)]
            &&& t.next == 0
            &&& t.phase is SettingWallpaper
            &&& step == StepView::Run {
                bin: s.hyprctl_bin,
                args: seq![
                    "hyprpaper"@,
                    "wallpaper"@,
                    spec_trim(s.monitor) + ","@ + s.path + ","@ + s.fit,
                ],
                label: "hyprpaper wallpaper"@,
            }
        }),
{
    assert(spec_resolve_monitors(s.monitor, seq![]) == seq![spec_trim(s.monitor)]);
}

/// Once the monitors are known, the first one is always tried: hyprpaper's
/// generic failure is never the outcome without an attempt.
pub proof fn lemma_first_monitor_tried(s: SessionView, names: Seq<Seq<char>>)
    ensures
        spec_monitors_listed(s, names).1 is Run,
        spec_monitors_listed(s, names).0.next == 0,
        !spec_needs_monitor_list(s.monitor) ==> spec_enter_monitors(s).1 is Run,
{
    assert(spec_resolve_monitors(s.monitor, names).len() > 0);
    assert(spec_resolve_monitors(s.monitor, seq![]).len() > 0);
}

/// When every command succeeds, with preloading and wallust enabled and a
/// monitor named in the configuration: the wallpaper is preloaded, shown on
/// that monitor (trimmed), wallust is run on it, and applying succeeds.
pub proof fn lemma_all_succeed(s: SessionView)
    requires
        s.phase is Idle,
        s.hyprpaper_enabled,
        s.preload,
        s.wallust_enabled,
        !spec_needs_monitor_list(s.monitor),
        spec_trim(s.monitor).len() > 0,
    ensures
        ({
            let (s1, step1) = spec_start(s);
            let (s2, step2) = spec_command_finished(s1, Ok(()));
            let (s3, step3) = spec_command_finished(s2, Ok(()));
            let (s4, step4) = spec_command_finished(s3, Ok(()));
            &&& step1 == StepView::Run {
                bin: s.hyprctl_bin,
                args: seq!["hyprpaper"@, "preload"@, s.path],
                label: "hyprpaper preload"@,
            }
            &&& step2 == StepView::Run {
                bin: s.hyprctl_bin,
                args: seq![
                    "hyprpaper"@,
                    "wallpaper"@,
                    spec_wallpaper_arg(spec_trim(s.monitor), s.path, s.fit),
                ],
                label: "hyprpaper wallpaper"@,
            }
            &&& step3 == StepView::Run {
                bin: s.wallust_bin,
                args: seq!["run"@, s.path],
                label: "wallust run"@,
            }
            &&& step4 == StepView::Done { result: Ok(()) }
            &&& s4.phase is Finished
        }),
{
    let (s1, step1) = spec_start(s);
    let (s2, step2) = spec_command_finished(s1, Ok(()));
    assert(s2.monitors == seq![spec_trim(s.monitor)]);
}

} // verus!
