//! Validation of discovered VST3 plugins in an isolated scanner process.
//!
//! Each candidate is checked by its own scanner; what the scanner reports
//! decides whether the plugin is `validated`, `failed` or `quarantined`. A
//! scanner that hangs, crashes or cannot talk back quarantines its candidate.
//! Cancellation abandons the whole validation so the previous catalog stays.

use vstd::prelude::*;
use crate::plugins::{PluginEntry, ScanIssue, ScanReport};
use crate::text::{
    append_str, concat2, concat3, decimal, opt_view, string_from_range, to_string, trim_chars, trim_spec,
    u64_to_decimal,
};

verus! {

broadcast use vstd::string::group_string_axioms;

/// A scanner is given this many seconds before it is terminated.
pub const SCANNER_TIMEOUT_SECS: u64 = 30;

/// At most this many scanners run at once.
pub const MAX_PARALLEL_SCANNERS: usize = 4;

/// The metadata a scanner reports for a plugin it could load.
#[derive(Clone, Debug)]
pub struct PluginMetadata {
    pub name: String,
    pub vendor: Option<String>,
    pub version: Option<String>,
}

/// The JSON envelope a scanner prints: `pluginScanResult` with the plugins
/// it found, or `pluginScanError` with a message.
#[derive(Clone, Debug)]
pub struct ScanEnvelope {
    pub message_type: String,
    pub plugins: Option<Vec<PluginMetadata>>,
    pub message: Option<String>,
}

/// What checking one candidate came to.
#[derive(Debug)]
pub enum ValidationOutcome {
    Validated(PluginMetadata),
    Failed(String),
    Quarantined(String),
    Cancelled,
}

/// The mathematical view of an envelope.
pub struct EnvelopeView {
    pub message_type: Seq<char>,
    pub plugins: Option<Seq<PluginMetadata>>,
    pub message: Option<Seq<char>>,
}

impl View for ScanEnvelope {
    type V = EnvelopeView;

    open spec fn view(&self) -> EnvelopeView {
        EnvelopeView {
            message_type: self.message_type@,
            plugins: match self.plugins { Some(p) => Some(p@), None => None },
            message: opt_view(self.message),
        }
    }
}

/// The mathematical view of an outcome; a validated plugin keeps the
/// scanner's metadata as reported.
pub enum OutcomeView {
    Validated(PluginMetadata),
    Failed(Seq<char>),
    Quarantined(Seq<char>),
    Cancelled,
}

impl View for ValidationOutcome {
    type V = OutcomeView;

    open spec fn view(&self) -> OutcomeView {
        match self {
            ValidationOutcome::Validated(m) => OutcomeView::Validated(*m),
            ValidationOutcome::Failed(s) => OutcomeView::Failed(s@),
            ValidationOutcome::Quarantined(s) => OutcomeView::Quarantined(s@),
            ValidationOutcome::Cancelled => OutcomeView::Cancelled,
        }
    }
}

/// Decimal text of a signed integer.
pub open spec fn signed_decimal(n: int) -> Seq<char> {
    if n < 0 { "-"@ + decimal((-n) as nat) } else { decimal(n as nat) }
}

/// The debug text of an optional exit code: `Some(<code>)` or `None`.
pub open spec fn exit_code_text(code: Option<i32>) -> Seq<char> {
    match code {
        Some(c) => "Some("@ + signed_decimal(c as int) + ")"@,
        None => "None"@,
    }
}

/// The diagnostic appended to a quarantine message: the first 240
/// characters of the scanner's trimmed standard error, if it wrote any.
pub open spec fn diagnostic(stderr: Seq<char>) -> Seq<char> {
    let t = trim_spec(stderr);
    if t.len() == 0 {
        Seq::empty()
    } else {
        " Diagnostic: "@ + t.take(if t.len() < 240 { t.len() as int } else { 240 })
    }
}

/// The message of a `pluginScanError` envelope that carries none.
pub open spec fn no_component_message() -> Seq<char> {
    "The isolated scanner found no usable VST3 component. Other plugins and session data are unaffected."@
}

/// The outcome of a scanner that exited with `code`, having printed
/// `envelope` (its first parsable line) and `stderr`. A result counts only
/// with exit code 0 and at least one plugin, the first of which is taken;
/// anything the envelope does not settle quarantines the candidate.
pub open spec fn interpret_spec(envelope: Option<EnvelopeView>, stderr: Seq<char>, code: Option<i32>) -> OutcomeView {
    let quarantined = OutcomeView::Quarantined(
        "Plugin scanner exited unexpectedly with code "@ + exit_code_text(code)
            + ". The candidate is quarantined; session data is safe."@ + diagnostic(stderr),
    );
    match envelope {
        Some(e) => {
            if e.message_type == "pluginScanResult"@ && code == Some(0i32) && (e.plugins matches Some(p) && p.len() > 0) {
                OutcomeView::Validated(e.plugins->0[0])
            } else if e.message_type == "pluginScanError"@ {
                OutcomeView::Failed(match e.message { Some(m) => m, None => no_component_message() })
            } else {
                quarantined
            }
        },
        None => quarantined,
    }
}

/// Decimal text of a signed 32-bit integer.
fn i32_to_decimal(n: i32) -> (s: String)
    ensures
        s@ == signed_decimal(n as int),
{
    if n < 0 {
        let magnitude: u64 = (0i64 - n as i64) as u64;
        let digits = u64_to_decimal(magnitude);
        concat2("-", digits.as_str())
    } else {
        u64_to_decimal(n as u64)
    }
}

/// The quarantine message for an unexpected scanner exit.
fn unexpected_exit_message(stderr: &str, code: Option<i32>) -> (m: String)
    ensures
        m@ == "Plugin scanner exited unexpectedly with code "@ + exit_code_text(code)
            + ". The candidate is quarantined; session data is safe."@ + diagnostic(stderr@),
{
    let mut m = to_string("Plugin scanner exited unexpectedly with code ");
    match code {
        Some(c) => {
            append_str(&mut m, "Some(");
            let digits = i32_to_decimal(c);
            append_str(&mut m, digits.as_str());
            append_str(&mut m, ")");
        },
        None => append_str(&mut m, "None"),
    }
    append_str(&mut m, ". The candidate is quarantined; session data is safe.");
    let t = trim_chars(stderr);
    if t.len() > 0 {
        append_str(&mut m, " Diagnostic: ");
        let end: usize = if t.len() < 240 { t.len() } else { 240 };
        let head = string_from_range(&t, 0, end);
        assert(head@ =~= trim_spec(stderr@).take(end as int));
        append_str(&mut m, head.as_str());
    }
    m
}

/// Decides a scanner's outcome from the first envelope it printed, its
/// standard error and its exit code.
pub fn interpret_result(envelope: Option<ScanEnvelope>, stderr: &str, code: Option<i32>) -> (r: ValidationOutcome)
    ensures
        r@ == interpret_spec(match envelope { Some(e) => Some(e@), None => None }, stderr@, code),
{
    match envelope {
        Some(e) => {
            let ScanEnvelope { message_type, plugins, message } = e;
            let is_result = crate::text::str_eq(message_type.as_str(), "pluginScanResult");
            if is_result && code == Some(0i32) {
                match plugins {
                    Some(mut list) => {
                        if list.len() > 0 {
                            let first = list.remove(0);
                            return ValidationOutcome::Validated(first);
                        }
                    },
                    None => {},
                }
            }
            if crate::text::str_eq(message_type.as_str(), "pluginScanError") {
                return ValidationOutcome::Failed(match message {
                    Some(m) => m,
                    None => to_string(
                        "The isolated scanner found no usable VST3 component. Other plugins and session data are unaffected.",
                    ),
                });
            }
            ValidationOutcome::Quarantined(unexpected_exit_message(stderr, code))
        },
        None => ValidationOutcome::Quarantined(unexpected_exit_message(stderr, code)),
    }
}

/// The text of `bytes` with invalid UTF-8 sequences replaced by U+FFFD.
pub uninterp spec fn lossy_text(bytes: Seq<u8>) -> Seq<char>;

/// `String::from_utf8_lossy`; its result depends on the bytes alone.
#[verifier::external_body]
fn utf8_lossy(bytes: &[u8]) -> (s: String)
    ensures
        s@ == lossy_text(bytes@),
{
    String::from_utf8_lossy(bytes).into_owned()
}

/// Standard error is collected until it holds this many UTF-8 bytes.
pub const STDERR_LIMIT: usize = 1024;

/// What a running scanner has printed so far.
pub struct ScanWatch {
    stdout: Vec<u8>,
    stderr: String,
}

/// The mathematical view of a [`ScanWatch`].
pub struct ScanWatchView {
    pub stdout: Seq<u8>,
    pub stderr: Seq<char>,
}

impl View for ScanWatch {
    type V = ScanWatchView;

    closed spec fn view(&self) -> ScanWatchView {
        ScanWatchView { stdout: self.stdout@, stderr: self.stderr@ }
    }
}

/// Something that happened to a scanner the host is supervising.
pub enum ScanEvent {
    /// The scanner command could not be prepared.
    PrepareFailed(String),
    /// The scanner process could not be started.
    SpawnFailed(String),
    /// The polling interval elapsed; `cancelled` is the job's flag.
    Tick { cancelled: bool },
    /// The scanner ran longer than [`SCANNER_TIMEOUT_SECS`].
    DeadlineElapsed,
    /// A line the scanner printed on standard output.
    Stdout(Vec<u8>),
    /// Bytes the scanner printed on standard error.
    Stderr(Vec<u8>),
    /// The channel to the scanner failed.
    Error(String),
    /// The scanner exited with `code`; `envelope` is the first line of its
    /// standard output (see [`ScanWatch::stdout`]) that parses as one.
    Terminated { code: Option<i32>, envelope: Option<ScanEnvelope> },
    /// The scanner's event stream ended without an exit.
    Closed,
}

/// What the host does next.
pub enum ScanStep {
    /// Keep waiting for events.
    Continue,
    /// The candidate is decided; `kill` says whether the scanner must be
    /// killed first.
    Finish { outcome: ValidationOutcome, kill: bool },
}

/// The message of a scanner that ran out of time.
pub open spec fn timeout_message() -> Seq<char> {
    "Plugin scan exceeded "@ + decimal(SCANNER_TIMEOUT_SECS as nat)
        + " seconds and was terminated. The plugin is quarantined; session data is safe."@
}

/// The watch after `event`, and the decision it leads to: `None` to keep
/// waiting, or the outcome and whether to kill the scanner.
pub open spec fn watch_spec(w: ScanWatchView, event: ScanEvent) -> (ScanWatchView, Option<(OutcomeView, bool)>) {
    match event {
        ScanEvent::PrepareFailed(e) => (w, Some((OutcomeView::Quarantined(
            "Isolated scanner could not be prepared: "@ + e@ + ". The plugin was not loaded by Riffra."@), false))),
        ScanEvent::SpawnFailed(e) => (w, Some((OutcomeView::Quarantined(
            "Isolated scanner could not start: "@ + e@ + ". The plugin was not loaded by Riffra."@), false))),
        ScanEvent::Tick { cancelled } => if cancelled { (w, Some((OutcomeView::Cancelled, true))) } else { (w, None) },
        ScanEvent::DeadlineElapsed => (w, Some((OutcomeView::Quarantined(timeout_message()), true))),
        ScanEvent::Stdout(bytes) => (ScanWatchView { stdout: w.stdout + bytes@ + seq![10u8], ..w }, None),
        ScanEvent::Stderr(bytes) =>
            if (vstd::utf8::encode_utf8(w.stderr).len() as usize) < STDERR_LIMIT {
                (ScanWatchView { stderr: w.stderr + lossy_text(bytes@), ..w }, None)
            } else {
                (w, None)
            },
        ScanEvent::Error(e) => (w, Some((OutcomeView::Quarantined(
            "Plugin scanner communication failed: "@ + e@ + ". The plugin was isolated and session data is safe."@), true))),
        ScanEvent::Terminated { code, envelope } => (w, Some((
            interpret_spec(match envelope { Some(e) => Some(e@), None => None }, w.stderr, code), false))),
        ScanEvent::Closed => (w, Some((OutcomeView::Quarantined(
            "Plugin scanner ended without a result. The plugin was isolated and session data is safe."@), false))),
    }
}

impl ScanWatch {
    /// A scanner that has printed nothing yet.
    pub fn new() -> (w: ScanWatch)
        ensures
            w@.stdout.len() == 0,
            w@.stderr.len() == 0,
    {
        ScanWatch { stdout: Vec::new(), stderr: String::new() }
    }

    /// Everything the scanner printed on standard output, one line per
    /// event, each followed by a newline.
    pub fn stdout(&self) -> (b: &[u8])
        ensures
            b@ == self@.stdout,
    {
        self.stdout.as_slice()
    }

    /// Takes in one event of the scanner and says what to do next.
    pub fn step(&mut self, event: ScanEvent) -> (s: ScanStep)
        ensures
            ({
                let (next, decision) = watch_spec(old(self)@, event);
                &&& final(self)@ == next
                &&& match decision {
                    None => s is Continue,
                    Some((outcome, kill)) => s matches ScanStep::Finish { outcome: o, kill: k } && o@ == outcome && k == kill,
                }
            }),
    {
        match event {
            ScanEvent::PrepareFailed(e) => {
                let m = concat3("Isolated scanner could not be prepared: ", e.as_str(), ". The plugin was not loaded by Riffra.");
                ScanStep::Finish { outcome: ValidationOutcome::Quarantined(m), kill: false }
            },
            ScanEvent::SpawnFailed(e) => {
                let m = concat3("Isolated scanner could not start: ", e.as_str(), ". The plugin was not loaded by Riffra.");
                ScanStep::Finish { outcome: ValidationOutcome::Quarantined(m), kill: false }
            },
            ScanEvent::Tick { cancelled } => {
                if cancelled {
                    ScanStep::Finish { outcome: ValidationOutcome::Cancelled, kill: true }
                } else {
                    ScanStep::Continue
                }
            },
            ScanEvent::DeadlineElapsed => {
                let mut m = to_string("Plugin scan exceeded ");
                let secs = u64_to_decimal(SCANNER_TIMEOUT_SECS);
                append_str(&mut m, secs.as_str());
                append_str(&mut m, " seconds and was terminated. The plugin is quarantined; session data is safe.");
                ScanStep::Finish { outcome: ValidationOutcome::Quarantined(m), kill: true }
            },
            ScanEvent::Stdout(bytes) => {
                let mut i: usize = 0;
                let ghost start = self.stdout@;
                while i < bytes.len()
                    invariant
                        i <= bytes@.len(),
                        self.stdout@ == start + bytes@.take(i as int),
                        self.stderr == old(self).stderr,
                        start == old(self).stdout@,
                    decreases bytes@.len() - i,
                {
                    self.stdout.push(bytes[i]);
                    i += 1;
                    assert(self.stdout@ =~= start + bytes@.take(i as int));
                }
                self.stdout.push(10u8);
                assert(self.stdout@ =~= start + bytes@ + seq![10u8]);
                ScanStep::Continue
            },
            ScanEvent::Stderr(bytes) => {
                if self.stderr.as_str().len() < STDERR_LIMIT {
                    let text = utf8_lossy(bytes.as_slice());
                    append_str(&mut self.stderr, text.as_str());
                }
                ScanStep::Continue
            },
            ScanEvent::Error(e) => {
                let m = concat3("Plugin scanner communication failed: ", e.as_str(), ". The plugin was isolated and session data is safe.");
                ScanStep::Finish { outcome: ValidationOutcome::Quarantined(m), kill: true }
            },
            ScanEvent::Terminated { code, envelope } => {
                let outcome = interpret_result(envelope, self.stderr.as_str(), code);
                ScanStep::Finish { outcome, kill: false }
            },
            ScanEvent::Closed => ScanStep::Finish {
                outcome: ValidationOutcome::Quarantined(to_string(
                    "Plugin scanner ended without a result. The plugin was isolated and session data is safe.",
                )),
                kill: false,
            },
        }
    }
}

/// What a supervised scanner task came to: the candidate's path and outcome,
/// or the reason the task itself failed.
pub type TaskResult = Result<(String, ValidationOutcome), String>;

/// The error of a validation abandoned by cancellation.
pub open spec fn validation_cancelled() -> Seq<char> {
    "VST3 validation cancelled; the previous catalog remains unchanged."@
}

/// The error of a validation abandoned by cancellation (see
/// [`validation_cancelled`]).
pub fn validation_cancelled_message() -> (m: String)
    ensures
        m@ == validation_cancelled(),
{
    to_string("VST3 validation cancelled; the previous catalog remains unchanged.")
}

/// The issues of a report as (path, message) pairs.
pub open spec fn issue_views(s: Seq<ScanIssue>) -> Seq<(Seq<char>, Seq<char>)> {
    Seq::new(s.len(), |i: int| (s[i].path@, s[i].message@))
}

/// Results collected so far and the issues of the report after taking in the
/// finished tasks of `group` in order; an error when one was cancelled.
pub open spec fn absorb_spec(
    pending: Seq<(String, ValidationOutcome)>,
    issues: Seq<(Seq<char>, Seq<char>)>,
    root: Seq<char>,
    group: Seq<TaskResult>,
) -> Result<(Seq<(String, ValidationOutcome)>, Seq<(Seq<char>, Seq<char>)>), Seq<char>>
    decreases group.len(),
{
    if group.len() == 0 {
        Ok((pending, issues))
    } else {
        match absorb_spec(pending, issues, root, group.drop_last()) {
            Err(m) => Err(m),
            Ok((p, is)) => match group.last() {
                Ok((path, ValidationOutcome::Cancelled)) => Err(
                    "VST3 validation cancelled while checking "@ + path@ + "; the previous catalog remains unchanged."@),
                Ok(r) => Ok((p.push(r), is)),
                Err(e) => Ok((p, is.push((root,
                    "A scanner supervisor task failed: "@ + e@ + ". The UI, audio engine, and session data are unaffected."@)))),
            },
        }
    }
}

proof fn lemma_absorb_error_persists(
    pending: Seq<(String, ValidationOutcome)>,
    issues: Seq<(Seq<char>, Seq<char>)>,
    root: Seq<char>,
    all: Seq<TaskResult>,
    j: int,
    m: Seq<char>,
)
    requires
        0 <= j <= all.len(),
        absorb_spec(pending, issues, root, all.take(j)) == Err::<(Seq<(String, ValidationOutcome)>, Seq<(Seq<char>, Seq<char>)>), Seq<char>>(m),
    ensures
        absorb_spec(pending, issues, root, all) == Err::<(Seq<(String, ValidationOutcome)>, Seq<(Seq<char>, Seq<char>)>), Seq<char>>(m),
    decreases all.len() - j,
{
    if j < all.len() {
        assert(all.take(j + 1).drop_last() =~= all.take(j));
        lemma_absorb_error_persists(pending, issues, root, all, j + 1, m);
    } else {
        assert(all.take(j) =~= all);
    }
}

/// Takes in the finished tasks of one group of scanners: results are kept
/// for [`apply_outcomes`], a failed task becomes an issue at the scan root,
/// and a cancelled candidate abandons the validation.
pub fn absorb_group(report: &mut ScanReport, pending: &mut Vec<(String, ValidationOutcome)>, group: Vec<TaskResult>) -> (r: Result<(), String>)
    ensures
        final(report).root == old(report).root,
        final(report).plugins == old(report).plugins,
        final(report).started_at_ms == old(report).started_at_ms,
        final(report).finished_at_ms == old(report).finished_at_ms,
        match absorb_spec(old(pending)@, issue_views(old(report).issues@), old(report).root@, group@) {
            Ok((p, is)) => r is Ok && final(pending)@ == p && issue_views(final(report).issues@) == is,
            Err(m) => r matches Err(e) && e@ == m,
        },
{
    let mut rest = group;
    let ghost all = rest@;
    let ghost mut k: int = 0;
    while rest.len() > 0
        invariant
            0 <= k <= all.len(),
            rest@ == all.skip(k),
            all == group@,
            report.root == old(report).root,
            report.plugins == old(report).plugins,
            report.started_at_ms == old(report).started_at_ms,
            report.finished_at_ms == old(report).finished_at_ms,
            absorb_spec(old(pending)@, issue_views(old(report).issues@), old(report).root@, all.take(k))
                == Ok::<(Seq<(String, ValidationOutcome)>, Seq<(Seq<char>, Seq<char>)>), Seq<char>>((pending@, issue_views(report.issues@))),
        decreases rest@.len(),
    {
        let task = rest.remove(0);
        assert(task == all[k]);
        assert(all.take(k + 1).drop_last() =~= all.take(k));
        assert(all.take(k + 1).last() == all[k]);
        let ghost before = report.issues@;
        match task {
            Ok((path, ValidationOutcome::Cancelled)) => {
                let m = concat3("VST3 validation cancelled while checking ", path.as_str(), "; the previous catalog remains unchanged.");
                proof { lemma_absorb_error_persists(old(pending)@, issue_views(old(report).issues@), old(report).root@, all, k + 1, m@); }
                return Err(m);
            },
            Ok(done) => {
                pending.push(done);
            },
            Err(e) => {
                let message = concat3("A scanner supervisor task failed: ", e.as_str(), ". The UI, audio engine, and session data are unaffected.");
                let root = report.root.clone();
                report.issues.push(ScanIssue { path: root, message });
                assert(issue_views(report.issues@) =~= issue_views(before).push((old(report).root@, message@)));
            },
        }
        proof { k = k + 1; }
    }
    assert(all.take(all.len() as int) =~= all);
    Ok(())
}

/// The index of the first plugin at `path`, looking from `i` on.
pub open spec fn first_at_path(plugins: Seq<PluginEntry>, path: Seq<char>, i: int) -> Option<int>
    decreases plugins.len() - i,
{
    if i < 0 || i >= plugins.len() {
        None
    } else if plugins[i].path@ == path {
        Some(i)
    } else {
        first_at_path(plugins, path, i + 1)
    }
}

/// An optional text, dropped when it is blank.
pub open spec fn keep_text(o: Option<String>) -> Option<String> {
    match o {
        Some(s) => if trim_spec(s@).len() == 0 { None } else { Some(s) },
        None => None,
    }
}

/// A plugin after its scanner validated it with `m`: the scanner's name,
/// its non-blank vendor and version, and scan state `validated`.
pub open spec fn validated_entry(p: PluginEntry, m: PluginMetadata) -> PluginEntry {
    PluginEntry { name: m.name, vendor: keep_text(m.vendor), version: keep_text(m.version), scan_state: "validated", ..p }
}

/// The plugins and issues after applying one scanner result; `None` when it
/// was a cancellation. A result for a path not in the report is skipped.
pub open spec fn apply_one(
    plugins: Seq<PluginEntry>,
    issues: Seq<(Seq<char>, Seq<char>)>,
    r: (String, ValidationOutcome),
) -> Option<(Seq<PluginEntry>, Seq<(Seq<char>, Seq<char>)>)> {
    match first_at_path(plugins, r.0@, 0) {
        None => Some((plugins, issues)),
        Some(i) => match r.1 {
            ValidationOutcome::Validated(m) => Some((plugins.update(i, validated_entry(plugins[i], m)), issues)),
            ValidationOutcome::Failed(msg) => Some((plugins.update(i, PluginEntry { scan_state: "failed", ..plugins[i] }), issues.push((r.0@, msg@)))),
            ValidationOutcome::Quarantined(msg) => Some((plugins.update(i, PluginEntry { scan_state: "quarantined", ..plugins[i] }), issues.push((r.0@, msg@)))),
            ValidationOutcome::Cancelled => None,
        },
    }
}

/// The plugins and issues after applying `results` in order; `None` when one
/// of them was a cancellation.
pub open spec fn apply_all(
    plugins: Seq<PluginEntry>,
    issues: Seq<(Seq<char>, Seq<char>)>,
    results: Seq<(String, ValidationOutcome)>,
) -> Option<(Seq<PluginEntry>, Seq<(Seq<char>, Seq<char>)>)>
    decreases results.len(),
{
    if results.len() == 0 {
        Some((plugins, issues))
    } else {
        match apply_all(plugins, issues, results.drop_last()) {
            None => None,
            Some((p, is)) => apply_one(p, is, results.last()),
        }
    }
}

proof fn lemma_apply_none_persists(
    plugins: Seq<PluginEntry>,
    issues: Seq<(Seq<char>, Seq<char>)>,
    all: Seq<(String, ValidationOutcome)>,
    j: int,
)
    requires
        0 <= j <= all.len(),
        apply_all(plugins, issues, all.take(j)) is None,
    ensures
        apply_all(plugins, issues, all) is None,
    decreases all.len() - j,
{
    if j < all.len() {
        assert(all.take(j + 1).drop_last() =~= all.take(j));
        lemma_apply_none_persists(plugins, issues, all, j + 1);
    } else {
        assert(all.take(j) =~= all);
    }
}

proof fn lemma_first_at_path_bounds(plugins: Seq<PluginEntry>, path: Seq<char>, j: int)
    requires
        0 <= j,
    ensures
        first_at_path(plugins, path, j) matches Some(i) ==> j <= i < plugins.len() && plugins[i].path@ == path,
    decreases plugins.len() - j,
{
    if j < plugins.len() {
        lemma_first_at_path_bounds(plugins, path, j + 1);
    }
}

/// Only a scanner that exited cleanly validates its candidate: any other
/// exit, and any scanner that printed no result envelope, leaves the plugin
/// failed or quarantined.
pub proof fn law_only_clean_exit_validates(envelope: Option<EnvelopeView>, stderr: Seq<char>, code: Option<i32>)
    ensures
        interpret_spec(envelope, stderr, code) is Validated ==> code == Some(0i32)
            && (envelope matches Some(e) && e.message_type == "pluginScanResult"@),
        envelope is None ==> interpret_spec(envelope, stderr, code) is Quarantined,
{
}

/// `p` and `is` hold the plugins of `plugins`, with the same ids, paths,
/// formats, bundle flags and times, in the same order, and every issue of
/// `issues` first.
pub open spec fn keeps_discovered(
    plugins: Seq<PluginEntry>,
    issues: Seq<(Seq<char>, Seq<char>)>,
    p: Seq<PluginEntry>,
    is: Seq<(Seq<char>, Seq<char>)>,
) -> bool {
    &&& p.len() == plugins.len()
    &&& forall|i: int| 0 <= i < p.len() ==> #[trigger] p[i].id == plugins[i].id
        && p[i].path == plugins[i].path && p[i].format == plugins[i].format
        && p[i].bundle == plugins[i].bundle && p[i].modified_at_ms == plugins[i].modified_at_ms
    &&& is.len() >= issues.len()
    &&& is.subrange(0, issues.len() as int) == issues
}

/// Validation only re-labels the discovered plugins: the same plugins stay
/// in the same order with the same ids, paths, formats and bundle flags, and
/// every issue already in the report is kept.
pub proof fn law_validation_keeps_the_discovered_plugins(
    plugins: Seq<PluginEntry>,
    issues: Seq<(Seq<char>, Seq<char>)>,
    results: Seq<(String, ValidationOutcome)>,
)
    ensures
        apply_all(plugins, issues, results) matches Some((p, is)) ==> keeps_discovered(plugins, issues, p, is),
    decreases results.len(),
{
    if results.len() > 0 {
        law_validation_keeps_the_discovered_plugins(plugins, issues, results.drop_last());
        if let Some((p0, is0)) = apply_all(plugins, issues, results.drop_last()) {
            let r = results.last();
            lemma_first_at_path_bounds(p0, r.0@, 0);
            if let Some((p, is)) = apply_one(p0, is0, r) {
                assert(is.subrange(0, issues.len() as int) =~= is0.subrange(0, issues.len() as int));
                assert forall|i: int| 0 <= i < p.len() implies #[trigger] p[i].id == plugins[i].id
                    && p[i].path == plugins[i].path && p[i].format == plugins[i].format
                    && p[i].bundle == plugins[i].bundle && p[i].modified_at_ms == plugins[i].modified_at_ms by {
                    assert(p0[i].id == plugins[i].id);
                }
                assert(keeps_discovered(plugins, issues, p, is));
            }
        }
    } else {
        assert(issues.subrange(0, issues.len() as int) =~= issues);
        assert(keeps_discovered(plugins, issues, plugins, issues));
    }
}

/// A text kept only when it is not blank.
fn keep_text_exec(o: Option<String>) -> (r: Option<String>)
    ensures
        r == keep_text(o),
{
    match o {
        Some(s) => {
            let t = trim_chars(s.as_str());
            if t.len() == 0 { None } else { Some(s) }
        },
        None => None,
    }
}

/// The index of the first plugin of `report` at `path`.
fn find_plugin(plugins: &Vec<PluginEntry>, path: &str) -> (r: Option<usize>)
    ensures
        r matches Some(i) ==> i < plugins@.len() && first_at_path(plugins@, path@, 0) == Some(i as int),
        r is None ==> first_at_path(plugins@, path@, 0) is None,
{
    proof { lemma_first_at_path_bounds(plugins@, path@, 0); }
    let mut i: usize = 0;
    while i < plugins.len()
        invariant
            i <= plugins@.len(),
            first_at_path(plugins@, path@, 0) == first_at_path(plugins@, path@, i as int),
        decreases plugins@.len() - i,
    {
        if crate::text::str_eq(plugins[i].path.as_str(), path) {
            return Some(i);
        }
        i += 1;
    }
    None
}

/// Applies the scanners' results to the report, in order: a validated
/// plugin takes the scanner's metadata, a failed or quarantined one gets
/// that scan state and an issue; a cancellation abandons the validation.
pub fn apply_outcomes(report: ScanReport, results: Vec<(String, ValidationOutcome)>) -> (r: Result<ScanReport, String>)
    ensures
        match apply_all(report.plugins@, issue_views(report.issues@), results@) {
            Some((plugins, issues)) => r matches Ok(out)
                && out.root == report.root
                && out.started_at_ms == report.started_at_ms
                && out.finished_at_ms == report.finished_at_ms
                && out.plugins@ == plugins
                && issue_views(out.issues@) == issues,
            None => r matches Err(e) && e@ == validation_cancelled(),
        },
{
    let ghost start = report;
    let mut cur = report;
    let mut rest = results;
    let ghost all = rest@;
    let ghost mut k: int = 0;
    while rest.len() > 0
        invariant
            0 <= k <= all.len(),
            rest@ == all.skip(k),
            all == results@,
            start == report,
            cur.root == start.root,
            cur.started_at_ms == start.started_at_ms,
            cur.finished_at_ms == start.finished_at_ms,
            apply_all(start.plugins@, issue_views(start.issues@), all.take(k))
                == Some((cur.plugins@, issue_views(cur.issues@))),
        decreases rest@.len(),
    {
        let (path, outcome) = rest.remove(0);
        assert(all[k] == (path, outcome));
        assert(all.take(k + 1).drop_last() =~= all.take(k));
        assert(all.take(k + 1).last() == all[k]);
        let ghost before = cur;
        let found = find_plugin(&cur.plugins, path.as_str());
        match found {
            None => {},
            Some(i) => match outcome {
                ValidationOutcome::Validated(m) => {
                    let ghost gm = m;
                    let PluginMetadata { name, vendor, version } = m;
                    cur.plugins[i].name = name;
                    cur.plugins[i].vendor = keep_text_exec(vendor);
                    cur.plugins[i].version = keep_text_exec(version);
                    cur.plugins[i].scan_state = "validated";
                    assert(cur.plugins@ =~= before.plugins@.update(i as int, validated_entry(before.plugins@[i as int], gm)));
                },
                ValidationOutcome::Failed(message) => {
                    cur.plugins[i].scan_state = "failed";
                    assert(cur.plugins@ =~= before.plugins@.update(i as int, PluginEntry { scan_state: "failed", ..before.plugins@[i as int] }));
                    cur.issues.push(ScanIssue { path, message });
                    assert(issue_views(cur.issues@) =~= issue_views(before.issues@).push((path@, message@)));
                },
                ValidationOutcome::Quarantined(message) => {
                    cur.plugins[i].scan_state = "quarantined";
                    assert(cur.plugins@ =~= before.plugins@.update(i as int, PluginEntry { scan_state: "quarantined", ..before.plugins@[i as int] }));
                    cur.issues.push(ScanIssue { path, message });
                    assert(issue_views(cur.issues@) =~= issue_views(before.issues@).push((path@, message@)));
                },
                ValidationOutcome::Cancelled => {
                    proof { lemma_apply_none_persists(start.plugins@, issue_views(start.issues@), all, k + 1); }
                    return Err(validation_cancelled_message());
                },
            },
        }
        proof { k = k + 1; }
    }
    assert(all.take(all.len() as int) =~= all);
    Ok(cur)
}

} // verus!
