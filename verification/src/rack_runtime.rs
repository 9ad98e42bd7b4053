//! Keeping the native runtime and the persisted session rack in lock-step.
//!
//! A rack change is applied to the runtime first and committed to the
//! session afterwards. Applying a plugin device is a sequence of runtime
//! commands (load, restore a saved state or the individual parameters,
//! bypass) that stops as soon as the engine reports a faulted or offline
//! state. When the session cannot be saved after a successful runtime apply,
//! the runtime is rolled back to the previous plugin; a failed rollback is
//! reported as a distinct error and never as success.

use vstd::prelude::*;
use crate::model::AudioState;
use crate::path::{path_extension, portable_relative, simple_extension};
use crate::asset::{AssetId, AssetKind};
use crate::rack::{active_plugin_count, is_active_plugin, unsupported_rack_message, DeviceKind, RackDefinition, RackDevice};
use crate::text::{append_str, concat2, concat3, str_eq, to_string, opt_view, contains_seq};

verus! {

broadcast use vstd::string::group_string_axioms;

/// Whether the engine is usable after a command: neither faulted nor
/// offline. A command that leaves it unusable is not a successful apply.
pub open spec fn usable(state: AudioState) -> bool {
    state != AudioState::Faulted && state != AudioState::Offline
}

/// Whether a runtime command succeeded, judged by the state it reported.
pub fn audio_command_succeeded(state: AudioState) -> (r: bool)
    ensures
        r == usable(state),
{
    state != AudioState::Faulted && state != AudioState::Offline
}

/// What the runtime reported after a command: its state, and how many
/// parameters the loaded plugin exposes (0 without one).
#[derive(Clone, Copy, Debug, PartialEq, Eq, Structural)]
pub struct CommandReport {
    pub state: AudioState,
    pub parameter_count: usize,
}

/// A runtime command of a plugin apply.
#[derive(Clone, Copy, Debug, PartialEq, Eq, Structural)]
pub enum ApplyCommand {
    /// Load the plugin bundle.
    LoadPlugin,
    /// Restore the saved plugin state blob.
    SetPluginState,
    /// Set the parameter at this index to its saved value.
    SetParameter(u32),
    /// Bypass the plugin.
    SetBypassed,
}

/// Where a plugin apply stands.
#[derive(Clone, Copy, Debug, PartialEq, Eq, Structural)]
pub enum ApplyPhase {
    Loading,
    RestoringState,
    SettingParameter(usize),
    Bypassing,
    Done,
}

/// Applying one plugin device to the runtime: how many saved parameter
/// values it has, whether it has a saved state blob (which supersedes the
/// individual parameters), whether it is bypassed, how many parameters the
/// loaded plugin exposes, and the phase.
#[derive(Clone, Copy, Debug, PartialEq, Eq, Structural)]
pub struct PluginApply {
    pub parameter_values: usize,
    pub has_state: bool,
    pub bypassed: bool,
    pub addressable: usize,
    pub phase: ApplyPhase,
}

/// What the host does next in a plugin apply.
pub enum ApplyStep {
    /// Send this command and report its outcome.
    Issue(ApplyCommand),
    /// The apply ended; the last reported status (in this state) stands.
    Applied(AudioState),
    /// The apply failed with this error.
    Failed(String),
}

/// The mathematical view of an [`ApplyStep`].
pub enum StepView {
    Issue(ApplyCommand),
    Applied(AudioState),
    Failed(Seq<char>),
}

impl View for ApplyStep {
    type V = StepView;

    open spec fn view(&self) -> StepView {
        match self {
            ApplyStep::Issue(c) => StepView::Issue(*c),
            ApplyStep::Applied(s) => StepView::Applied(*s),
            ApplyStep::Failed(e) => StepView::Failed(e@),
        }
    }
}

/// The error of a parameter index the runtime cannot address.
pub open spec fn too_many_parameters() -> Seq<char> {
    "Rack exposes more parameters than the runtime can address."@
}

/// The end of an apply: bypass the plugin when the device is bypassed,
/// otherwise done with the last status.
pub open spec fn bypass_from(s: PluginApply, last: AudioState) -> (PluginApply, StepView) {
    if s.bypassed {
        (PluginApply { phase: ApplyPhase::Bypassing, ..s }, StepView::Issue(ApplyCommand::SetBypassed))
    } else {
        (PluginApply { phase: ApplyPhase::Done, ..s }, StepView::Applied(last))
    }
}

/// The parameter loop at index `k`: the saved values are set one by one
/// while there is a value and the plugin exposes that index.
pub open spec fn parameters_from(s: PluginApply, k: int, last: AudioState) -> (PluginApply, StepView) {
    if k < s.parameter_values && k < s.addressable {
        if k <= u32::MAX {
            (PluginApply { phase: ApplyPhase::SettingParameter(k as usize), ..s }, StepView::Issue(ApplyCommand::SetParameter(k as u32)))
        } else {
            (PluginApply { phase: ApplyPhase::Done, ..s }, StepView::Failed(too_many_parameters()))
        }
    } else {
        bypass_from(s, last)
    }
}

/// The apply after the runtime answered the pending command with `r`: an
/// error ends it with that error, an unusable engine ends it with that
/// status, and otherwise the next command follows.
pub open spec fn apply_next(s: PluginApply, r: Result<CommandReport, String>) -> (PluginApply, StepView) {
    match r {
        Err(e) => (PluginApply { phase: ApplyPhase::Done, ..s }, StepView::Failed(e@)),
        Ok(report) => if !usable(report.state) {
            (PluginApply { phase: ApplyPhase::Done, ..s }, StepView::Applied(report.state))
        } else {
            match s.phase {
                ApplyPhase::Loading => {
                    let loaded = PluginApply { addressable: report.parameter_count, ..s };
                    if s.has_state {
                        (PluginApply { phase: ApplyPhase::RestoringState, ..loaded }, StepView::Issue(ApplyCommand::SetPluginState))
                    } else {
                        parameters_from(loaded, 0, report.state)
                    }
                },
                ApplyPhase::RestoringState => bypass_from(s, report.state),
                ApplyPhase::SettingParameter(k) => parameters_from(s, k + 1, report.state),
                _ => (PluginApply { phase: ApplyPhase::Done, ..s }, StepView::Applied(report.state)),
            }
        },
    }
}

/// The states an apply can be in: parameters are only being set without a
/// saved state, at an index with a saved value that the plugin exposes; a
/// state blob is only being restored when there is one.
pub open spec fn apply_wf(s: PluginApply) -> bool {
    &&& (s.phase matches ApplyPhase::SettingParameter(k) ==> !s.has_state && k < s.parameter_values && k < s.addressable)
    &&& (s.phase == ApplyPhase::RestoringState ==> s.has_state)
}

/// Whether the apply waits for the outcome of a command.
pub open spec fn waiting(s: PluginApply) -> bool {
    s.phase != ApplyPhase::Done
}

/// The error of a plugin bundle that is missing or not a `.vst3`.
pub open spec fn invalid_bundle(path: Seq<char>) -> Seq<char> {
    "Rack references a missing or invalid plugin bundle: "@ + path
}

impl PluginApply {
    /// Starts applying a plugin device at `path` (which the host found to
    /// exist or not) with its saved parameter count, state blob and bypass
    /// flag. A missing bundle, or one without the `vst3` extension, fails
    /// before any command; otherwise the plugin is loaded first.
    pub fn begin(path: &str, path_exists: bool, parameter_values: usize, state_data: Option<&str>, bypassed: bool) -> (r: (PluginApply, ApplyStep))
        ensures
            r.0.parameter_values == parameter_values,
            r.0.has_state == (state_data matches Some(d) && d@.len() > 0),
            r.0.bypassed == bypassed,
            r.0.addressable == 0,
            apply_wf(r.0),
            !path_exists ==> r.1@ == StepView::Failed(invalid_bundle(path@)),
            r.1@ == StepView::Failed(invalid_bundle(path@)) && r.0.phase == ApplyPhase::Done
                || r.1@ == StepView::Issue(ApplyCommand::LoadPlugin) && r.0.phase == ApplyPhase::Loading,
    {
        let has_state = match state_data {
            Some(d) => !d.is_empty(),
            None => false,
        };
        let s = PluginApply { parameter_values, has_state, bypassed, addressable: 0, phase: ApplyPhase::Loading };
        if !path_exists || !is_bundle_path(path) {
            return (PluginApply { phase: ApplyPhase::Done, ..s }, ApplyStep::Failed(concat2("Rack references a missing or invalid plugin bundle: ", path)));
        }
        (s, ApplyStep::Issue(ApplyCommand::LoadPlugin))
    }

    fn parameters_from_exec(&mut self, k: usize, last: AudioState) -> (step: ApplyStep)
        requires
            k as int <= old(self).parameter_values,
            !old(self).has_state,
        ensures
            (*final(self), step@) == parameters_from(*old(self), k as int, last),
            apply_wf(*final(self)),
    {
        if k < self.parameter_values && k < self.addressable {
            if k <= u32::MAX as usize {
                self.phase = ApplyPhase::SettingParameter(k);
                ApplyStep::Issue(ApplyCommand::SetParameter(k as u32))
            } else {
                self.phase = ApplyPhase::Done;
                ApplyStep::Failed(to_string("Rack exposes more parameters than the runtime can address."))
            }
        } else if self.bypassed {
            self.phase = ApplyPhase::Bypassing;
            ApplyStep::Issue(ApplyCommand::SetBypassed)
        } else {
            self.phase = ApplyPhase::Done;
            ApplyStep::Applied(last)
        }
    }

    /// Takes in the runtime's answer to the pending command and says what
    /// to do next.
    pub fn step(&mut self, r: Result<CommandReport, String>) -> (step: ApplyStep)
        requires
            waiting(*old(self)),
            apply_wf(*old(self)),
        ensures
            (*final(self), step@) == apply_next(*old(self), r),
            apply_wf(*final(self)),
    {
        let report = match r {
            Err(e) => {
                self.phase = ApplyPhase::Done;
                return ApplyStep::Failed(e);
            },
            Ok(report) => report,
        };
        if !audio_command_succeeded(report.state) {
            self.phase = ApplyPhase::Done;
            return ApplyStep::Applied(report.state);
        }
        match self.phase {
            ApplyPhase::Loading => {
                self.addressable = report.parameter_count;
                if self.has_state {
                    self.phase = ApplyPhase::RestoringState;
                    ApplyStep::Issue(ApplyCommand::SetPluginState)
                } else {
                    self.parameters_from_exec(0, report.state)
                }
            },
            ApplyPhase::RestoringState => {
                if self.bypassed {
                    self.phase = ApplyPhase::Bypassing;
                    ApplyStep::Issue(ApplyCommand::SetBypassed)
                } else {
                    self.phase = ApplyPhase::Done;
                    ApplyStep::Applied(report.state)
                }
            },
            ApplyPhase::SettingParameter(k) => self.parameters_from_exec(k + 1, report.state),
            _ => {
                self.phase = ApplyPhase::Done;
                ApplyStep::Applied(report.state)
            },
        }
    }
}

/// How much work an apply has left; it falls with every step.
pub open spec fn apply_measure(s: PluginApply) -> int {
    match s.phase {
        ApplyPhase::Loading => s.parameter_values + 3,
        ApplyPhase::RestoringState => 2,
        ApplyPhase::SettingParameter(k) => s.parameter_values - k + 1,
        ApplyPhase::Bypassing => 1,
        ApplyPhase::Done => 0,
    }
}

/// Every apply ends: each answer either ends it or leaves less work.
pub proof fn law_apply_terminates(s: PluginApply, r: Result<CommandReport, String>)
    requires
        waiting(s),
        apply_wf(s),
    ensures
        apply_wf(apply_next(s, r).0),
        apply_next(s, r).0.phase == ApplyPhase::Done || (0 <= apply_measure(apply_next(s, r).0) < apply_measure(s)),
{
}

/// The rules of a plugin apply: once the engine reports a faulted or
/// offline state nothing more is sent; a saved state blob replaces the
/// individual parameters, and a parameter is only set at an index that has
/// a saved value and that the loaded plugin exposes; bypassing comes last.
pub proof fn law_apply_rules(s: PluginApply, r: Result<CommandReport, String>)
    requires
        waiting(s),
        apply_wf(s),
    ensures
        r matches Ok(report) ==> (!usable(report.state) ==> apply_next(s, r).1 == StepView::Applied(report.state)),
        r is Err ==> apply_next(s, r).1 is Failed,
        apply_next(s, r).1 matches StepView::Issue(ApplyCommand::SetParameter(i)) ==> !s.has_state
            && (i as int) < s.parameter_values && (i as int) < apply_next(s, r).0.addressable,
        apply_next(s, r).1 matches StepView::Issue(ApplyCommand::SetPluginState) ==> s.has_state && s.phase == ApplyPhase::Loading,
        s.phase == ApplyPhase::Bypassing ==> !(apply_next(s, r).1 is Issue),
{
}

/// What undoing a runtime apply does after the runtime answered the clear.
#[derive(Debug)]
pub enum RollbackStep {
    /// The runtime is back where it was.
    Done,
    /// Reload the previous plugin device (with a plugin apply).
    ReloadPrevious,
    /// The rollback failed.
    Failed(String),
}

/// The outcome of clearing the runtime during a rollback, given the plugin
/// device the runtime held before (if any).
pub open spec fn rollback_after_clear_spec<P>(cleared: Result<AudioState, String>, previous: Option<RackDevice<P>>) -> Result<bool, Seq<char>> {
    match cleared {
        Err(e) => Err(e@),
        Ok(state) => if !usable(state) {
            Err("Runtime could not clear the plugin during rollback."@)
        } else {
            match previous {
                None => Ok(false),
                Some(d) => Ok(d.path is Some),
            }
        },
    }
}

/// Rolls back step one: after the runtime answered the clear, decides
/// whether the previous plugin device must be reloaded. A device without a
/// path leaves the runtime cleared.
pub fn rollback_after_clear<P>(cleared: Result<AudioState, String>, previous: Option<&RackDevice<P>>) -> (r: RollbackStep)
    ensures
        match rollback_after_clear_spec(cleared, match previous { Some(d) => Some(*d), None => None }) {
            Err(m) => r matches RollbackStep::Failed(e) && e@ == m,
            Ok(reload) => if reload { r is ReloadPrevious } else { r is Done },
        },
{
    let state = match cleared {
        Err(e) => return RollbackStep::Failed(e),
        Ok(state) => state,
    };
    if !audio_command_succeeded(state) {
        return RollbackStep::Failed(to_string("Runtime could not clear the plugin during rollback."));
    }
    match previous {
        None => RollbackStep::Done,
        Some(d) => if d.path.is_some() { RollbackStep::ReloadPrevious } else { RollbackStep::Done },
    }
}

/// Rolls back step two: the outcome of reloading the previous plugin device
/// named `name` (the final state of its apply, or its error).
pub fn rollback_after_reload(name: &str, applied: Result<AudioState, String>) -> (r: Result<(), String>)
    ensures
        match applied {
            Err(e) => r matches Err(x) && x@ == e@,
            Ok(state) => if usable(state) { r is Ok } else {
                r matches Err(x) && x@ == "Runtime could not reload the previous plugin '"@ + name@ + "' during rollback."@
            },
        },
{
    match applied {
        Err(e) => Err(e),
        Ok(state) => if audio_command_succeeded(state) {
            Ok(())
        } else {
            Err(concat3("Runtime could not reload the previous plugin '", name, "' during rollback."))
        },
    }
}

/// The error of a rack change whose session could not be saved (`error`)
/// after the runtime applied it, given how rolling the runtime back went.
pub open spec fn persistence_failure_spec(error: Seq<char>, rollback: Result<(), Seq<char>>) -> Seq<char> {
    match rollback {
        Ok(()) => "The rack change was applied to the runtime but the session could not be saved; the previous rack was restored. Persistence error: "@ + error,
        Err(r) => "The rack change was applied to the runtime but the session could not be saved, and runtime rollback also failed ("@
            + r + "). The runtime may be out of sync with the persisted session. Persistence error: "@ + error,
    }
}

/// The error reported when the session could not be saved after a runtime
/// apply; it says whether the runtime was restored.
pub fn persistence_failure(error: &str, rollback: Result<(), String>) -> (m: String)
    ensures
        m@ == persistence_failure_spec(error@, match rollback { Ok(()) => Ok(()), Err(r) => Err(r@) }),
{
    match rollback {
        Ok(()) => concat2(
            "The rack change was applied to the runtime but the session could not be saved; the previous rack was restored. Persistence error: ",
            error,
        ),
        Err(r) => {
            let mut m = concat2(
                "The rack change was applied to the runtime but the session could not be saved, and runtime rollback also failed (",
                r.as_str(),
            );
            append_str(&mut m, "). The runtime may be out of sync with the persisted session. Persistence error: ");
            append_str(&mut m, error);
            m
        },
    }
}

/// A failed save never reads as success: whatever the rollback did, the
/// change is reported as an error naming the persistence failure, and a
/// failed rollback gives a different error than a successful one.
pub proof fn law_failed_save_is_never_success(error: Seq<char>, rollback_error: Seq<char>)
    ensures
        persistence_failure_spec(error, Ok(())) != persistence_failure_spec(error, Err(rollback_error)),
        persistence_failure_spec(error, Ok(())).len() > error.len(),
{
    let ok = persistence_failure_spec(error, Ok(()));
    let failed = persistence_failure_spec(error, Err(rollback_error));
    reveal_strlit("The rack change was applied to the runtime but the session could not be saved; the previous rack was restored. Persistence error: ");
    reveal_strlit("The rack change was applied to the runtime but the session could not be saved, and runtime rollback also failed (");
    assert(ok[77] == ';');
    assert(failed[77] == ',');
}

/// The devices that are plugins, among the first `n`.
pub open spec fn non_plugins<P>(devices: Seq<RackDevice<P>>, n: int) -> Seq<RackDevice<P>>
    decreases n,
{
    if n <= 0 {
        seq![]
    } else {
        let rest = non_plugins(devices, n - 1);
        if devices[n - 1].kind != DeviceKind::Plugin { rest.push(devices[n - 1]) } else { rest }
    }
}

/// The rack without its plugin devices, the others in order.
pub fn without_plugins<P>(devices: Vec<RackDevice<P>>) -> (r: Vec<RackDevice<P>>)
    ensures
        r@ == non_plugins(devices@, devices@.len() as int),
{
    let mut rest = devices;
    let ghost all = rest@;
    let ghost mut k: int = 0;
    let mut out: Vec<RackDevice<P>> = Vec::new();
    while rest.len() > 0
        invariant
            0 <= k <= all.len(),
            rest@ == all.skip(k),
            out@ == non_plugins(all, k),
        decreases rest@.len(),
    {
        let d = rest.remove(0);
        assert(d == all[k]);
        if d.kind != DeviceKind::Plugin {
            out.push(d);
        }
        proof { k = k + 1; }
    }
    out
}

/// The rack with `device` as its one plugin: every other plugin device is
/// removed and the new one is placed last.
pub fn with_plugin_device<P>(devices: Vec<RackDevice<P>>, device: RackDevice<P>) -> (r: Vec<RackDevice<P>>)
    ensures
        r@ == non_plugins(devices@, devices@.len() as int).push(device),
{
    let mut kept = without_plugins(devices);
    kept.push(device);
    kept
}

/// The device a loaded plugin becomes: id `plugin:<path>`, not bypassed
/// unless asked, no placeholder, with its saved state and settings.
pub fn plugin_device<P>(path: &str, name: &str, bypassed: bool, state_data: Option<String>, settings: P) -> (d: RackDevice<P>)
    ensures
        d.id@ == "plugin:"@ + path@,
        d.name@ == name@,
        d.kind == DeviceKind::Plugin,
        opt_view(d.path) == Some(path@),
        d.bypassed == bypassed,
        d.state_data == state_data,
        !d.disabled_placeholder,
        d.settings == settings,
{
    RackDevice {
        id: concat2("plugin:", path),
        name: to_string(name),
        kind: DeviceKind::Plugin,
        path: Some(to_string(path)),
        bypassed,
        state_data,
        disabled_placeholder: false,
        settings,
    }
}

/// The rack with every plugin device's bypass flag set to `bypassed`.
pub fn with_plugins_bypassed<P>(devices: Vec<RackDevice<P>>, bypassed: bool) -> (r: Vec<RackDevice<P>>)
    ensures
        r@.len() == devices@.len(),
        forall|i: int| 0 <= i < r@.len() ==> #[trigger] r@[i] == if devices@[i].kind == DeviceKind::Plugin {
            RackDevice { bypassed, ..devices@[i] }
        } else {
            devices@[i]
        },
{
    let mut out = devices;
    let mut i: usize = 0;
    while i < out.len()
        invariant
            i <= out@.len(),
            out@.len() == devices@.len(),
            forall|j: int| 0 <= j < i ==> #[trigger] out@[j] == if devices@[j].kind == DeviceKind::Plugin {
                RackDevice { bypassed, ..devices@[j] }
            } else {
                devices@[j]
            },
            forall|j: int| i <= j < out@.len() ==> #[trigger] out@[j] == devices@[j],
        decreases out@.len() - i,
    {
        if out[i].kind == DeviceKind::Plugin {
            out[i].bypassed = bypassed;
        }
        i += 1;
    }
    out
}

/// What applying a rack (the saved session rack at startup, or a loaded
/// rack definition) does after the runtime answered the clear.
#[derive(Debug)]
pub enum RestoreStep {
    /// The rack has no active plugin: the cleared runtime stands.
    Cleared,
    /// Apply the active plugin device at this position of the rack.
    Apply(usize),
    /// Applying the rack failed.
    Failed(String),
}

/// The outcome of the clear that starts a rack apply: a rejected clear
/// fails with `rejected` and the runtime's message; a rack without an
/// active plugin is done; the active plugin (the first that is not a
/// disabled placeholder) is applied, and fails with `no_path` without a
/// path.
pub open spec fn after_clear_ok<P>(r: RestoreStep, cleared: (AudioState, String), devices: Seq<RackDevice<P>>, rejected: Seq<char>, no_path: Seq<char>) -> bool {
    &&& !usable(cleared.0) ==> (r matches RestoreStep::Failed(e) && e@ == rejected + cleared.1@)
    &&& usable(cleared.0) ==> match r {
        RestoreStep::Cleared => forall|k: int| 0 <= k < devices.len() ==> !is_active_plugin(#[trigger] devices[k]),
        RestoreStep::Apply(i) => i < devices.len() && is_active_plugin(devices[i as int])
            && devices[i as int].path is Some
            && forall|k: int| 0 <= k < i ==> !is_active_plugin(#[trigger] devices[k]),
        RestoreStep::Failed(e) => e@ == no_path
            && exists|i: int| 0 <= i < devices.len() && is_active_plugin(devices[i]) && devices[i].path is None
                && forall|k: int| 0 <= k < i ==> !is_active_plugin(#[trigger] devices[k]),
    }
}

fn after_clear<P>(cleared: (AudioState, String), devices: &Vec<RackDevice<P>>, rejected: &str, no_path: &str) -> (r: RestoreStep)
    ensures
        after_clear_ok(r, cleared, devices@, rejected@, no_path@),
{
    if !audio_command_succeeded(cleared.0) {
        return RestoreStep::Failed(concat2(rejected, cleared.1.as_str()));
    }
    let mut i: usize = 0;
    while i < devices.len()
        invariant
            i <= devices@.len(),
            usable(cleared.0),
            forall|k: int| 0 <= k < i ==> !is_active_plugin(#[trigger] devices@[k]),
        decreases devices@.len() - i,
    {
        let d = &devices[i];
        if d.kind == DeviceKind::Plugin && !d.disabled_placeholder {
            if d.path.is_none() {
                return RestoreStep::Failed(to_string(no_path));
            }
            return RestoreStep::Apply(i);
        }
        i += 1;
    }
    RestoreStep::Cleared
}

/// Restoring the rack at startup, step one (see `after_clear_ok`).
pub fn restore_after_clear<P>(cleared: (AudioState, String), devices: &Vec<RackDevice<P>>) -> (r: RestoreStep)
    ensures
        after_clear_ok(r, cleared, devices@, "Runtime rejected startup rack clear: "@, "The saved rack plugin has no runtime path."@),
{
    after_clear(cleared, devices, "Runtime rejected startup rack clear: ", "The saved rack plugin has no runtime path.")
}

/// Applying a loaded rack definition, step one (see `after_clear_ok`).
pub fn definition_after_clear<P>(cleared: (AudioState, String), devices: &Vec<RackDevice<P>>) -> (r: RestoreStep)
    ensures
        after_clear_ok(r, cleared, devices@, "Runtime could not clear the existing plugin before applying the rack: "@,
            "Rack definition references a plugin device without a path."@),
{
    after_clear(cleared, devices, "Runtime could not clear the existing plugin before applying the rack: ",
        "Rack definition references a plugin device without a path.")
}

/// Applying a loaded rack definition, step two: the definition's plugin
/// `name` must leave the engine usable, or the rack is not applied.
pub fn definition_after_apply(name: &str, state: AudioState) -> (r: Result<(), String>)
    ensures
        usable(state) <==> r is Ok,
        r matches Err(e) ==> e@ == "Runtime rejected plugin '"@ + name@ + "'; the rack was not applied."@,
{
    if audio_command_succeeded(state) { Ok(()) } else { Err(concat3("Runtime rejected plugin '", name, "'; the rack was not applied.")) }
}

/// Checks that the asset loaded as a rack definition is one.
pub fn check_definition_kind(asset_id: &AssetId, kind: AssetKind) -> (r: Result<(), String>)
    ensures
        kind == AssetKind::RackDefinition <==> r is Ok,
        r matches Err(e) ==> e@ == "Asset "@ + asset_id@ + " is not a RackDefinition."@,
{
    if kind == AssetKind::RackDefinition { Ok(()) } else { Err(concat3("Asset ", asset_id.as_str(), " is not a RackDefinition.")) }
}

/// Checks that the runtime can apply a loaded rack definition (at most one
/// active plugin device), before anything is changed.
pub fn check_definition_supported<P, M>(definition: &RackDefinition<P, M>) -> (r: Result<(), String>)
    ensures
        active_plugin_count(definition.devices@, definition.devices@.len() as int) <= 1 <==> r is Ok,
        r matches Err(e) ==> e@ == "unsupported rack definition: "@
            + unsupported_rack_message(active_plugin_count(definition.devices@, definition.devices@.len() as int)),
{
    match definition.runtime_supported() {
        Ok(()) => Ok(()),
        Err(error) => Err(concat2("unsupported rack definition: ", error.as_str())),
    }
}

/// Whether `path` names a `.vst3` bundle by its extension: only a path whose
/// text holds `.vst3` can, and a portable relative path whose final segment
/// ends in `.vst3` does.
fn is_bundle_path(path: &str) -> (r: bool)
    ensures
        r ==> contains_seq(path@, "."@ + "vst3"@),
        portable_relative(path@) && simple_extension(path@) == Some("vst3"@) ==> r,
{
    match path_extension(path) {
        Some(e) => str_eq(e.as_str(), "vst3"),
        None => false,
    }
}

/// Restoring the rack at startup, step two: the saved plugin at `path` (which
/// the host found to exist or not) must be an existing `.vst3` bundle before
/// it is applied; otherwise the runtime stays cleared and the session is not
/// rewritten.
pub fn check_saved_plugin(path: &str, path_exists: bool) -> (r: Result<(), String>)
    ensures
        !path_exists ==> r is Err,
        r matches Err(e) ==> e@ == "The saved rack plugin is unavailable: "@ + path@,
{
    if path_exists && is_bundle_path(path) { Ok(()) } else { Err(concat2("The saved rack plugin is unavailable: ", path)) }
}

} // verus!
