//! Application-wide audio-device preferences.
//!
//! Audio devices belong to the machine, not to a session; the persisted
//! preference, the runtime call shape and the access-mode classification are
//! kept consistent here.

use vstd::prelude::*;
use crate::path::{join_path, plain_segment, no_question_mark, lemma_join_keeps_no_question_mark};
use crate::model::AudioAccessMode;
use crate::text::{lemma_trim_idempotent, 
    concat2, decimal, eq_ignore_ascii_case, eq_ignore_ascii_case_spec, opt_view, to_string,
    trim_chars, trim_spec, string_from_chars, u64_to_decimal, append_str,
};

verus! {

broadcast use vstd::string::group_string_axioms;

/// The only preference format this build reads and writes.
pub const AUDIO_PREFERENCES_FORMAT: u32 = 2;

/// Longest accepted device or driver name, in characters.
pub const MAX_TEXT_CHARS: usize = 256;

/// Persisted audio-device preferences.
#[derive(Clone, Debug, PartialEq)]
pub struct AudioPreferences {
    pub format_version: u32,
    pub driver: String,
    pub input_device: Option<String>,
    pub input_channel: u32,
    pub output_device: Option<String>,
    pub sample_rate: Option<u32>,
    pub buffer_size: Option<u32>,
}

/// The runtime-call shape of a driver/device change.
#[derive(Clone, Debug, PartialEq)]
pub struct AudioDriverConfig {
    pub driver: String,
    pub input_device: Option<String>,
    pub input_channel: u32,
    pub output_device: Option<String>,
    pub sample_rate: Option<u32>,
    pub buffer_size: Option<u32>,
}

/// Mathematical view of [`AudioPreferences`].
pub struct AudioPreferencesView {
    pub format_version: u32,
    pub driver: Seq<char>,
    pub input_device: Option<Seq<char>>,
    pub input_channel: u32,
    pub output_device: Option<Seq<char>>,
    pub sample_rate: Option<u32>,
    pub buffer_size: Option<u32>,
}

impl View for AudioPreferences {
    type V = AudioPreferencesView;

    open spec fn view(&self) -> AudioPreferencesView {
        AudioPreferencesView {
            format_version: self.format_version,
            driver: self.driver@,
            input_device: opt_view(self.input_device),
            input_channel: self.input_channel,
            output_device: opt_view(self.output_device),
            sample_rate: self.sample_rate,
            buffer_size: self.buffer_size,
        }
    }
}

/// The default shared driver name.
pub open spec fn default_driver() -> Seq<char> {
    "Windows Audio (Low Latency Mode)"@
}

/// The default preferences: low-latency shared Windows audio, device defaults.
pub open spec fn default_preferences() -> AudioPreferencesView {
    AudioPreferencesView {
        format_version: 2,
        driver: default_driver(),
        input_device: None,
        input_channel: 0,
        output_device: None,
        sample_rate: None,
        buffer_size: None,
    }
}

/// Access-mode classification of a driver name.
pub open spec fn access_mode_spec(driver: Seq<char>) -> AudioAccessMode {
    if eq_ignore_ascii_case_spec(driver, "Windows Audio"@)
        || eq_ignore_ascii_case_spec(driver, "Windows Audio (Low Latency Mode)"@)
        || eq_ignore_ascii_case_spec(driver, "DirectSound"@) {
        AudioAccessMode::Shared
    } else if eq_ignore_ascii_case_spec(driver, "Windows Audio (Exclusive Mode)"@) {
        AudioAccessMode::Exclusive
    } else {
        AudioAccessMode::DriverManaged
    }
}

/// Validation of one required text field: trimmed, non-empty, at most 256
/// characters. Errors name the field by `label`.
pub open spec fn normalize_text_spec(value: Seq<char>, label: Seq<char>) -> Result<Seq<char>, Seq<char>> {
    let t = trim_spec(value);
    if t.len() == 0 {
        Err(label + " must not be empty."@)
    } else if t.len() > 256 {
        Err(label + " is too long."@)
    } else {
        Ok(t)
    }
}

/// Validation of one optional text field.
pub open spec fn normalize_optional_spec(value: Option<Seq<char>>, label: Seq<char>) -> Result<Option<Seq<char>>, Seq<char>> {
    match value {
        None => Ok(None),
        Some(v) => match normalize_text_spec(v, label) {
            Ok(t) => Ok(Some(t)),
            Err(e) => Err(e),
        },
    }
}

/// The message for an unsupported preference format.
pub open spec fn format_error(found: u32) -> Seq<char> {
    "Audio preferences format "@ + decimal(found as nat) + " is unsupported; expected "@ + decimal(2) + "."@
}

/// Validation and normalization of stored preferences: the format must be
/// current, names are trimmed and bounded, and the sample rate (8-192 kHz) and
/// buffer size (16-8192 samples) must be in range. Checks run in this order
/// and the first failure is reported.
pub open spec fn validate_spec(p: AudioPreferencesView) -> Result<AudioPreferencesView, Seq<char>> {
    if p.format_version != 2 {
        Err(format_error(p.format_version))
    } else {
        match normalize_text_spec(p.driver, "Audio driver"@) {
            Err(e) => Err(e),
            Ok(driver) => match normalize_optional_spec(p.input_device, "Audio input device"@) {
                Err(e) => Err(e),
                Ok(input_device) => match normalize_optional_spec(p.output_device, "Audio output device"@) {
                    Err(e) => Err(e),
                    Ok(output_device) => {
                        if p.sample_rate is Some && !(8000 <= p.sample_rate->0 <= 192000) {
                            Err("Audio sample rate preference is outside 8-192 kHz."@)
                        } else if p.buffer_size is Some && !(16 <= p.buffer_size->0 <= 8192) {
                            Err("Audio buffer preference is outside 16-8192 samples."@)
                        } else {
                            Ok(AudioPreferencesView { driver, input_device, output_device, ..p })
                        }
                    },
                },
            },
        }
    }
}

impl AudioPreferences {
    /// Projects the persisted preferences into the runtime-call shape.
    pub fn as_driver_config(&self) -> (config: AudioDriverConfig)
        ensures
            config.driver@ == self.driver@,
            opt_view(config.input_device) == opt_view(self.input_device),
            config.input_channel == self.input_channel,
            opt_view(config.output_device) == opt_view(self.output_device),
            config.sample_rate == self.sample_rate,
            config.buffer_size == self.buffer_size,
    {
        AudioDriverConfig {
            driver: self.driver.clone(),
            input_device: clone_opt(&self.input_device),
            input_channel: self.input_channel,
            output_device: clone_opt(&self.output_device),
            sample_rate: self.sample_rate,
            buffer_size: self.buffer_size,
        }
    }

    /// Builds stored preferences from a runtime driver configuration in the
    /// current format.
    pub fn from_driver_config(config: &AudioDriverConfig) -> (p: AudioPreferences)
        ensures
            p@.format_version == AUDIO_PREFERENCES_FORMAT,
            p.driver@ == config.driver@,
            opt_view(p.input_device) == opt_view(config.input_device),
            p.input_channel == config.input_channel,
            opt_view(p.output_device) == opt_view(config.output_device),
            p.sample_rate == config.sample_rate,
            p.buffer_size == config.buffer_size,
    {
        AudioPreferences {
            format_version: AUDIO_PREFERENCES_FORMAT,
            driver: config.driver.clone(),
            input_device: clone_opt(&config.input_device),
            input_channel: config.input_channel,
            output_device: clone_opt(&config.output_device),
            sample_rate: config.sample_rate,
            buffer_size: config.buffer_size,
        }
    }

    /// Checks the format, trims and bounds the names, and range-checks the
    /// sample rate and buffer size.
    pub fn validate_and_normalize(self) -> (res: Result<AudioPreferences, String>)
        ensures
            match res {
                Ok(p) => validate_spec(self@) == Ok::<AudioPreferencesView, Seq<char>>(p@),
                Err(e) => validate_spec(self@) == Err::<AudioPreferencesView, Seq<char>>(e@),
            },
    {
        let mut p = self;
        if p.format_version != AUDIO_PREFERENCES_FORMAT {
            let mut msg = to_string("Audio preferences format ");
            let found = u64_to_decimal(p.format_version as u64);
            append_str(&mut msg, found.as_str());
            append_str(&mut msg, " is unsupported; expected ");
            let expected = u64_to_decimal(AUDIO_PREFERENCES_FORMAT as u64);
            append_str(&mut msg, expected.as_str());
            append_str(&mut msg, ".");
            return Err(msg);
        }
        let driver = match normalize_required_text(p.driver.as_str(), "Audio driver") {
            Ok(d) => d,
            Err(e) => return Err(e),
        };
        let input_device = match normalize_optional_text(p.input_device, "Audio input device") {
            Ok(d) => d,
            Err(e) => return Err(e),
        };
        let output_device = match normalize_optional_text(p.output_device, "Audio output device") {
            Ok(d) => d,
            Err(e) => return Err(e),
        };
        if let Some(rate) = p.sample_rate {
            if !(8000 <= rate && rate <= 192000) {
                return Err(to_string("Audio sample rate preference is outside 8-192 kHz."));
            }
        }
        if let Some(buffer) = p.buffer_size {
            if !(16 <= buffer && buffer <= 8192) {
                return Err(to_string("Audio buffer preference is outside 16-8192 samples."));
            }
        }
        Ok(AudioPreferences {
            format_version: AUDIO_PREFERENCES_FORMAT,
            driver,
            input_device,
            input_channel: p.input_channel,
            output_device,
            sample_rate: p.sample_rate,
            buffer_size: p.buffer_size,
        })
    }
}

impl Default for AudioPreferences {
    fn default() -> (p: Self)
        ensures
            p@ == default_preferences(),
    {
        AudioPreferences {
            format_version: AUDIO_PREFERENCES_FORMAT,
            driver: to_string("Windows Audio (Low Latency Mode)"),
            input_device: None,
            input_channel: 0,
            output_device: None,
            sample_rate: None,
            buffer_size: None,
        }
    }
}

fn clone_opt(o: &Option<String>) -> (r: Option<String>)
    ensures
        opt_view(r) == opt_view(*o),
{
    match o {
        Some(s) => Some(s.clone()),
        None => None,
    }
}

/// Classifies a driver by how it shares the device.
pub fn access_mode_for_driver(driver: &str) -> (mode: AudioAccessMode)
    ensures
        mode == access_mode_spec(driver@),
{
    if eq_ignore_ascii_case(driver, "Windows Audio")
        || eq_ignore_ascii_case(driver, "Windows Audio (Low Latency Mode)")
        || eq_ignore_ascii_case(driver, "DirectSound")
    {
        AudioAccessMode::Shared
    } else if eq_ignore_ascii_case(driver, "Windows Audio (Exclusive Mode)") {
        AudioAccessMode::Exclusive
    } else {
        AudioAccessMode::DriverManaged
    }
}

/// Trims a required name and rejects an empty or over-long one.
pub fn normalize_required_text(value: &str, label: &str) -> (res: Result<String, String>)
    ensures
        match res {
            Ok(t) => normalize_text_spec(value@, label@) == Ok::<Seq<char>, Seq<char>>(t@),
            Err(e) => normalize_text_spec(value@, label@) == Err::<Seq<char>, Seq<char>>(e@),
        },
{
    let t = trim_chars(value);
    if t.len() == 0 {
        return Err(concat2(label, " must not be empty."));
    }
    if t.len() > MAX_TEXT_CHARS {
        return Err(concat2(label, " is too long."));
    }
    Ok(string_from_chars(&t))
}

/// Applies [`normalize_required_text`] to a present optional name.
pub fn normalize_optional_text(value: Option<String>, label: &str) -> (res: Result<Option<String>, String>)
    ensures
        match res {
            Ok(t) => normalize_optional_spec(opt_view(value), label@) == Ok::<Option<Seq<char>>, Seq<char>>(opt_view(t)),
            Err(e) => normalize_optional_spec(opt_view(value), label@) == Err::<Option<Seq<char>>, Seq<char>>(e@),
        },
{
    match value {
        None => Ok(None),
        Some(v) => match normalize_required_text(v.as_str(), label) {
            Ok(t) => Ok(Some(t)),
            Err(e) => Err(e),
        },
    }
}

/// What to do with the preferences read at startup.
pub enum LoadDecision {
    /// Valid stored preferences are used unchanged and not rewritten.
    UseStored(AudioPreferences),
    /// The defaults are used and must be written back before use.
    WriteDefaults(AudioPreferences),
}

/// Chooses the startup preferences from what loading the store produced:
/// valid stored preferences are kept; a missing, unreadable, outdated or
/// invalid file is replaced by the defaults, which the caller then saves.
pub fn load_or_default(loaded: Result<Option<AudioPreferences>, String>) -> (d: LoadDecision)
    ensures
        match loaded {
            Ok(Some(p)) => d matches LoadDecision::UseStored(q) && q@ == p@,
            _ => d matches LoadDecision::WriteDefaults(q) && q@ == default_preferences(),
        },
{
    match loaded {
        Ok(Some(p)) => LoadDecision::UseStored(p),
        _ => LoadDecision::WriteDefaults(AudioPreferences::default()),
    }
}

/// The view of a load result.
pub open spec fn loaded_view(r: Result<Option<AudioPreferences>, String>) -> Result<Option<AudioPreferencesView>, Seq<char>> {
    match r {
        Ok(Some(p)) => Ok(Some(p@)),
        Ok(None) => Ok(None),
        Err(e) => Err(e@),
    }
}

/// What loading gives for what was read and parsed: nothing stays nothing,
/// a failure stays that failure, parsed preferences are validated.
pub open spec fn load_parsed_spec(parsed: Result<Option<AudioPreferencesView>, Seq<char>>) -> Result<Option<AudioPreferencesView>, Seq<char>> {
    match parsed {
        Ok(None) => Ok(None),
        Err(e) => Err(e),
        Ok(Some(p)) => match validate_spec(p) {
            Ok(q) => Ok(Some(q)),
            Err(m) => Err(m),
        },
    }
}

/// What loading the store gives once the file was read and parsed: no file
/// stays none; a read or parse failure stays that failure; parsed
/// preferences are validated (see `validate_and_normalize`), and a
/// validation failure is a load failure.
pub fn load_parsed(parsed: Result<Option<AudioPreferences>, String>) -> (res: Result<Option<AudioPreferences>, String>)
    ensures
        loaded_view(res) == load_parsed_spec(loaded_view(parsed)),
        match parsed {
            Ok(None) => res matches Ok(None),
            Err(e) => res matches Err(f) && f@ == e@,
            Ok(Some(p)) => match validate_spec(p@) {
                Ok(q) => res matches Ok(Some(r)) && r@ == q,
                Err(m) => res matches Err(f) && f@ == m,
            },
        },
{
    match parsed {
        Ok(None) => Ok(None),
        Err(e) => Err(e),
        Ok(Some(p)) => match p.validate_and_normalize() {
            Ok(q) => Ok(Some(q)),
            Err(m) => Err(m),
        },
    }
}

/// The startup preferences from what reading and parsing the store gave:
/// stored preferences that validate are used, normalized and not rewritten;
/// a missing, unreadable, unparsable, outdated or invalid file gives the
/// defaults, to be written back.
pub fn load_preferences(parsed: Result<Option<AudioPreferences>, String>) -> (d: LoadDecision)
    ensures
        match parsed {
            Ok(Some(p)) => match validate_spec(p@) {
                Ok(q) => d matches LoadDecision::UseStored(r) && r@ == q,
                Err(_) => d matches LoadDecision::WriteDefaults(r) && r@ == default_preferences(),
            },
            _ => d matches LoadDecision::WriteDefaults(r) && r@ == default_preferences(),
        },
{
    load_or_default(load_parsed(parsed))
}

/// Validating preferences that validated gives them back unchanged.
pub proof fn law_validation_is_idempotent(p: AudioPreferencesView)
    requires
        validate_spec(p) is Ok,
    ensures
        validate_spec(validate_spec(p)->Ok_0) == validate_spec(p),
{
    lemma_trim_idempotent(p.driver);
    match p.input_device {
        Some(d) => lemma_trim_idempotent(d),
        None => {},
    }
    match p.output_device {
        Some(d) => lemma_trim_idempotent(d),
        None => {},
    }
    let q = validate_spec(p)->Ok_0;
    assert(validate_spec(q) == Ok::<AudioPreferencesView, Seq<char>>(q));
}

/// Preferences saved (saving writes their validated form) load back as
/// exactly what was written; a store where nothing was saved loads nothing.
pub proof fn law_saved_preferences_load_back(p: AudioPreferencesView)
    requires
        validate_spec(p) is Ok,
    ensures
        load_parsed_spec(Ok(Some(validate_spec(p)->Ok_0))) == Ok::<Option<AudioPreferencesView>, Seq<char>>(Some(validate_spec(p)->Ok_0)),
        load_parsed_spec(Ok(None)) == Ok::<Option<AudioPreferencesView>, Seq<char>>(None),
{
    law_validation_is_idempotent(p);
}

/// The preferences startup keeps, saves and restarts the runtime with: the
/// stored ones in Safe Mode or when the runtime's status could not be read
/// (`reported` is `None`); otherwise the preferences built from what the
/// runtime reports as active (see `from_effective_status`), whose failure
/// fails startup.
pub fn effective_preferences(
    stored: AudioPreferences,
    safe_mode: bool,
    reported: Option<Result<AudioPreferences, String>>,
) -> (r: Result<AudioPreferences, String>)
    ensures
        r == if safe_mode {
            Ok::<AudioPreferences, String>(stored)
        } else {
            match reported {
                None => Ok::<AudioPreferences, String>(stored),
                Some(from_status) => from_status,
            }
        },
{
    if safe_mode {
        return Ok(stored);
    }
    match reported {
        None => Ok(stored),
        Some(from_status) => from_status,
    }
}

/// Where the preferences file lives, under the application data root.
pub struct AudioPreferencesStore {
    path: String,
}

impl AudioPreferencesStore {
    /// The view of the file path.
    pub closed spec fn path_view(&self) -> Seq<char> {
        self.path@
    }

    /// The store for `<data_root>/settings/audio.json`.
    pub fn new(data_root: &str) -> (store: AudioPreferencesStore)
        ensures
            no_question_mark(data_root@) ==> {
                &&& data_root@.is_prefix_of(store.path_view())
                &&& store.path_view().len() >= "audio.json"@.len()
                &&& store.path_view().subrange(store.path_view().len() - "audio.json"@.len(), store.path_view().len() as int) == "audio.json"@
            },
    {
        proof {
            reveal_strlit("settings");
            reveal_strlit("audio.json");
            assert(plain_segment("settings"@));
            assert(plain_segment("audio.json"@));
            assert(no_question_mark("settings"@));
        }
        let settings = join_path(data_root, "settings");
        proof {
            if no_question_mark(data_root@) {
                lemma_join_keeps_no_question_mark(data_root@, "settings"@, settings@);
            }
        }
        let path = join_path(settings.as_str(), "audio.json");
        proof {
            if no_question_mark(data_root@) {
                assert(data_root@.is_prefix_of(path@)) by {
                    assert forall|i: int| 0 <= i < data_root@.len() implies data_root@[i] == path@[i] by {
                        assert(settings@[i] == path@[i]);
                    }
                }
            }
        }
        AudioPreferencesStore { path }
    }

    /// The preferences file path.
    pub fn path(&self) -> (p: &String)
        ensures
            p@ == self.path_view(),
    {
        &self.path
    }
}

/// The message for a driver change attempted in Safe Mode.
pub open spec fn safe_mode_driver_message() -> Seq<char> {
    "Safe Mode blocks audio-driver changes; restart Riffra without --safe-mode first."@
}

/// First step of a driver change: refused in Safe Mode, otherwise the
/// requested configuration is validated as current-format preferences.
pub fn requested_preferences(config: &AudioDriverConfig, safe_mode: bool) -> (res: Result<AudioPreferences, String>)
    ensures
        safe_mode ==> (res matches Err(e) && e@ == safe_mode_driver_message()),
        !safe_mode ==> match res {
            Ok(p) => validate_spec(AudioPreferences::from_driver_config_spec(config)) == Ok::<AudioPreferencesView, Seq<char>>(p@),
            Err(e) => validate_spec(AudioPreferences::from_driver_config_spec(config)) == Err::<AudioPreferencesView, Seq<char>>(e@),
        },
{
    if safe_mode {
        return Err(to_string("Safe Mode blocks audio-driver changes; restart Riffra without --safe-mode first."));
    }
    AudioPreferences::from_driver_config(config).validate_and_normalize()
}

impl AudioPreferences {
    /// View of the preferences built from a driver configuration.
    pub open spec fn from_driver_config_spec(config: &AudioDriverConfig) -> AudioPreferencesView {
        AudioPreferencesView {
            format_version: 2,
            driver: config.driver@,
            input_device: opt_view(config.input_device),
            input_channel: config.input_channel,
            output_device: opt_view(config.output_device),
            sample_rate: config.sample_rate,
            buffer_size: config.buffer_size,
        }
    }

    /// View of the preferences read back from the effective runtime status;
    /// `None` when the runtime reported no driver.
    pub open spec fn from_status_spec(
        driver: Option<Seq<char>>,
        input_device: Option<Seq<char>>,
        input_channel: Option<u32>,
        output_device: Option<Seq<char>>,
        sample_rate: Option<u32>,
        buffer_size: Option<u32>,
    ) -> Option<AudioPreferencesView> {
        match driver {
            None => None,
            Some(d) => Some(AudioPreferencesView {
                format_version: 2,
                driver: d,
                input_device,
                input_channel: match input_channel { Some(c) => c, None => 0 },
                output_device,
                sample_rate,
                buffer_size,
            }),
        }
    }

    /// Builds validated preferences from what the runtime reports as active.
    pub fn from_effective_status(
        driver: Option<String>,
        input_device: Option<String>,
        input_channel: Option<u32>,
        output_device: Option<String>,
        sample_rate: Option<u32>,
        buffer_size: Option<u32>,
    ) -> (res: Result<AudioPreferences, String>)
        ensures
            match Self::from_status_spec(opt_view(driver), opt_view(input_device), input_channel, opt_view(output_device), sample_rate, buffer_size) {
                None => res matches Err(e) && e@ == "Native audio did not report an active driver."@,
                Some(v) => match res {
                    Ok(p) => validate_spec(v) == Ok::<AudioPreferencesView, Seq<char>>(p@),
                    Err(e) => validate_spec(v) == Err::<AudioPreferencesView, Seq<char>>(e@),
                },
            },
    {
        let driver = match driver {
            Some(d) => d,
            None => return Err(to_string("Native audio did not report an active driver.")),
        };
        let channel = match input_channel {
            Some(c) => c,
            None => 0,
        };
        AudioPreferences {
            format_version: AUDIO_PREFERENCES_FORMAT,
            driver,
            input_device,
            input_channel: channel,
            output_device,
            sample_rate,
            buffer_size,
        }.validate_and_normalize()
    }
}

/// The error reported when effective preferences could not be saved, after the
/// previous device was (or could not be) restored.
pub open spec fn save_failure_spec(error: Seq<char>, rollback: Result<(), Seq<char>>) -> Seq<char> {
    match rollback {
        Ok(_) => "Audio preferences could not be saved; the previous audio device was restored: "@ + error,
        Err(r) => "Audio preferences could not be saved and the previous audio device could not be restored: "@ + error + "; "@ + r,
    }
}

/// Composes the save-failure message from the rollback outcome.
pub fn save_failure_message(error: &str, rollback: Result<(), String>) -> (msg: String)
    ensures
        msg@ == save_failure_spec(error@, match rollback { Ok(u) => Ok(u), Err(e) => Err(e@) }),
{
    match rollback {
        Ok(_) => concat2("Audio preferences could not be saved; the previous audio device was restored: ", error),
        Err(r) => {
            let mut m = concat2("Audio preferences could not be saved and the previous audio device could not be restored: ", error);
            append_str(&mut m, "; ");
            append_str(&mut m, r.as_str());
            m
        },
    }
}

/// The status message after a successful driver change, by access mode.
pub open spec fn driver_change_message_spec(current: Seq<char>, mode: AudioAccessMode) -> Seq<char> {
    match mode {
        AudioAccessMode::Shared => current,
        AudioAccessMode::Exclusive => "Exclusive audio is active; other applications using this device will be paused."@,
        AudioAccessMode::DriverManaged => "Audio sharing is controlled by this driver; other applications may be paused."@,
    }
}

/// The message shown after a driver change: the runtime's own message for a
/// shared driver, otherwise a warning that other applications may pause. The
/// active driver is the reported one, or the requested one when none was
/// reported.
pub fn driver_change_message(current: String, reported_driver: Option<&str>, requested_driver: &str) -> (msg: String)
    ensures
        msg@ == driver_change_message_spec(current@, access_mode_spec(
            match reported_driver { Some(d) => d@, None => requested_driver@ })),
{
    let driver = match reported_driver {
        Some(d) => d,
        None => requested_driver,
    };
    match access_mode_for_driver(driver) {
        AudioAccessMode::Shared => current,
        AudioAccessMode::Exclusive => to_string("Exclusive audio is active; other applications using this device will be paused."),
        AudioAccessMode::DriverManaged => to_string("Audio sharing is controlled by this driver; other applications may be paused."),
    }
}

} // verus!
