//! Verified core of the Riffra audio workstation: recording captures, asset
//! identity, transport intent, projection scheduling and the byte formats
//! (WAV, Standard MIDI) that the application reads and writes.

pub mod text;
pub mod path;
pub mod model;
pub mod audio_preferences;
pub mod native_audio;
pub mod transport;
pub mod projection;
pub mod errors;
pub mod asset;
pub mod rack;
pub mod session;
pub mod missing;
pub mod wav;
pub mod recording;
pub mod recording_index;
pub mod timeline;
pub mod take_placement;
pub mod startup;
pub mod runtime_snapshot;
pub mod midi_export;
pub mod plugins;
pub mod library;
pub mod projects;
pub mod shell;
pub mod render_plan;
pub mod separation;
pub mod analysis;
pub mod jobs;
pub mod plugin_validation;
pub mod plugin_catalog;
pub mod asset_store;
pub mod duplicates;
pub mod recording_start;
pub mod rack_runtime;
pub mod rack_macros;
pub mod arrangement_commit;
