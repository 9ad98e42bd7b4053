use riffra::analysis::{check_analysis_extension, check_analysis_source, duration_ms, waveform_bin};
use riffra::midi_export::{encode_session_midi, export_result, ms_to_ticks, write_var_len, ExportClip, ExportNote};
use riffra::render_plan::{audible_clips, check_render_source, mix_target, mixed_frames, plan_render, render_result, RenderClip, RenderOptions, RenderTrack};
use riffra::separation::{check_source_kind, frame_samples, plan_channel_split, sort_separations, separation_result, SeparationResult};
use riffra::asset::{mint_asset_id, AssetKind};
use riffra::wav::{float_wav_header, parse_wav, partial_wav_samples, WavData};

fn mono_test_wav() -> Vec<u8> {
    let data = vec![0_u8; 4_410 * 2];
    let mut wav = Vec::new();
    wav.extend_from_slice(b"RIFF");
    wav.extend_from_slice(&(36_u32 + data.len() as u32).to_le_bytes());
    wav.extend_from_slice(b"WAVEfmt ");
    wav.extend_from_slice(&16_u32.to_le_bytes());
    wav.extend_from_slice(&1_u16.to_le_bytes());
    wav.extend_from_slice(&1_u16.to_le_bytes());
    wav.extend_from_slice(&44_100_u32.to_le_bytes());
    wav.extend_from_slice(&(44_100_u32 * 2).to_le_bytes());
    wav.extend_from_slice(&2_u16.to_le_bytes());
    wav.extend_from_slice(&16_u16.to_le_bytes());
    wav.extend_from_slice(b"data");
    wav.extend_from_slice(&(data.len() as u32).to_le_bytes());
    wav.extend_from_slice(&data);
    wav
}

#[test]
fn parses_the_format_and_data_of_a_wav() {
    let wav = parse_wav(&mono_test_wav()).unwrap();
    assert_eq!(wav.channels, 1);
    assert_eq!(wav.sample_rate, 44_100);
    assert_eq!(wav.bits_per_sample, 16);
    assert_eq!(wav.data_offset, 44);
    assert_eq!(wav.data_len, 8_820);
    assert!(parse_wav(b"RIFF\0\0\0\0WAVE").is_err());
    assert_eq!(partial_wav_samples(&mono_test_wav()), Some(4_410));
}

fn clip(name: &str, start_ms: u64, duration_ms: u64, source_out_ms: u64, loop_enabled: bool) -> RenderClip {
    RenderClip {
        name: name.into(),
        track_id: "main".into(),
        muted: false,
        start_ms,
        duration_ms,
        source_in_ms: 0,
        source_out_ms,
        loop_enabled,
    }
}

#[test]
fn renders_non_destructive_timeline_to_stereo_float_wav() {
    let clips = vec![clip("source", 100, 200, 0, false)];
    let wav = parse_wav(&mono_test_wav()).unwrap();
    let plan = plan_render(&clips, vec![Ok(wav)], RenderOptions::default()).unwrap();
    assert_eq!(plan.sample_rate, 44_100);
    assert_eq!(plan.total_frames, 4_410 + 4_410);
    let result = render_result(42, "timeline.wav".into(), &plan, clips.len(), false);
    assert_eq!(result.clip_count, 1);
    assert!(result.frames >= 8_800);
    assert_eq!(result.id, "render:42");
}

#[test]
fn loops_a_non_destructive_source_range_to_clip_length() {
    let clips = vec![clip("loop", 0, 200, 50, true)];
    let wav = parse_wav(&mono_test_wav()).unwrap();
    let plan = plan_render(&clips, vec![Ok(wav)], RenderOptions::default()).unwrap();
    let result = render_result(43, "timeline.wav".into(), &plan, clips.len(), false);
    assert_eq!(result.frames, 8_820);
    let span = plan.spans[0];
    assert_eq!(span.available_frames, 2_205);
    assert_eq!(mixed_frames(&span), 8_820);
    assert_eq!(mix_target(&span, true, plan.start_frame, plan.end_frame, 2_206), Some((2_206, 1)));
}

#[test]
fn renders_only_the_requested_timeline_range() {
    let clips = vec![clip("range", 0, 200, 0, false)];
    let wav = parse_wav(&mono_test_wav()).unwrap();
    let options = RenderOptions { range_start_ms: 25, range_end_ms: Some(75), normalize: true };
    let plan = plan_render(&clips, vec![Ok(wav)], options).unwrap();
    let result = render_result(44, "timeline.wav".into(), &plan, clips.len(), options.normalize);
    assert_eq!(result.frames, 2_205);
    assert_eq!(result.duration_ms, 50);
    assert!(result.normalized);
    assert!(result.message.contains("normalized"));
    assert_eq!(mix_target(&plan.spans[0], false, plan.start_frame, plan.end_frame, 0), None);
}

#[test]
fn render_rejects_empty_and_mismatched_timelines() {
    assert_eq!(
        plan_render(&Vec::new(), Vec::new(), RenderOptions::default()).err().unwrap(),
        "Timeline has no audible clips to render."
    );
    let wav = parse_wav(&mono_test_wav()).unwrap();
    let mut other = parse_wav(&mono_test_wav()).unwrap();
    other.sample_rate = 48_000;
    let clips = vec![clip("a", 0, 100, 0, false), clip("b", 0, 100, 0, false)];
    assert_eq!(
        plan_render(&clips, vec![Ok(wav), Ok(other)], RenderOptions::default()).err().unwrap(),
        "Timeline sources must share one sample rate before offline render."
    );
    let wav = parse_wav(&mono_test_wav()).unwrap();
    let late = RenderOptions { range_start_ms: 500, range_end_ms: None, normalize: false };
    assert_eq!(
        plan_render(&vec![clip("a", 0, 100, 0, false)], vec![Ok(wav)], late).err().unwrap(),
        "Render range does not overlap the audible timeline."
    );
}

#[test]
fn render_rejects_unsupported_sources() {
    let mut wav = parse_wav(&mono_test_wav()).unwrap();
    wav.format = 3;
    assert_eq!(check_render_source("x", &wav).unwrap_err(), "Timeline source 'x' uses an unsupported float width.");
    wav.bits_per_sample = 12;
    assert_eq!(check_render_source("x", &wav).unwrap_err(), "Timeline source 'x' is not a supported PCM WAV.");
}

#[test]
fn solo_and_mute_decide_which_clips_are_heard() {
    let tracks = vec![
        RenderTrack { id: "a".into(), muted: false, solo: true },
        RenderTrack { id: "b".into(), muted: false, solo: false },
    ];
    let mut clips = vec![clip("1", 0, 10, 0, false), clip("2", 0, 10, 0, false), clip("3", 0, 10, 0, false)];
    clips[0].track_id = "a".into();
    clips[1].track_id = "b".into();
    clips[2].track_id = "unknown".into();
    assert_eq!(audible_clips(&tracks, &clips), vec![0, 2]);
    clips[0].muted = true;
    assert_eq!(audible_clips(&tracks, &clips), vec![2]);
}

fn note(note: u8, start_ms: u64, duration_ms: u64, channel: u8) -> ExportNote {
    ExportNote { note, start_ms, duration_ms, velocity: 100, channel }
}

#[test]
fn exports_standard_midi_with_a_note_pair() {
    let clips = vec![ExportClip { muted: false, start_ms: 0, notes: vec![note(60, 0, 250, 1)] }];
    let (bytes, note_count, clip_count) = encode_session_midi(&clips).unwrap();
    assert_eq!(&bytes[0..4], b"MThd");
    assert_eq!(&bytes[8..10], &0_u16.to_be_bytes());
    assert_eq!(note_count, 1);
    assert_eq!(clip_count, 1);
    let track = &bytes[22..];
    assert_eq!(&track[15..19], &[0x00, 0x90, 60, 100]);
    assert_eq!(&track[19..24], &[0x81, 0x70, 0x80, 60, 0]);
    assert_eq!(&track[track.len() - 4..], &[0x00, 0xff, 0x2f, 0x00]);
    let result = export_result(1, "session.mid".into(), note_count, clip_count);
    assert_eq!(result.id, "midi-export:1");
    assert_eq!(result.state, "completed");
}

#[test]
fn midi_export_needs_an_audible_note() {
    let muted = vec![ExportClip { muted: true, start_ms: 0, notes: vec![note(60, 0, 100, 1)] }];
    assert_eq!(encode_session_midi(&muted).unwrap_err(), "There are no audible MIDI notes to export.");
}

#[test]
fn note_offs_come_before_note_ons_at_the_same_tick() {
    let clips = vec![ExportClip { muted: false, start_ms: 0, notes: vec![note(64, 500, 500, 1), note(60, 0, 500, 1)] }];
    let (bytes, note_count, _) = encode_session_midi(&clips).unwrap();
    assert_eq!(note_count, 2);
    let track = &bytes[22..];
    assert_eq!(&track[15..19], &[0x00, 0x90, 60, 100]);
    assert_eq!(&track[19..24], &[0x83, 0x60, 0x80, 60, 0]);
    assert_eq!(&track[24..28], &[0x00, 0x90, 64, 100]);
}

#[test]
fn variable_length_quantities_and_ticks() {
    assert_eq!(write_var_len(0), vec![0x00]);
    assert_eq!(write_var_len(0x7f), vec![0x7f]);
    assert_eq!(write_var_len(0x80), vec![0x81, 0x00]);
    assert_eq!(write_var_len(0x0fff_ffff), vec![0xff, 0xff, 0xff, 0x7f]);
    assert_eq!(write_var_len(u64::MAX).len(), 10);
    assert_eq!(ms_to_ticks(500), 480);
    assert_eq!(ms_to_ticks(u64::MAX), u64::MAX / 60_000);
}

fn stereo(channels: u16, format: u16, bits: u16, data_len: usize) -> WavData {
    WavData { format, channels, sample_rate: 48_000, bits_per_sample: bits, data_offset: 44, data_len }
}

#[test]
fn splits_stereo_pcm_and_preserves_source() {
    let plan = plan_channel_split(Some("WAV".into()), &stereo(2, 1, 16, 400), 444).unwrap();
    assert_eq!(plan.frames, 100);
    assert_eq!(plan.frame_bytes, 4);
    assert_eq!(plan.output_data_len, 400);
    assert_eq!(frame_samples(&plan, 3), (12, 14));
    let result = separation_result(7, mint_asset_id(), mint_asset_id(), mint_asset_id(), plan.frames, 48_000);
    assert_eq!(result.id, "separation:7");
    assert_eq!(result.duration_ms, 2);
}

#[test]
fn separation_rejects_unsuitable_sources() {
    assert_eq!(plan_channel_split(Some("mp3".into()), &stereo(2, 1, 16, 400), 444).unwrap_err(), "Channel split currently accepts WAV sources only.");
    assert_eq!(plan_channel_split(Some("wav".into()), &stereo(1, 1, 16, 400), 444).unwrap_err(), "Channel split requires a stereo WAV source.");
    assert_eq!(plan_channel_split(Some("wav".into()), &stereo(2, 3, 16, 400), 444).unwrap_err(), "Float channel split requires 32-bit samples.");
    assert_eq!(plan_channel_split(Some("wav".into()), &stereo(2, 1, 16, 2), 444).unwrap_err(), "WAV contains no complete stereo frames.");
    assert_eq!(plan_channel_split(Some("wav".into()), &stereo(2, 1, 16, 400), 100).unwrap_err(), "WAV data chunk is outside the file boundary.");
    assert_eq!(check_source_kind(AssetKind::Midi).unwrap_err(), "Separation requires an audio source asset, got Midi.");
    assert!(check_source_kind(AssetKind::Audio).is_ok());
}

fn separation(created_at_ms: u64) -> SeparationResult {
    separation_result(created_at_ms, mint_asset_id(), mint_asset_id(), mint_asset_id(), 10, 48_000)
}

#[test]
fn separations_are_listed_newest_first() {
    let sorted = sort_separations(vec![separation(1), separation(3), separation(2), separation(3)]);
    let times: Vec<u64> = sorted.iter().map(|result| result.created_at_ms).collect();
    assert_eq!(times, vec![3, 3, 2, 1]);
}

#[test]
fn analysis_checks_the_source() {
    assert!(check_analysis_extension(Some("wav")).is_ok());
    assert_eq!(check_analysis_extension(Some("WAV")).unwrap_err(), "Only WAV files can be analyzed.");
    let layout = check_analysis_source(&parse_wav(&mono_test_wav()).unwrap()).unwrap();
    assert_eq!(layout.frames, 4_410);
    assert_eq!(layout.frame_bytes, 2);
    let mut silent = parse_wav(&mono_test_wav()).unwrap();
    silent.sample_rate = 0;
    assert_eq!(check_analysis_source(&silent).unwrap_err(), "WAV has no usable channels or sample rate.");
    assert_eq!(waveform_bin(0, 4_410), 0);
    assert_eq!(waveform_bin(4_409, 4_410), 127);
    assert_eq!(duration_ms(4_410, 44_100), 100);
}

#[test]
fn float_wav_headers_describe_their_samples() {
    let header = float_wav_header(1, 48_000, 8).unwrap();
    assert_eq!(header.len(), 44);
    assert_eq!(&header[0..4], b"RIFF");
    assert_eq!(u32::from_le_bytes(header[4..8].try_into().unwrap()), 44);
    assert_eq!(&header[8..16], b"WAVEfmt ");
    assert_eq!(u16::from_le_bytes(header[20..22].try_into().unwrap()), 3);
    assert_eq!(u32::from_le_bytes(header[28..32].try_into().unwrap()), 192_000);
    assert_eq!(u16::from_le_bytes(header[32..34].try_into().unwrap()), 4);
    let mut file = header.clone();
    file.extend_from_slice(&0.5_f32.to_le_bytes());
    file.extend_from_slice(&(-0.5_f32).to_le_bytes());
    let wav = parse_wav(&file).unwrap();
    assert_eq!((wav.format, wav.channels, wav.sample_rate, wav.bits_per_sample), (3, 1, 48_000, 32));
    assert_eq!((wav.data_offset, wav.data_len), (44, 8));
    let stereo = float_wav_header(2, u32::MAX, 0).unwrap();
    assert_eq!(u32::from_le_bytes(stereo[28..32].try_into().unwrap()), u32::MAX);
    assert!(float_wav_header(2, 44_100, u32::MAX - 35).is_none());
}
