use ruststream_core::audio_graph::{AudioGate, AudioGraphConfig, AudioGraphResult, AudioInput, SyncConfig};
use ruststream_core::errors::{DriftMetrics, MediaError, MediaErrorCode};
use ruststream_core::render_graph::run_audio_graph;

#[test]
fn test_audio_input_creation() {
    let input = AudioInput::new("vo", "/tmp/vo.mp3", "voiceover")
        .with_volume(0.8f64.to_bits())
        .with_offset(48000);

    assert_eq!(input.id, "vo");
    assert_eq!(input.path, "/tmp/vo.mp3");
    assert_eq!(input.input_type, "voiceover");
    assert!((f64::from_bits(input.volume_bits) - 0.8).abs() < f64::EPSILON);
    assert_eq!(input.start_offset_samples, 48000);
}

#[test]
fn volume_is_clamped_like_f64_clamp() {
    let loud = AudioInput::new("a", "/a", "music").with_volume(3.5f64.to_bits());
    assert_eq!(f64::from_bits(loud.volume_bits), 1.0);
    let negative = AudioInput::new("a", "/a", "music").with_volume((-0.25f64).to_bits());
    assert_eq!(f64::from_bits(negative.volume_bits), 0.0);
    let neg_zero = AudioInput::new("a", "/a", "music").with_volume((-0.0f64).to_bits());
    assert_eq!(neg_zero.volume_bits, (-0.0f64).to_bits());
    let nan = AudioInput::new("a", "/a", "music").with_volume(f64::NAN.to_bits());
    assert!(f64::from_bits(nan.volume_bits).is_nan());
    for v in [0.0f64, 0.3, 1.0, -7.0, 9.0, f64::INFINITY, f64::NEG_INFINITY] {
        let got = AudioInput::new("a", "/a", "music").with_volume(v.to_bits());
        assert_eq!(got.volume_bits, v.clamp(0.0, 1.0).to_bits());
    }
}

#[test]
fn test_audio_graph_config_basic() {
    let config = AudioGraphConfig::new("test-graph")
        .add_input(AudioInput::new("vo", "/tmp/vo.mp3", "voiceover"))
        .with_output_sample_rate(44100)
        .with_output_channels(2);

    assert_eq!(config.graph_id, "test-graph");
    assert_eq!(config.inputs.len(), 1);
    assert_eq!(config.output_sample_rate, 44100);
    assert_eq!(config.output_channels, 2);
}

#[test]
fn test_audio_graph_validation_success() {
    let config = AudioGraphConfig::new("test").add_input(AudioInput::new("vo", "/tmp/vo.mp3", "voiceover"));
    assert!(config.validate().is_ok());
}

#[test]
fn test_audio_graph_validation_empty_id() {
    let config = AudioGraphConfig::new("").add_input(AudioInput::new("vo", "/tmp/vo.mp3", "voiceover"));
    assert!(config.validate().is_err());
}

#[test]
fn test_audio_graph_validation_no_inputs() {
    let config = AudioGraphConfig::new("test");
    assert!(config.validate().is_err());
}

#[test]
fn test_audio_graph_validation_zero_sample_rate() {
    let config = AudioGraphConfig::new("test")
        .add_input(AudioInput::new("vo", "/tmp/vo.mp3", "voiceover"))
        .with_output_sample_rate(0);
    assert!(config.validate().is_err());
}

#[test]
fn validation_messages_follow_check_order() {
    let config = AudioGraphConfig::new("g")
        .add_input(AudioInput::new("first", "/ok.wav", "music"))
        .add_input(AudioInput::new("second", "", "music"))
        .add_input(AudioInput::new("third", "", "music"));
    let e = config.validate().unwrap_err();
    assert_eq!(e.code, MediaErrorCode::AudioGraphInvalidConfig);
    assert_eq!(e.message, "Input 'second' has empty path");

    let config = AudioGraphConfig::new("g")
        .add_input(AudioInput::new("a", "/a", "music"))
        .with_output_channels(3);
    assert_eq!(config.validate().unwrap_err().message, "Output channels must be 1 (mono) or 2 (stereo)");
    assert_eq!(
        AudioGraphConfig::new("").validate().unwrap_err().message,
        "Graph ID cannot be empty"
    );
    assert_eq!(
        AudioGraphConfig::new("x").validate().unwrap_err().message,
        "At least one audio input is required"
    );
}

#[test]
fn test_find_inputs_by_type() {
    let config = AudioGraphConfig::new("test")
        .add_input(AudioInput::new("vo1", "/tmp/vo1.mp3", "voiceover"))
        .add_input(AudioInput::new("vo2", "/tmp/vo2.mp3", "voiceover"))
        .add_input(AudioInput::new("music", "/tmp/music.mp3", "music"));

    let voiceovers = config.find_inputs_by_type("voiceover");
    assert_eq!(voiceovers.len(), 2);
    assert_eq!(voiceovers, vec![0, 1]);

    let music = config.find_inputs_by_type("music");
    assert_eq!(music.len(), 1);

    let sfx = config.find_inputs_by_type("sfx");
    assert_eq!(sfx.len(), 0);
}

#[test]
fn test_sync_config_defaults() {
    let sync = SyncConfig::default();
    assert_eq!(sync.sample_rate, 48000);
    assert_eq!(sync.frame_duration_samples, 1600);
    assert!((f64::from_bits(sync.max_drift_frames_bits) - 1.0).abs() < f64::EPSILON);
    assert!(sync.auto_correct_drift);
}

#[test]
fn test_audio_graph_result_success() {
    let result = AudioGraphResult::success("/tmp/output.m4a", 480000);
    assert!(result.success);
    assert_eq!(result.output_path, "/tmp/output.m4a");
    assert_eq!(result.samples_processed, 480000);
    assert!(result.error.is_none());
}

#[test]
fn test_audio_graph_result_failure() {
    let error = MediaError::new(MediaErrorCode::AudioGraphInvalidConfig, "test error");
    let result = AudioGraphResult::failure(error.clone());
    assert!(!result.success);
    assert!(result.output_path.is_empty());
    assert_eq!(result.samples_processed, 0);
    assert!(result.error.is_some());
}

#[test]
fn audio_gate_and_drift_builders() {
    let input = AudioInput::new("vo", "/vo", "voiceover").with_gate(AudioGate::new(10, 20));
    assert_eq!(input.gates, vec![AudioGate { start_sample: 10, end_sample: 20 }]);
    let drift = DriftMetrics { drift_corrections_count: 3, ..DriftMetrics::new() };
    let result = AudioGraphResult::success("/o", 1).with_drift(drift);
    assert_eq!(result.drift.drift_corrections_count, 3);
}

#[test]
fn run_audio_graph_valid_and_invalid() {
    let valid = AudioGraphConfig::new("g").add_input(AudioInput::new("vo", "/vo.wav", "voiceover"));
    let ok = run_audio_graph(&valid, "1");
    assert!(ok.success);
    assert_eq!(ok.output_path, "");
    assert_eq!(ok.samples_processed, 0);

    let no_inputs = AudioGraphConfig::new("g");
    let failed = run_audio_graph(&no_inputs, "1");
    assert!(!failed.success);
    assert_eq!(failed.error.unwrap().code, MediaErrorCode::AudioGraphInvalidConfig);
}

#[test]
fn run_audio_graph_drift_threshold() {
    let too_high = AudioGraphConfig::new("g")
        .add_input(AudioInput::new("vo", "/vo.wav", "voiceover"))
        .with_sync(SyncConfig { max_drift_frames_bits: 2.0f64.to_bits(), ..SyncConfig::default() });
    let result = run_audio_graph(&too_high, &format!("{}", 2.0f64));
    assert!(!result.success);
    let error = result.error.unwrap();
    assert_eq!(error.code, MediaErrorCode::AudioDriftExceeded);
    assert_eq!(error.message, "Max drift threshold too high: 2 frames (max 1.0)");

    let at_one = AudioGraphConfig::new("g")
        .add_input(AudioInput::new("vo", "/vo.wav", "voiceover"))
        .with_sync(SyncConfig { max_drift_frames_bits: 1.0f64.to_bits(), ..SyncConfig::default() });
    assert!(run_audio_graph(&at_one, "1").success);
}

#[test]
fn test_run_audio_graph_invalid_drift() {
    let config = AudioGraphConfig::new("test-graph")
        .with_sync(SyncConfig { max_drift_frames_bits: 2.0f64.to_bits(), ..Default::default() });
    let result = ruststream_core::media_pipeline::run_audio_graph(config, &format!("{}", 2.0f64));
    assert!(!result.success);
    let error = result.error.unwrap();
    assert_eq!(error.code, MediaErrorCode::AudioDriftExceeded);
    assert_eq!(error.message, "Max drift threshold too high: 2 frames (max 1.0)");
}

#[test]
fn test_run_audio_graph_valid() {
    let config = AudioGraphConfig::new("test-graph");
    let result = ruststream_core::media_pipeline::run_audio_graph(config, "1");
    assert!(result.success);
}

#[test]
fn pipeline_audio_graph_checks() {
    let unnamed = ruststream_core::media_pipeline::run_audio_graph(AudioGraphConfig::new(""), "1");
    assert!(!unnamed.success);
    assert_eq!(unnamed.error.unwrap().message, "Graph ID cannot be empty");
    let no_rate = ruststream_core::media_pipeline::run_audio_graph(AudioGraphConfig::new("g").with_output_sample_rate(0), "1");
    assert_eq!(no_rate.error.unwrap().message, "Output sample rate cannot be zero");
    let empty_path = AudioGraphConfig::new("g").add_input(AudioInput::new("vo", "", "voiceover"));
    let r = ruststream_core::media_pipeline::run_audio_graph(empty_path, "1");
    assert_eq!(r.error.unwrap().message, "Input 'vo' has empty path");
    let render_side = run_audio_graph(&AudioGraphConfig::new("test-graph"), "1");
    assert!(!render_side.success);
    assert_eq!(render_side.output_path, "");
}

#[test]
fn drift_limit_decision() {
    let over = SyncConfig { max_drift_frames_bits: 1.5f64.to_bits(), ..SyncConfig::default() };
    assert!(over.drift_limit_exceeded());
    assert!(!SyncConfig::default().drift_limit_exceeded());
    let nan = SyncConfig { max_drift_frames_bits: f64::NAN.to_bits(), ..SyncConfig::default() };
    assert!(!nan.drift_limit_exceeded());
}
