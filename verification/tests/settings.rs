use wav_transcribe::config::{
    SamplingStrategy, Settings, TranscriptionConfig, AUDIO_PATH, LANGUAGE, MODEL_PATH,
    TEMPERATURE, THREADS,
};

#[test]
fn default_config_has_the_fixed_options() {
    let config = TranscriptionConfig::default();
    assert_eq!(config.strategy, SamplingStrategy::Greedy { best_of: 1 });
    assert_eq!(config.n_threads, 8);
    assert!(!config.translate);
    assert!(!config.print_special);
    assert_eq!(config.language, "vi");
    assert_eq!(config.temperature, 0x3DCC_CCCD);
}

#[test]
fn temperature_is_a_tenth() {
    let config = TranscriptionConfig::default();
    assert_eq!(f32::from_bits(config.temperature), 0.1f32);
    assert_eq!(TEMPERATURE, 0.1f32.to_bits());
}

#[test]
fn default_settings_have_the_fixed_paths() {
    let settings = Settings::default();
    assert_eq!(settings.model_path, "models/ggml-model.bin");
    assert_eq!(settings.audio_path, "output.wav");
    assert_eq!(settings.config, TranscriptionConfig::default());
}

#[test]
fn constants_are_the_documented_ones() {
    assert_eq!(MODEL_PATH, "models/ggml-model.bin");
    assert_eq!(AUDIO_PATH, "output.wav");
    assert_eq!(LANGUAGE, "vi");
    assert_eq!(THREADS, 8);
}
