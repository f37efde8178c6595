use astral_core::config::Config;
use astral_core::config::LLMProvider;
use astral_core::config::Theme;
use astral_core::config::VoiceProvider;
use astral_core::provider::LLMConfig;
use astral_core::settings::AppSettings;
use astral_core::settings::SettingValue;
use astral_core::settings::SettingsError;
use astral_core::settings::unknown_key_message;
use astral_core::speech::AudioConfig;
use astral_core::speech::ElevenLabsConfig;
use astral_core::speech::GPTSoVITSConfig;
use astral_core::speech::WhisperConfig;

#[test]
fn app_settings_defaults_match_the_documented_values() {
    let s = AppSettings::default();
    assert!(!s.whisper_enabled);
    assert_eq!(s.whisper_server_url, "http://localhost:9881");
    assert_eq!(s.whisper_model, "base.en");
    assert!(!s.elevenlabs_enabled);
    assert_eq!(s.elevenlabs_api_key, "");
    assert_eq!(s.elevenlabs_voice_id, "21m00Tcm4TlvDq8ikWAM");
    assert_eq!(s.elevenlabs_model_id, "eleven_turbo_v2_5");
    assert_eq!(s.llm_provider, "Ollama");
    assert_eq!(s.llm_model, "mistral:latest");
    assert_eq!(s.llm_api_key, None);
    assert_eq!(s.ollama_url, "http://localhost:11434");
    assert!(!s.wake_word_enabled);
    assert_eq!(s.theme, "dark");
}

#[test]
fn boolean_settings_read_booleans_and_fall_back_to_false() {
    let mut s = AppSettings::default();
    assert_eq!(s.apply_update("whisper_enabled", SettingValue::Bool(true)), Ok(()));
    assert!(s.whisper_enabled);
    assert_eq!(
        s.apply_update("whisper_enabled", SettingValue::Text("yes".to_string())),
        Ok(())
    );
    assert!(!s.whisper_enabled);
    assert_eq!(s.apply_update("wake_word_enabled", SettingValue::Bool(true)), Ok(()));
    assert!(s.wake_word_enabled);
}

#[test]
fn text_settings_read_texts_and_fall_back_to_empty() {
    let mut s = AppSettings::default();
    assert_eq!(
        s.apply_update("ollama_url", SettingValue::Text("http://localhost:9999".to_string())),
        Ok(())
    );
    assert_eq!(s.ollama_url, "http://localhost:9999");
    assert_eq!(s.apply_update("llm_model", SettingValue::Null), Ok(()));
    assert_eq!(s.llm_model, "");
}

#[test]
fn api_key_setting_becomes_none_for_non_text() {
    let mut s = AppSettings::default();
    assert_eq!(
        s.apply_update("llm_api_key", SettingValue::Text("SECRET-REDACTED".to_string())),
        Ok(())
    );
    assert_eq!(s.llm_api_key, Some("SECRET-REDACTED".to_string()));
    assert_eq!(s.apply_update("llm_api_key", SettingValue::Null), Ok(()));
    assert_eq!(s.llm_api_key, None);
}

#[test]
fn theme_setting_falls_back_to_dark() {
    let mut s = AppSettings::default();
    assert_eq!(s.apply_update("theme", SettingValue::Text("light".to_string())), Ok(()));
    assert_eq!(s.theme, "light");
    assert_eq!(s.apply_update("theme", SettingValue::Bool(true)), Ok(()));
    assert_eq!(s.theme, "dark");
}

#[test]
fn unknown_keys_change_nothing_and_are_reported() {
    let mut s = AppSettings::default();
    let r = s.apply_update("no_such_key", SettingValue::Bool(true));
    assert_eq!(r, Err(SettingsError::UnknownKey));
    assert_eq!(s.theme, "dark");
    assert!(!s.whisper_enabled);
    assert_eq!(
        unknown_key_message("no_such_key"),
        "Unknown setting key: no_such_key"
    );
}

#[test]
fn shell_config_defaults_match_the_documented_values() {
    let c = Config::default();
    assert_eq!(c.wake_word, "Hey ASTRAL");
    assert!(matches!(c.voice_provider, VoiceProvider::Azure));
    assert!(matches!(c.llm_provider, LLMProvider::OpenAI));
    assert!(!c.privacy_mode);
    assert!(!c.auto_start);
    assert!(matches!(c.theme, Theme::Dark));
}

#[test]
fn shell_config_clone_copies_every_field() {
    let mut c = Config::default();
    c.wake_word = "Hey there".to_string();
    c.privacy_mode = true;
    let d = c.clone();
    assert_eq!(d.wake_word, "Hey there");
    assert!(d.privacy_mode);
    assert!(matches!(d.theme, Theme::Dark));
}

#[test]
fn llm_config_defaults_to_the_local_server() {
    let c = LLMConfig::default();
    assert_eq!(c.api_key, None);
    assert_eq!(c.model, "mistral:latest");
    assert_eq!(c.temperature_centi, 70);
    assert_eq!(c.max_tokens, 500);
    assert_eq!(c.ollama_url, Some("http://localhost:11434".to_string()));
}

#[test]
fn speech_collaborator_defaults_match_the_documented_values() {
    let w = WhisperConfig::default();
    assert!(!w.enabled);
    assert_eq!(w.server_url, "http://localhost:9881");
    assert_eq!(w.model, "base.en");
    let e = ElevenLabsConfig::default();
    assert!(!e.enabled);
    assert_eq!(e.voice_id, "21m00Tcm4TlvDq8ikWAM");
    assert_eq!(e.model_id, "eleven_monolingual_v1");
    let g = GPTSoVITSConfig::default();
    assert!(!g.enabled);
    assert_eq!(g.server_url, "http://localhost:9880");
    assert_eq!(g.language, "en");
    let a = AudioConfig::default();
    assert_eq!(a.sample_rate, 16000);
    assert_eq!(a.channels, 1);
    assert_eq!(a.buffer_size, 512);
}
