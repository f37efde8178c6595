//! Persisted application settings: the data model and the keyed update
//! rule. Loading and saving the underlying store is the surrounding
//! application's job; it hands the new value in as a plain
//! [`SettingValue`].

use vstd::prelude::*;
use vstd::string::*;

use crate::text::eq_str;

verus! {

/// Keyed, persisted configuration for provider selection, credentials
/// and feature toggles.
#[derive(Debug)]
pub struct AppSettings {
    pub whisper_enabled: bool,
    pub whisper_server_url: String,
    pub whisper_model: String,
    pub elevenlabs_enabled: bool,
    pub elevenlabs_api_key: String,
    pub elevenlabs_voice_id: String,
    pub elevenlabs_model_id: String,
    pub llm_provider: String,
    pub llm_model: String,
    pub llm_api_key: Option<String>,
    pub ollama_url: String,
    pub wake_word_enabled: bool,
    pub theme: String,
}

impl Default for AppSettings {
    fn default() -> (r: Self)
        ensures
            r.whisper_enabled == false,
            r.whisper_server_url@ == "http://localhost:9881"@,
            r.whisper_model@ == "base.en"@,
            r.elevenlabs_enabled == false,
            r.elevenlabs_api_key@ == ""@,
            r.elevenlabs_voice_id@ == "21m00Tcm4TlvDq8ikWAM"@,
            r.elevenlabs_model_id@ == "eleven_turbo_v2_5"@,
            r.llm_provider@ == "Ollama"@,
            r.llm_model@ == "mistral:latest"@,
            r.llm_api_key is None,
            r.ollama_url@ == "http://localhost:11434"@,
            r.wake_word_enabled == false,
            r.theme@ == "dark"@,
    {
        AppSettings {
            whisper_enabled: false,
            whisper_server_url: "http://localhost:9881".to_owned(),
            whisper_model: "base.en".to_owned(),
            elevenlabs_enabled: false,
            elevenlabs_api_key: "".to_owned(),
            elevenlabs_voice_id: "21m00Tcm4TlvDq8ikWAM".to_owned(),
            elevenlabs_model_id: "eleven_turbo_v2_5".to_owned(),
            llm_provider: "Ollama".to_owned(),
            llm_model: "mistral:latest".to_owned(),
            llm_api_key: None,
            ollama_url: "http://localhost:11434".to_owned(),
            wake_word_enabled: false,
            theme: "dark".to_owned(),
        }
    }
}

/// A settings value as the update rule reads it: the store hands over a
/// boolean, a text, or something that is neither.
#[derive(Debug)]
pub enum SettingValue {
    Bool(bool),
    Text(String),
    Null,
}

/// The key named no known setting.
#[derive(Clone, Copy, PartialEq, Eq, Structural, Debug)]
pub enum SettingsError {
    UnknownKey,
}

/// How a boolean setting reads a value: anything but a boolean falls
/// back to false.
pub open spec fn bool_of(v: SettingValue) -> bool {
    match v {
        SettingValue::Bool(b) => b,
        _ => false,
    }
}

/// How a text setting reads a value: anything but a text falls back to
/// the empty string.
pub open spec fn text_of(v: SettingValue) -> Seq<char> {
    match v {
        SettingValue::Text(s) => s@,
        _ => ""@,
    }
}

/// The known setting keys.
pub open spec fn known_setting_key(key: Seq<char>) -> bool {
    ||| key == "whisper_enabled"@
    ||| key == "whisper_server_url"@
    ||| key == "whisper_model"@
    ||| key == "elevenlabs_enabled"@
    ||| key == "elevenlabs_api_key"@
    ||| key == "elevenlabs_voice_id"@
    ||| key == "elevenlabs_model_id"@
    ||| key == "llm_provider"@
    ||| key == "llm_model"@
    ||| key == "llm_api_key"@
    ||| key == "ollama_url"@
    ||| key == "wake_word_enabled"@
    ||| key == "theme"@
}

impl AppSettings {
    /// Updates the one field that `key` names from `value`, leaving
    /// every other field alone; an unknown key changes nothing and is
    /// reported.
    pub fn apply_update(&mut self, key: &str, value: SettingValue) -> (r: Result<
        (),
        SettingsError,
    >)
        ensures
            r is Ok <==> known_setting_key(key@),
            r is Err ==> *final(self) == *old(self) && r->Err_0 is UnknownKey,
            key@ == "whisper_enabled"@ ==> *final(self) == (AppSettings {
                whisper_enabled: bool_of(value),
                ..*old(self)
            }),
            key@ == "whisper_server_url"@ ==> *final(self) == (AppSettings {
                whisper_server_url: final(self).whisper_server_url,
                ..*old(self)
            }) && final(self).whisper_server_url@ == text_of(value),
            key@ == "whisper_model"@ ==> *final(self) == (AppSettings {
                whisper_model: final(self).whisper_model,
                ..*old(self)
            }) && final(self).whisper_model@ == text_of(value),
            key@ == "elevenlabs_enabled"@ ==> *final(self) == (AppSettings {
                elevenlabs_enabled: bool_of(value),
                ..*old(self)
            }),
            key@ == "elevenlabs_api_key"@ ==> *final(self) == (AppSettings {
                elevenlabs_api_key: final(self).elevenlabs_api_key,
                ..*old(self)
            }) && final(self).elevenlabs_api_key@ == text_of(value),
            key@ == "elevenlabs_voice_id"@ ==> *final(self) == (AppSettings {
                elevenlabs_voice_id: final(self).elevenlabs_voice_id,
                ..*old(self)
            }) && final(self).elevenlabs_voice_id@ == text_of(value),
            key@ == "elevenlabs_model_id"@ ==> *final(self) == (AppSettings {
                elevenlabs_model_id: final(self).elevenlabs_model_id,
                ..*old(self)
            }) && final(self).elevenlabs_model_id@ == text_of(value),
            key@ == "llm_provider"@ ==> *final(self) == (AppSettings {
                llm_provider: final(self).llm_provider,
                ..*old(self)
            }) && final(self).llm_provider@ == text_of(value),
            key@ == "llm_model"@ ==> *final(self) == (AppSettings {
                llm_model: final(self).llm_model,
                ..*old(self)
            }) && final(self).llm_model@ == text_of(value),
            key@ == "llm_api_key"@ ==> *final(self) == (AppSettings {
                llm_api_key: final(self).llm_api_key,
                ..*old(self)
            }) && (value is Text ==> final(self).llm_api_key is Some
                && final(self).llm_api_key->Some_0@ == value->Text_0@) && (!(value is Text)
                ==> final(self).llm_api_key is None),
            key@ == "ollama_url"@ ==> *final(self) == (AppSettings {
                ollama_url: final(self).ollama_url,
                ..*old(self)
            }) && final(self).ollama_url@ == text_of(value),
            key@ == "wake_word_enabled"@ ==> *final(self) == (AppSettings {
                wake_word_enabled: bool_of(value),
                ..*old(self)
            }),
            key@ == "theme"@ ==> *final(self) == (AppSettings {
                theme: final(self).theme,
                ..*old(self)
            }) && final(self).theme@ == (if value is Text {
                value->Text_0@
            } else {
                "dark"@
            }),
    {
        proof {
            reveal_strlit("whisper_enabled");
            reveal_strlit("whisper_server_url");
            reveal_strlit("whisper_model");
            reveal_strlit("elevenlabs_enabled");
            reveal_strlit("elevenlabs_api_key");
            reveal_strlit("elevenlabs_voice_id");
            reveal_strlit("elevenlabs_model_id");
            reveal_strlit("llm_provider");
            reveal_strlit("llm_model");
            reveal_strlit("llm_api_key");
            reveal_strlit("ollama_url");
            reveal_strlit("wake_word_enabled");
            reveal_strlit("theme");
            assert("whisper_enabled"@.len() == 15);
            assert("whisper_server_url"@.len() == 18);
            assert("whisper_model"@.len() == 13);
            assert("elevenlabs_enabled"@.len() == 18);
            assert("elevenlabs_api_key"@.len() == 18);
            assert("elevenlabs_voice_id"@.len() == 19);
            assert("elevenlabs_model_id"@.len() == 19);
            assert("llm_provider"@.len() == 12);
            assert("llm_model"@.len() == 9);
            assert("llm_api_key"@.len() == 11);
            assert("ollama_url"@.len() == 10);
            assert("wake_word_enabled"@.len() == 17);
            assert("theme"@.len() == 5);
            assert("whisper_server_url"@ != "elevenlabs_enabled"@) by {
                assert("whisper_server_url"@[0] == 'w');
                assert("elevenlabs_enabled"@[0] == 'e');
            }
            assert("whisper_server_url"@ != "elevenlabs_api_key"@) by {
                assert("whisper_server_url"@[0] == 'w');
                assert("elevenlabs_api_key"@[0] == 'e');
            }
            assert("elevenlabs_enabled"@ != "elevenlabs_api_key"@) by {
                assert("elevenlabs_enabled"@[11] == 'e');
                assert("elevenlabs_api_key"@[11] == 'a');
            }
            assert("elevenlabs_voice_id"@ != "elevenlabs_model_id"@) by {
                assert("elevenlabs_voice_id"@[11] == 'v');
                assert("elevenlabs_model_id"@[11] == 'm');
            }
        }
        if eq_str(key, "whisper_enabled") {
            self.whisper_enabled = value_as_bool(value);
            Ok(())
        } else if eq_str(key, "whisper_server_url") {
            self.whisper_server_url = value_as_text(value);
            Ok(())
        } else if eq_str(key, "whisper_model") {
            self.whisper_model = value_as_text(value);
            Ok(())
        } else if eq_str(key, "elevenlabs_enabled") {
            self.elevenlabs_enabled = value_as_bool(value);
            Ok(())
        } else if eq_str(key, "elevenlabs_api_key") {
            self.elevenlabs_api_key = value_as_text(value);
            Ok(())
        } else if eq_str(key, "elevenlabs_voice_id") {
            self.elevenlabs_voice_id = value_as_text(value);
            Ok(())
        } else if eq_str(key, "elevenlabs_model_id") {
            self.elevenlabs_model_id = value_as_text(value);
            Ok(())
        } else if eq_str(key, "llm_provider") {
            self.llm_provider = value_as_text(value);
            Ok(())
        } else if eq_str(key, "llm_model") {
            self.llm_model = value_as_text(value);
            Ok(())
        } else if eq_str(key, "llm_api_key") {
            self.llm_api_key = (match value {
                SettingValue::Text(s) => Some(s),
                _ => None,
            });
            Ok(())
        } else if eq_str(key, "ollama_url") {
            self.ollama_url = value_as_text(value);
            Ok(())
        } else if eq_str(key, "wake_word_enabled") {
            self.wake_word_enabled = value_as_bool(value);
            Ok(())
        } else if eq_str(key, "theme") {
            self.theme = (match value {
                SettingValue::Text(s) => s,
                _ => "dark".to_owned(),
            });
            Ok(())
        } else {
            Err(SettingsError::UnknownKey)
        }
    }
}

/// Reads a value as a boolean setting.
fn value_as_bool(value: SettingValue) -> (r: bool)
    ensures
        r == bool_of(value),
{
    match value {
        SettingValue::Bool(b) => b,
        _ => false,
    }
}

/// Reads a value as a text setting.
fn value_as_text(value: SettingValue) -> (r: String)
    ensures
        r@ == text_of(value),
{
    match value {
        SettingValue::Text(s) => s,
        _ => "".to_owned(),
    }
}

pub open spec fn unknown_key_text(key: Seq<char>) -> Seq<char> {
    "Unknown setting key: "@ + key
}

/// The user-facing message for an update with an unknown key.
pub fn unknown_key_message(key: &str) -> (r: String)
    ensures
        r@ == unknown_key_text(key@),
{
    "Unknown setting key: ".to_owned().concat(key)
}

} // verus!
