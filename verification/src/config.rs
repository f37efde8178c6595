//! User preferences for the application shell. Reading and writing the
//! on-disk file is the surrounding application's job.

use vstd::prelude::*;
use vstd::string::*;

verus! {

/// Which speech-synthesis backend to use.
#[derive(Clone, Copy, PartialEq, Eq, Structural, Debug)]
pub enum VoiceProvider {
    ElevenLabs,
    Azure,
    Piper,
}

/// Which chat-completion backend the preferences name.
#[derive(Clone, Copy, PartialEq, Eq, Structural, Debug)]
pub enum LLMProvider {
    OpenAI,
    Claude,
    Ollama,
}

/// The dashboard's colour theme.
#[derive(Clone, Copy, PartialEq, Eq, Structural, Debug)]
pub enum Theme {
    Dark,
    Light,
    Auto,
}

/// User preferences and application settings.
#[derive(Debug)]
pub struct Config {
    pub wake_word: String,
    pub voice_provider: VoiceProvider,
    pub llm_provider: LLMProvider,
    pub privacy_mode: bool,
    pub auto_start: bool,
    pub theme: Theme,
}

impl Clone for Config {
    fn clone(&self) -> (r: Self)
        ensures
            r == *self,
    {
        Config {
            wake_word: self.wake_word.clone(),
            voice_provider: self.voice_provider,
            llm_provider: self.llm_provider,
            privacy_mode: self.privacy_mode,
            auto_start: self.auto_start,
            theme: self.theme,
        }
    }
}

impl Default for Config {
    fn default() -> (r: Self)
        ensures
            r.wake_word@ == "Hey ASTRAL"@,
            r.voice_provider is Azure,
            r.llm_provider is OpenAI,
            r.privacy_mode == false,
            r.auto_start == false,
            r.theme is Dark,
    {
        Config {
            wake_word: "Hey ASTRAL".to_owned(),
            voice_provider: VoiceProvider::Azure,
            llm_provider: LLMProvider::OpenAI,
            privacy_mode: false,
            auto_start: false,
            theme: Theme::Dark,
        }
    }
}

} // verus!
