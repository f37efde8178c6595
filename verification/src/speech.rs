//! Configuration models for the speech collaborators: the transcription
//! server, the two synthesis backends, and audio capture. The engines
//! themselves live outside this crate; only their settings are modelled
//! here.

use vstd::prelude::*;
use vstd::string::*;

verus! {

/// Settings for the local transcription server.
#[derive(Debug)]
pub struct WhisperConfig {
    pub enabled: bool,
    pub server_url: String,
    pub model: String,
}

impl Default for WhisperConfig {
    fn default() -> (r: Self)
        ensures
            r.enabled == false,
            r.server_url@ == "http://localhost:9881"@,
            r.model@ == "base.en"@,
    {
        WhisperConfig {
            enabled: false,
            server_url: "http://localhost:9881".to_owned(),
            model: "base.en".to_owned(),
        }
    }
}

/// Settings for the cloud synthesis backend.
#[derive(Debug)]
pub struct ElevenLabsConfig {
    pub api_key: String,
    pub voice_id: String,
    pub model_id: String,
    pub enabled: bool,
}

impl Default for ElevenLabsConfig {
    fn default() -> (r: Self)
        ensures
            r.api_key@ == ""@,
            r.voice_id@ == "21m00Tcm4TlvDq8ikWAM"@,
            r.model_id@ == "eleven_monolingual_v1"@,
            r.enabled == false,
    {
        ElevenLabsConfig {
            api_key: "".to_owned(),
            voice_id: "21m00Tcm4TlvDq8ikWAM".to_owned(),
            model_id: "eleven_monolingual_v1".to_owned(),
            enabled: false,
        }
    }
}

/// One selectable synthesis voice.
#[derive(Debug)]
pub struct Voice {
    pub id: String,
    pub name: String,
}

/// Settings for the local synthesis server.
#[derive(Debug)]
pub struct GPTSoVITSConfig {
    pub server_url: String,
    pub reference_audio: String,
    pub reference_text: String,
    pub language: String,
    pub enabled: bool,
}

impl Default for GPTSoVITSConfig {
    fn default() -> (r: Self)
        ensures
            r.server_url@ == "http://localhost:9880"@,
            r.reference_audio@ == "reference_audio/default.wav"@,
            r.reference_text@ == "Hello, this is a reference audio sample."@,
            r.language@ == "en"@,
            r.enabled == false,
    {
        GPTSoVITSConfig {
            server_url: "http://localhost:9880".to_owned(),
            reference_audio: "reference_audio/default.wav".to_owned(),
            reference_text: "Hello, this is a reference audio sample.".to_owned(),
            language: "en".to_owned(),
            enabled: false,
        }
    }
}

/// Where the audio pipeline currently stands.
#[derive(Clone, Copy, PartialEq, Eq, Structural, Debug)]
pub enum AudioState {
    Idle,
    ListeningForWakeWord,
    Recording,
    Processing,
}

/// Audio capture parameters.
#[derive(Clone, Copy, PartialEq, Eq, Structural, Debug)]
pub struct AudioConfig {
    pub sample_rate: u32,
    pub channels: u16,
    pub buffer_size: usize,
}

impl Default for AudioConfig {
    /// Mono capture at the sampling rate speech recognition expects.
    fn default() -> (r: Self)
        ensures
            r.sample_rate == 16000,
            r.channels == 1,
            r.buffer_size == 512,
    {
        AudioConfig { sample_rate: 16000, channels: 1, buffer_size: 512 }
    }
}

} // verus!
