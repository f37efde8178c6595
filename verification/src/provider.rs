//! The chat-completion provider abstraction: one configuration type and
//! one request builder shared by the three backends (two cloud services
//! keyed by an API credential, one local server keyed by a URL), plus the
//! interpretation of whatever the transport layer brought back.
//!
//! Nothing here touches the network. The surrounding application sends a
//! [`ProviderRequest`] over HTTP and reports the result as a
//! [`ProviderOutcome`]; [`interpret_outcome`] turns that into either a
//! reply or a classified [`ProviderError`].

use vstd::prelude::*;
use vstd::string::*;

use crate::messages::LLMResponse;
use crate::messages::Message;

verus! {

/// Fixed request timeout applied by every provider variant, in seconds.
pub const REQUEST_TIMEOUT_SECS: u64 = 30;

/// The supported chat-completion backends.
#[derive(Clone, Copy, PartialEq, Eq, Structural, Debug)]
pub enum LLMProvider {
    OpenAI,
    Claude,
    Ollama,
}

/// Provider selection plus everything a request needs. The temperature is
/// kept in hundredths (70 stands for 0.7) so that its range check is
/// exact; valid values lie in 0 ..= 200.
#[derive(Debug)]
pub struct LLMConfig {
    pub provider: LLMProvider,
    pub api_key: Option<String>,
    pub model: String,
    pub temperature_centi: u32,
    pub max_tokens: u32,
    pub ollama_url: Option<String>,
}

impl LLMConfig {
    /// The documented value ranges: temperature in [0, 2] (held in
    /// hundredths) and a positive output-token bound.
    pub open spec fn valid(&self) -> bool {
        self.temperature_centi <= 200 && self.max_tokens >= 1
    }
}

impl Clone for LLMConfig {
    fn clone(&self) -> (r: Self)
        ensures
            r == *self,
    {
        LLMConfig {
            provider: self.provider,
            api_key: (match &self.api_key {
                Some(k) => Some(k.clone()),
                None => None,
            }),
            model: self.model.clone(),
            temperature_centi: self.temperature_centi,
            max_tokens: self.max_tokens,
            ollama_url: (match &self.ollama_url {
                Some(u) => Some(u.clone()),
                None => None,
            }),
        }
    }
}

impl Default for LLMConfig {
    /// The out-of-the-box configuration: the local server backend.
    fn default() -> (r: Self)
        ensures
            r.provider is Ollama,
            r.api_key is None,
            r.model@ == "mistral:latest"@,
            r.temperature_centi == 70,
            r.max_tokens == 500,
            r.ollama_url is Some && r.ollama_url->Some_0@ == "http://localhost:11434"@,
            r.valid(),
    {
        LLMConfig {
            provider: LLMProvider::Ollama,
            api_key: None,
            model: "mistral:latest".to_owned(),
            temperature_centi: 70,
            max_tokens: 500,
            ollama_url: Some("http://localhost:11434".to_owned()),
        }
    }
}

/// Why a provider round-trip failed, following the error taxonomy:
/// a configuration gap is surfaced before any network attempt, a
/// transient fault may be retried by the caller, and a protocol fault
/// carries the raw diagnostic text.
#[derive(Debug)]
pub enum ProviderError {
    Configuration { detail: String },
    Transient { detail: String },
    Protocol { detail: String },
}

/// Everything the transport layer needs for one completion call.
#[derive(Debug)]
pub struct ProviderRequest {
    pub provider: LLMProvider,
    pub url: String,
    pub api_key: Option<String>,
    pub model: String,
    pub messages: Vec<Message>,
    pub temperature_centi: u32,
    pub max_tokens: u32,
    pub stream: bool,
    pub timeout_secs: u64,
}

/// The cloud backends require a credential, the local backend a URL.
pub open spec fn missing_credentials(c: LLMConfig) -> bool {
    match c.provider {
        LLMProvider::OpenAI => c.api_key is None,
        LLMProvider::Claude => c.api_key is None,
        LLMProvider::Ollama => c.ollama_url is None,
    }
}

pub open spec fn openai_endpoint() -> Seq<char> {
    "https://api.openai.com/v1/chat/completions"@
}

pub open spec fn claude_endpoint() -> Seq<char> {
    "https://api.anthropic.com/v1/messages"@
}

/// What a well-built request looks like for a given configuration: the
/// configured sampling settings carried through unchanged, the fixed
/// timeout, the backend's endpoint, and a credential exactly where the
/// backend needs one.
pub open spec fn request_matches_config(q: ProviderRequest, c: LLMConfig) -> bool {
    &&& q.provider == c.provider
    &&& q.model == c.model
    &&& q.temperature_centi == c.temperature_centi
    &&& q.max_tokens == c.max_tokens
    &&& q.stream == false
    &&& q.timeout_secs == REQUEST_TIMEOUT_SECS
    &&& (c.provider is OpenAI ==> q.url@ == openai_endpoint() && q.api_key == c.api_key)
    &&& (c.provider is Claude ==> q.url@ == claude_endpoint() && q.api_key == c.api_key)
    &&& (c.provider is Ollama ==> q.url@ == c.ollama_url->Some_0@ + "/api/chat"@ && q.api_key
        is None)
}

/// Whether `config` carries what its selected backend requires.
pub fn has_required_credentials(config: &LLMConfig) -> (r: bool)
    ensures
        r == !missing_credentials(*config),
{
    match config.provider {
        LLMProvider::OpenAI => config.api_key.is_some(),
        LLMProvider::Claude => config.api_key.is_some(),
        LLMProvider::Ollama => config.ollama_url.is_some(),
    }
}

/// What a provider reported about one exchange, when it reported anything.
#[derive(Clone, Copy, PartialEq, Eq, Structural, Debug)]
pub enum TokenUsage {
    Unreported,
    Total { tokens: u32 },
    Split { input_tokens: u32, output_tokens: u32 },
}

/// What came back from one transport attempt, reduced to plain values:
/// a transport fault, a non-success HTTP exchange, a body that did not
/// parse, or the parsed reply texts with their token accounting.
#[derive(Debug)]
pub enum ProviderOutcome {
    TimedOut,
    ConnectionFailed { detail: String },
    HttpFailure { status: u16, body: String },
    MalformedReply { detail: String },
    Reply { contents: Vec<String>, usage: TokenUsage },
}

/// The token count surfaced to the caller: a split report is summed,
/// saturating at the counter's width.
pub open spec fn tokens_of(u: TokenUsage) -> Option<u32> {
    match u {
        TokenUsage::Unreported => None,
        TokenUsage::Total { tokens } => Some(tokens),
        TokenUsage::Split { input_tokens, output_tokens } => Some(
            if input_tokens + output_tokens > u32::MAX {
                u32::MAX
            } else {
                (input_tokens + output_tokens) as u32
            },
        ),
    }
}

pub open spec fn provider_label(p: LLMProvider) -> Seq<char> {
    match p {
        LLMProvider::OpenAI => "OpenAI"@,
        LLMProvider::Claude => "Anthropic"@,
        LLMProvider::Ollama => "Ollama"@,
    }
}

pub open spec fn timeout_detail() -> Seq<char> {
    "request timed out after 30 seconds"@
}

pub open spec fn connect_error_detail(p: LLMProvider, detail: Seq<char>) -> Seq<char> {
    "Failed to call "@ + provider_label(p) + " API: "@ + detail
}

pub open spec fn http_error_detail(p: LLMProvider, body: Seq<char>) -> Seq<char> {
    provider_label(p) + " API error: "@ + body + (if p is Ollama {
        " - Make sure Ollama is running with 'ollama serve'"@
    } else {
        Seq::<char>::empty()
    })
}

pub open spec fn parse_error_detail(p: LLMProvider, detail: Seq<char>) -> Seq<char> {
    "Failed to parse "@ + provider_label(p) + " response: "@ + detail
}

pub open spec fn no_response_detail(p: LLMProvider) -> Seq<char> {
    "No response from "@ + provider_label(p)
}

/// The backend's display name.
fn provider_label_str(p: LLMProvider) -> (r: &'static str)
    ensures
        r@ == provider_label(p),
{
    match p {
        LLMProvider::OpenAI => "OpenAI",
        LLMProvider::Claude => "Anthropic",
        LLMProvider::Ollama => "Ollama",
    }
}

/// How one transport outcome must be read: which outcomes are transient,
/// which are protocol faults, what diagnostic text each carries, and what
/// reply a non-empty content list produces.
pub open spec fn outcome_interpretation(
    p: LLMProvider,
    model: Seq<char>,
    outcome: ProviderOutcome,
    r: Result<LLMResponse, ProviderError>,
) -> bool {
    &&& (outcome is TimedOut ==> r is Err && r->Err_0 is Transient
        && r->Err_0->Transient_detail@ == timeout_detail())
    &&& (outcome is ConnectionFailed ==> r is Err && r->Err_0 is Transient
        && r->Err_0->Transient_detail@ == connect_error_detail(
        p,
        outcome->ConnectionFailed_detail@,
    ))
    &&& (outcome is HttpFailure ==> r is Err && r->Err_0 is Protocol
        && r->Err_0->Protocol_detail@ == http_error_detail(p, outcome->HttpFailure_body@))
    &&& (outcome is MalformedReply ==> r is Err && r->Err_0 is Protocol
        && r->Err_0->Protocol_detail@ == parse_error_detail(p, outcome->MalformedReply_detail@))
    &&& (outcome is Reply && outcome->Reply_contents@.len() == 0 ==> r is Err && r->Err_0
        is Protocol && r->Err_0->Protocol_detail@ == no_response_detail(p))
    &&& (outcome is Reply && outcome->Reply_contents@.len() > 0 ==> r is Ok && ({
        let a = r->Ok_0;
        &&& a.content == outcome->Reply_contents@[0]
        &&& a.model@ == model
        &&& a.tokens_used == tokens_of(outcome->Reply_usage)
    }))
}

/// Classifies one transport outcome: a timeout or connection fault is
/// transient, a non-success status or unparseable body is a protocol
/// fault carrying the raw diagnostic, an empty reply list is a protocol
/// fault with a "no response" reason, and the first reply text otherwise
/// becomes the response together with the summed token count.
pub fn interpret_outcome(provider: LLMProvider, model: &str, outcome: ProviderOutcome) -> (r:
    Result<LLMResponse, ProviderError>)
    ensures
        outcome_interpretation(provider, model@, outcome, r),
{
    match outcome {
        ProviderOutcome::TimedOut => Err(
            ProviderError::Transient { detail: "request timed out after 30 seconds".to_owned() },
        ),
        ProviderOutcome::ConnectionFailed { detail } => Err(
            ProviderError::Transient {
                detail: "Failed to call ".to_owned().concat(provider_label_str(provider)).concat(
                    " API: ",
                ).concat(detail.as_str()),
            },
        ),
        ProviderOutcome::HttpFailure { status: _, body } => {
            let d = provider_label_str(provider).to_owned().concat(" API error: ").concat(
                body.as_str(),
            );
            let d = (match provider {
                LLMProvider::Ollama => d.concat(
                    " - Make sure Ollama is running with 'ollama serve'",
                ),
                _ => d,
            });
            proof {
                assert(d@ =~= http_error_detail(provider, body@));
            }
            Err(ProviderError::Protocol { detail: d })
        },
        ProviderOutcome::MalformedReply { detail } => Err(
            ProviderError::Protocol {
                detail: "Failed to parse ".to_owned().concat(provider_label_str(provider)).concat(
                    " response: ",
                ).concat(detail.as_str()),
            },
        ),
        ProviderOutcome::Reply { contents, usage } => {
            if contents.len() == 0 {
                Err(
                    ProviderError::Protocol {
                        detail: "No response from ".to_owned().concat(
                            provider_label_str(provider),
                        ),
                    },
                )
            } else {
                let mut contents = contents;
                let content = contents.remove(0);
                let tokens_used = (match usage {
                    TokenUsage::Unreported => None,
                    TokenUsage::Total { tokens } => Some(tokens),
                    TokenUsage::Split { input_tokens, output_tokens } => {
                        if input_tokens > u32::MAX - output_tokens {
                            Some(u32::MAX)
                        } else {
                            Some(input_tokens + output_tokens)
                        }
                    },
                });
                Ok(LLMResponse { content, model: model.to_owned(), tokens_used })
            }
        },
    }
}

/// Builds the outbound request for the configured backend, or reports the
/// missing credential. A configuration gap is decided here, before any
/// network activity can take place.
pub fn build_request(config: &LLMConfig, messages: Vec<Message>) -> (r: Result<
    ProviderRequest,
    ProviderError,
>)
    ensures
        r is Err <==> missing_credentials(*config),
        r is Err ==> r->Err_0 is Configuration,
        r is Ok ==> request_matches_config(r->Ok_0, *config) && r->Ok_0.messages == messages,
{
    match config.provider {
        LLMProvider::OpenAI => {
            match &config.api_key {
                None => Err(
                    ProviderError::Configuration {
                        detail: "OpenAI API key not configured".to_owned(),
                    },
                ),
                Some(key) => Ok(
                    ProviderRequest {
                        provider: LLMProvider::OpenAI,
                        url: "https://api.openai.com/v1/chat/completions".to_owned(),
                        api_key: Some(key.clone()),
                        model: config.model.clone(),
                        messages,
                        temperature_centi: config.temperature_centi,
                        max_tokens: config.max_tokens,
                        stream: false,
                        timeout_secs: REQUEST_TIMEOUT_SECS,
                    },
                ),
            }
        },
        LLMProvider::Claude => {
            match &config.api_key {
                None => Err(
                    ProviderError::Configuration {
                        detail: "Anthropic API key not configured".to_owned(),
                    },
                ),
                Some(key) => Ok(
                    ProviderRequest {
                        provider: LLMProvider::Claude,
                        url: "https://api.anthropic.com/v1/messages".to_owned(),
                        api_key: Some(key.clone()),
                        model: config.model.clone(),
                        messages,
                        temperature_centi: config.temperature_centi,
                        max_tokens: config.max_tokens,
                        stream: false,
                        timeout_secs: REQUEST_TIMEOUT_SECS,
                    },
                ),
            }
        },
        LLMProvider::Ollama => {
            match &config.ollama_url {
                None => Err(
                    ProviderError::Configuration {
                        detail: "Ollama URL not configured".to_owned(),
                    },
                ),
                Some(base) => Ok(
                    ProviderRequest {
                        provider: LLMProvider::Ollama,
                        url: base.clone().concat("/api/chat"),
                        api_key: None,
                        model: config.model.clone(),
                        messages,
                        temperature_centi: config.temperature_centi,
                        max_tokens: config.max_tokens,
                        stream: false,
                        timeout_secs: REQUEST_TIMEOUT_SECS,
                    },
                ),
            }
        },
    }
}

} // verus!
