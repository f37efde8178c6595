//! The dispatcher that owns the bounded conversation and the active
//! provider configuration.
//!
//! One exchange is two steps. `begin_send` records the user message and
//! builds the outbound request (the fixed system preamble plus the
//! conversation, oldest first); the surrounding application performs the
//! transport call and reports a [`ProviderOutcome`]; `finish_send`
//! records the assistant reply on success and classifies the failure
//! otherwise. The user message stays in the conversation even when the
//! call fails, so the history reflects what was asked; this is a
//! deliberate, documented policy.

use vstd::prelude::*;
use vstd::string::*;

use crate::messages::LLMResponse;
use crate::messages::Message;
use crate::provider::LLMConfig;
use crate::provider::ProviderError;
use crate::provider::ProviderOutcome;
use crate::provider::ProviderRequest;
use crate::provider::build_request;
use crate::provider::interpret_outcome;
use crate::provider::missing_credentials;
use crate::provider::outcome_interpretation;
use crate::provider::request_matches_config;

verus! {

/// The conversation keeps at most this many messages; the oldest are
/// dropped first.
pub const HISTORY_LIMIT: usize = 10;

/// The fixed system preamble injected in front of every outbound message
/// sequence; it is never stored in the conversation itself.
pub open spec fn system_preamble() -> Seq<char> {
    "You are a helpful desktop voice assistant. Keep replies short, friendly and conversational."@
}

/// `h` with `m` appended and the oldest entries dropped so that at most
/// `HISTORY_LIMIT` remain.
pub open spec fn bounded_push(h: Seq<Message>, m: Message) -> Seq<Message> {
    let t = h.push(m);
    if t.len() > HISTORY_LIMIT {
        t.subrange(t.len() - HISTORY_LIMIT, t.len() as int)
    } else {
        t
    }
}

/// Bounded-context law: however long the conversation already is, one
/// more recorded message never leaves it above `HISTORY_LIMIT` entries.
pub proof fn lemma_history_stays_bounded(h: Seq<Message>, m: Message)
    ensures
        bounded_push(h, m).len() <= HISTORY_LIMIT,
{
}

/// The fixed system preamble as a message.
fn preamble_message() -> (m: Message)
    ensures
        m.role@ == "system"@,
        m.content@ == system_preamble(),
{
    Message {
        role: "system".to_owned(),
        content:
            "You are a helpful desktop voice assistant. Keep replies short, friendly and conversational.".to_owned(),
    }
}

/// Owns the conversation and the active provider configuration; hides
/// the differences between the provider backends.
pub struct LLMManager {
    config: LLMConfig,
    conversation_history: Vec<Message>,
}

impl LLMManager {
    /// The active configuration, as a mathematical value.
    pub closed spec fn spec_config(&self) -> LLMConfig {
        self.config
    }

    /// The conversation, oldest message first.
    pub closed spec fn history(&self) -> Seq<Message> {
        self.conversation_history@
    }

    /// `self` with the configuration replaced and the conversation kept.
    pub closed spec fn with_config(self, cfg: LLMConfig) -> LLMManager {
        LLMManager { config: cfg, ..self }
    }

    /// The conversation is bounded and the configuration is in range.
    pub open spec fn wf(&self) -> bool {
        self.history().len() <= HISTORY_LIMIT && self.spec_config().valid()
    }

    pub fn new(config: LLMConfig) -> (r: Self)
        requires
            config.valid(),
        ensures
            r.wf(),
            r.spec_config() == config,
            r.history() == Seq::<Message>::empty(),
    {
        LLMManager { config, conversation_history: Vec::new() }
    }

    /// Replaces the active configuration wholesale; the conversation is
    /// untouched.
    pub fn update_config(&mut self, config: LLMConfig)
        requires
            old(self).wf(),
            config.valid(),
        ensures
            final(self).wf(),
            *final(self) == old(self).with_config(config),
            final(self).spec_config() == config,
            final(self).history() == old(self).history(),
    {
        self.config = config;
    }

    /// The active configuration.
    pub fn get_config(&self) -> (r: &LLMConfig)
        ensures
            *r == self.spec_config(),
    {
        &self.config
    }

    /// Round-trip law: after replacing the configuration, reading it
    /// back yields exactly the replacement, and the conversation is the
    /// one from before.
    pub proof fn lemma_config_round_trip(m: LLMManager, cfg: LLMConfig)
        ensures
            m.with_config(cfg).spec_config() == cfg,
            m.with_config(cfg).history() == m.history(),
    {
    }

    /// Empties the conversation unconditionally.
    pub fn clear_history(&mut self)
        requires
            old(self).wf(),
        ensures
            final(self).wf(),
            final(self).history() == Seq::<Message>::empty(),
            final(self).spec_config() == old(self).spec_config(),
    {
        self.conversation_history.clear();
    }

    /// The conversation, oldest message first.
    pub fn get_history(&self) -> (r: &Vec<Message>)
        ensures
            r@ == self.history(),
    {
        &self.conversation_history
    }

    /// Appends `m` and drops the oldest entry when the bound is passed.
    fn push_trimmed(&mut self, m: Message)
        requires
            old(self).history().len() <= HISTORY_LIMIT,
        ensures
            final(self).history() == bounded_push(old(self).history(), m),
            final(self).history().len() <= HISTORY_LIMIT,
            final(self).spec_config() == old(self).spec_config(),
    {
        self.conversation_history.push(m);
        if self.conversation_history.len() > HISTORY_LIMIT {
            self.conversation_history.remove(0);
            proof {
                assert(self.conversation_history@ =~= bounded_push(old(self).history(), m));
            }
        }
    }

    /// The outbound sequence: the system preamble, then the conversation.
    fn get_messages_with_system_prompt(&self) -> (r: Vec<Message>)
        ensures
            r@.len() == self.history().len() + 1,
            r@[0].role@ == "system"@,
            r@[0].content@ == system_preamble(),
            r@.skip(1) == self.history(),
    {
        let mut msgs: Vec<Message> = Vec::new();
        msgs.push(preamble_message());
        let mut i: usize = 0;
        while i < self.conversation_history.len()
            invariant
                i <= self.conversation_history@.len(),
                msgs@.len() == i + 1,
                msgs@[0].role@ == "system"@,
                msgs@[0].content@ == system_preamble(),
                msgs@.skip(1) == self.conversation_history@.subrange(0, i as int),
            decreases self.conversation_history@.len() - i,
        {
            msgs.push(self.conversation_history[i].clone());
            proof {
                assert(msgs@.skip(1) =~= self.conversation_history@.subrange(0, i + 1 as int));
            }
            i = i + 1;
        }
        proof {
            assert(self.conversation_history@.subrange(
                0,
                self.conversation_history@.len() as int,
            ) =~= self.conversation_history@);
        }
        msgs
    }

    /// First half of one exchange: records the user message (trimming the
    /// conversation if needed) and builds the outbound request, or
    /// reports the configuration gap. The user message is recorded in
    /// either case.
    pub fn begin_send(&mut self, user_message: &str) -> (r: Result<ProviderRequest, ProviderError>)
        requires
            old(self).wf(),
        ensures
            final(self).wf(),
            final(self).spec_config() == old(self).spec_config(),
            exists|m: Message|
                final(self).history() == #[trigger] bounded_push(old(self).history(), m)
                    && m.role@ == "user"@ && m.content@ == user_message@,
            final(self).history().len() > 0,
            final(self).history().last().role@ == "user"@,
            final(self).history().last().content@ == user_message@,
            r is Err <==> missing_credentials(old(self).spec_config()),
            r is Err ==> r->Err_0 is Configuration,
            r is Ok ==> request_matches_config(r->Ok_0, old(self).spec_config()),
            r is Ok ==> ({
                let sent = r->Ok_0.messages;
                &&& sent@.len() == final(self).history().len() + 1
                &&& sent@[0].role@ == "system"@
                &&& sent@[0].content@ == system_preamble()
                &&& sent@.skip(1) == final(self).history()
            }),
    {
        let user = Message { role: "user".to_owned(), content: user_message.to_owned() };
        self.push_trimmed(user);
        let outbound = self.get_messages_with_system_prompt();
        build_request(&self.config, outbound)
    }

    /// Second half of one exchange: classifies what the transport brought
    /// back. A reply is recorded in the conversation (trimming to the
    /// bound); on any failure the conversation is left as `begin_send`
    /// put it, the pending user message included.
    pub fn finish_send(&mut self, outcome: ProviderOutcome) -> (r: Result<
        LLMResponse,
        ProviderError,
    >)
        requires
            old(self).wf(),
        ensures
            final(self).wf(),
            final(self).spec_config() == old(self).spec_config(),
            outcome_interpretation(
                old(self).spec_config().provider,
                old(self).spec_config().model@,
                outcome,
                r,
            ),
            r is Err ==> final(self).history() == old(self).history(),
            r is Ok ==> exists|m: Message|
                final(self).history() == #[trigger] bounded_push(old(self).history(), m)
                    && m.role@ == "assistant"@ && m.content == r->Ok_0.content,
            r is Ok ==> final(self).history().len() > 0 && final(self).history().last().role@
                == "assistant"@ && final(self).history().last().content == r->Ok_0.content,
    {
        let r = interpret_outcome(self.config.provider, self.config.model.as_str(), outcome);
        match r {
            Ok(response) => {
                let assistant = Message {
                    role: "assistant".to_owned(),
                    content: response.content.clone(),
                };
                self.push_trimmed(assistant);
                Ok(response)
            },
            Err(e) => Err(e),
        }
    }
}

} // verus!
