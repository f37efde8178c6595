//! Routing of one raw command: the registered voice triggers are
//! checked first, in the registry's stable order, and the assistant is
//! only asked when no enabled routine matches. Matching is literal
//! substring matching on the lowercased command.
//!
//! The router's replies degrade instead of failing: a routine that could
//! not start and an unreachable assistant both turn into user-facing
//! text built here.

use vstd::prelude::*;
use vstd::string::*;

use crate::automation::AutomationManager;
use crate::automation::AutomationRoutine;
use crate::automation::AutomationTrigger;
use crate::text::chars_of;
use crate::text::contains_chars;
use crate::text::contains_seq;
use crate::text::fold_case;
use crate::text::lower_of;

verus! {

/// Where one command goes: to a named automation routine, or on to the
/// language-model dispatcher.
#[derive(Debug)]
pub enum RouteDecision {
    RunRoutine { id: String },
    AskAssistant,
}

/// An enabled routine with a voice trigger whose phrase occurs, after
/// case folding, inside the folded command.
pub open spec fn routine_triggers(r: AutomationRoutine, folded_command: Seq<char>) -> bool {
    &&& r.enabled
    &&& r.trigger is VoiceCommand
    &&& contains_seq(folded_command, lower_of(r.trigger->VoiceCommand_phrase@))
}

/// Classifies one raw command. The first enabled routine whose trigger
/// phrase occurs in the lowercased command wins — routines are checked
/// before the assistant, even for phrases that would also read as a
/// general query — and only a command matching no trigger is handed on.
pub fn route_command(mgr: &AutomationManager, command: &str) -> (r: RouteDecision)
    ensures
        ({
            let folded = lower_of(command@);
            let s = mgr.routines_seq();
            match r {
                RouteDecision::RunRoutine { id } => exists|i: int|
                    0 <= i < s.len() && #[trigger] routine_triggers(s[i], folded) && id@ == s[i].id@
                        && (forall|k: int| 0 <= k < i ==> !routine_triggers(#[trigger] s[k], folded)),
                RouteDecision::AskAssistant => forall|i: int|
                    0 <= i < s.len() ==> !routine_triggers(#[trigger] s[i], folded),
            }
        }),
{
    let folded = fold_case(command);
    let fc = chars_of(folded.as_str());
    let n = mgr.routine_count();
    let mut i: usize = 0;
    while i < n
        invariant
            n == mgr.routines_seq().len(),
            i <= n,
            fc@ == lower_of(command@),
            forall|k: int|
                0 <= k < i ==> !routine_triggers(
                    #[trigger] mgr.routines_seq()[k],
                    lower_of(command@),
                ),
        decreases n - i,
    {
        let routine = mgr.routine_at(i);
        if routine.enabled {
            match &routine.trigger {
                AutomationTrigger::VoiceCommand { phrase } => {
                    let fp = fold_case(phrase.as_str());
                    let pc = chars_of(fp.as_str());
                    if contains_chars(&fc, &pc) {
                        proof {
                            assert(routine_triggers(
                                mgr.routines_seq()[i as int],
                                lower_of(command@),
                            ));
                        }
                        return RouteDecision::RunRoutine { id: routine.id.clone() };
                    }
                },
                _ => {
                },
            }
        }
        i = i + 1;
    }
    RouteDecision::AskAssistant
}

pub open spec fn activation_text(name: Seq<char>) -> Seq<char> {
    name + " activated!"@
}

/// The status line for a routine that ran.
pub fn activation_message(name: &str) -> (r: String)
    ensures
        r@ == activation_text(name@),
{
    name.to_owned().concat(" activated!")
}

pub open spec fn failure_text(name: Seq<char>, reason: Seq<char>) -> Seq<char> {
    "Failed to start "@ + name + ": "@ + reason
}

/// The user-visible message for a routine that could not start; the
/// failure is reported, not escalated.
pub fn failure_message(name: &str, reason: &str) -> (r: String)
    ensures
        r@ == failure_text(name@, reason@),
{
    "Failed to start ".to_owned().concat(name).concat(": ").concat(reason)
}

pub open spec fn fallback_text(command: Seq<char>) -> Seq<char> {
    "I heard: "@ + command + ". LLM is not available right now."@
}

/// The apologetic fallback when dispatch fails: the router's reply
/// embeds the original command instead of propagating the error.
pub fn fallback_message(command: &str) -> (r: String)
    ensures
        r@ == fallback_text(command@),
{
    "I heard: ".to_owned().concat(command).concat(". LLM is not available right now.")
}

} // verus!
