//! Execution of one automation routine as a session.
//!
//! The engine decides; the surrounding application performs. A session
//! is opened with [`AutomationManager::begin_execution`], which refuses
//! unknown and disabled routines before anything runs. The application
//! then walks the action list in declared order — never reordered,
//! because later actions may depend on earlier state — performing each
//! pending action and recording its outcome. A failure does not abort
//! the run: it is recorded and the session moves to the next action.
//! [`ExecutionSession::finish`] stamps the routine's `last_run`
//! unconditionally and returns the report, whose `success` holds exactly
//! when no action failed.

use vstd::prelude::*;
use vstd::string::*;

use crate::automation::AutomationAction;
use crate::automation::AutomationManager;
use crate::automation::AutomationResult;
use crate::automation::contains_id;

verus! {

/// Why a routine could not be started: it is not registered, or it is
/// registered but switched off.
#[derive(Clone, Copy, PartialEq, Eq, Structural, Debug)]
pub enum AutomationError {
    NotFound,
    Disabled,
}

pub open spec fn automation_error_text(e: AutomationError) -> Seq<char> {
    match e {
        AutomationError::NotFound => "Routine not found"@,
        AutomationError::Disabled => "Routine is disabled"@,
    }
}

impl AutomationError {
    /// A short user-facing description.
    pub fn message(&self) -> (r: String)
        ensures
            r@ == automation_error_text(*self),
    {
        match self {
            AutomationError::NotFound => "Routine not found".to_owned(),
            AutomationError::Disabled => "Routine is disabled".to_owned(),
        }
    }
}

/// One run of one routine: the actions still to perform and the
/// accounting so far.
pub struct ExecutionSession {
    routine_id: String,
    actions: Vec<AutomationAction>,
    next_index: usize,
    succeeded: usize,
    errors: Vec<String>,
}

impl ExecutionSession {
    /// The id of the routine being run.
    pub closed spec fn routine(&self) -> Seq<char> {
        self.routine_id@
    }

    /// The routine's action list, in declared order.
    pub closed spec fn action_list(&self) -> Seq<AutomationAction> {
        self.actions@
    }

    /// How many actions have been given an outcome.
    pub closed spec fn position(&self) -> int {
        self.next_index as int
    }

    /// How many actions succeeded.
    pub closed spec fn succeeded_count(&self) -> int {
        self.succeeded as int
    }

    /// The recorded failure descriptions, in action order.
    pub closed spec fn failures(&self) -> Seq<String> {
        self.errors@
    }

    /// Accounting invariant: every action up to the current position has
    /// exactly one outcome, a success or a recorded failure.
    pub open spec fn wf(&self) -> bool {
        &&& self.position() <= self.action_list().len()
        &&& self.succeeded_count() + self.failures().len() == self.position()
        &&& 0 <= self.succeeded_count()
    }

    /// All actions have an outcome; the session can be finished.
    pub open spec fn done(&self) -> bool {
        self.position() == self.action_list().len()
    }

    /// The next action to perform, in declared order.
    pub fn pending_action(&self) -> (r: Option<&AutomationAction>)
        ensures
            r is Some <==> self.position() < self.action_list().len(),
            r is Some ==> *r->Some_0 == self.action_list()[self.position()],
    {
        if self.next_index < self.actions.len() {
            Some(&self.actions[self.next_index])
        } else {
            None
        }
    }

    /// Records that the pending action completed.
    pub fn record_success(&mut self)
        requires
            old(self).wf(),
            old(self).position() < old(self).action_list().len(),
        ensures
            final(self).wf(),
            final(self).routine() == old(self).routine(),
            final(self).action_list() == old(self).action_list(),
            final(self).position() == old(self).position() + 1,
            final(self).succeeded_count() == old(self).succeeded_count() + 1,
            final(self).failures() == old(self).failures(),
    {
        proof {
            assert(self.actions@.len() == self.actions.len());
        }
        self.next_index = self.next_index + 1;
        self.succeeded = self.succeeded + 1;
    }

    /// Records that the pending action failed, and moves on: a failure
    /// never aborts the remainder of the routine.
    pub fn record_failure(&mut self, error: String)
        requires
            old(self).wf(),
            old(self).position() < old(self).action_list().len(),
        ensures
            final(self).wf(),
            final(self).routine() == old(self).routine(),
            final(self).action_list() == old(self).action_list(),
            final(self).position() == old(self).position() + 1,
            final(self).succeeded_count() == old(self).succeeded_count(),
            final(self).failures() == old(self).failures().push(error),
    {
        proof {
            assert(self.actions@.len() == self.actions.len());
        }
        self.next_index = self.next_index + 1;
        self.errors.push(error);
    }

    /// Closes the session: stamps the routine's `last_run` with the
    /// current time — even when every action failed — and returns the
    /// report. `success` holds exactly when no failure was recorded, and
    /// `actions_executed` counts the successes alone.
    pub fn finish(self, mgr: &mut AutomationManager, duration_ms: u64) -> (r: AutomationResult)
        requires
            old(mgr).wf(),
            self.wf(),
            self.done(),
        ensures
            final(mgr).wf(),
            r.routine_id@ == self.routine(),
            r.success <==> self.failures().len() == 0,
            r.actions_executed == self.succeeded_count(),
            r.errors@ == self.failures(),
            r.duration_ms == duration_ms,
            contains_id(old(mgr).routines_seq(), self.routine()) ==> ({
                let i = crate::automation::index_of_id(old(mgr).routines_seq(), self.routine());
                let stamped = final(mgr).routines_seq()[i];
                &&& stamped.last_run is Some
                &&& stamped.last_run->Some_0@.len() > 0
                &&& final(mgr).routines_seq() == old(mgr).routines_seq().update(
                    i,
                    crate::automation::AutomationRoutine {
                        last_run: stamped.last_run,
                        ..old(mgr).routines_seq()[i]
                    },
                )
            }),
            !contains_id(old(mgr).routines_seq(), self.routine()) ==> final(mgr).routines_seq()
                == old(mgr).routines_seq(),
            final(mgr).scheduler_running() == old(mgr).scheduler_running(),
    {
        let ExecutionSession { routine_id, actions: _, next_index: _, succeeded, errors } = self;
        mgr.mark_last_run(routine_id.as_str());
        let success = errors.len() == 0;
        AutomationResult {
            routine_id,
            success,
            actions_executed: succeeded,
            errors,
            duration_ms,
        }
    }
}

impl AutomationManager {
    /// Opens an execution session for the routine with this id. An
    /// unknown id is refused, and a disabled routine is refused before
    /// any action runs and without touching `last_run` (nothing here
    /// mutates the registry at all).
    pub fn begin_execution(&self, id: &str) -> (r: Result<ExecutionSession, AutomationError>)
        requires
            self.wf(),
        ensures
            r is Ok <==> contains_id(self.routines_seq(), id@) && self.spec_get(id@).enabled,
            !contains_id(self.routines_seq(), id@) ==> r is Err && r->Err_0 is NotFound,
            contains_id(self.routines_seq(), id@) && !self.spec_get(id@).enabled ==> r is Err
                && r->Err_0 is Disabled,
            r is Ok ==> ({
                let s = r->Ok_0;
                &&& s.wf()
                &&& s.routine() == id@
                &&& s.action_list() == self.spec_get(id@).actions@
                &&& s.position() == 0
                &&& s.succeeded_count() == 0
                &&& s.failures().len() == 0
            }),
    {
        match self.get_routine(id) {
            None => Err(AutomationError::NotFound),
            Some(routine) => {
                if !routine.enabled {
                    Err(AutomationError::Disabled)
                } else {
                    let actions = routine.actions.clone();
                    proof {
                        assert(actions@ =~= self.spec_get(id@).actions@);
                    }
                    Ok(
                        ExecutionSession {
                            routine_id: routine.id.clone(),
                            actions,
                            next_index: 0,
                            succeeded: 0,
                            errors: Vec::new(),
                        },
                    )
                }
            },
        }
    }
}

} // verus!
