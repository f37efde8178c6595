//! Automation routines: a closed set of action kinds, a trigger per
//! routine, and an in-memory registry keyed by routine id.
//!
//! The registry is a sequence with pairwise-distinct ids, so iteration
//! order is insertion order and stays stable within one process run.

use vstd::prelude::*;
use vstd::string::*;

use crate::clock::current_timestamp;
use crate::text::eq_str;

verus! {

/// One automation step. Every variant is a declarative record consumed
/// by an external collaborator; none calls back into the engine.
#[derive(Debug)]
pub enum AutomationAction {
    LaunchApp { app_name: String },
    OpenWebsite { url: String },
    SendNotification { title: String, message: String },
    SetVolume { level: u8 },
    MediaControl { action: String },
    SystemCommand { command: String },
    Wait { seconds: u64 },
    Speak { text: String },
}

impl Clone for AutomationAction {
    fn clone(&self) -> (r: Self)
        ensures
            r == *self,
    {
        match self {
            AutomationAction::LaunchApp { app_name } => AutomationAction::LaunchApp {
                app_name: app_name.clone(),
            },
            AutomationAction::OpenWebsite { url } => AutomationAction::OpenWebsite {
                url: url.clone(),
            },
            AutomationAction::SendNotification { title, message } => {
                AutomationAction::SendNotification {
                    title: title.clone(),
                    message: message.clone(),
                }
            },
            AutomationAction::SetVolume { level } => AutomationAction::SetVolume {
                level: *level,
            },
            AutomationAction::MediaControl { action } => AutomationAction::MediaControl {
                action: action.clone(),
            },
            AutomationAction::SystemCommand { command } => AutomationAction::SystemCommand {
                command: command.clone(),
            },
            AutomationAction::Wait { seconds } => AutomationAction::Wait { seconds: *seconds },
            AutomationAction::Speak { text } => AutomationAction::Speak { text: text.clone() },
        }
    }
}

/// What may start a routine. Only manual execution and voice-phrase
/// matching are acted on by this engine; the schedule and system-event
/// kinds are carried as data.
#[derive(Debug)]
pub enum AutomationTrigger {
    Manual,
    Schedule { time: String },
    VoiceCommand { phrase: String },
    SystemEvent { event_type: String },
}

impl Clone for AutomationTrigger {
    fn clone(&self) -> (r: Self)
        ensures
            r == *self,
    {
        match self {
            AutomationTrigger::Manual => AutomationTrigger::Manual,
            AutomationTrigger::Schedule { time } => AutomationTrigger::Schedule {
                time: time.clone(),
            },
            AutomationTrigger::VoiceCommand { phrase } => AutomationTrigger::VoiceCommand {
                phrase: phrase.clone(),
            },
            AutomationTrigger::SystemEvent { event_type } => AutomationTrigger::SystemEvent {
                event_type: event_type.clone(),
            },
        }
    }
}

/// A named, user-toggleable list of actions with a trigger condition.
/// Identity is the id.
#[derive(Debug)]
pub struct AutomationRoutine {
    pub id: String,
    pub name: String,
    pub description: String,
    pub enabled: bool,
    pub trigger: AutomationTrigger,
    pub actions: Vec<AutomationAction>,
    pub created_at: String,
    pub last_run: Option<String>,
}

/// Field-for-field agreement of two routines (the action lists compared
/// as sequences).
pub open spec fn same_routine(a: AutomationRoutine, b: AutomationRoutine) -> bool {
    &&& a.id == b.id
    &&& a.name == b.name
    &&& a.description == b.description
    &&& a.enabled == b.enabled
    &&& a.trigger == b.trigger
    &&& a.actions@ == b.actions@
    &&& a.created_at == b.created_at
    &&& a.last_run == b.last_run
}

impl Clone for AutomationRoutine {
    fn clone(&self) -> (r: Self)
        ensures
            same_routine(r, *self),
    {
        let r = AutomationRoutine {
            id: self.id.clone(),
            name: self.name.clone(),
            description: self.description.clone(),
            enabled: self.enabled,
            trigger: self.trigger.clone(),
            actions: self.actions.clone(),
            created_at: self.created_at.clone(),
            last_run: (match &self.last_run {
                Some(t) => Some(t.clone()),
                None => None,
            }),
        };
        proof {
            assert(r.actions@ =~= self.actions@);
        }
        r
    }
}

/// The report of one routine execution: `success` holds exactly when no
/// action failed, `actions_executed` counts the actions that succeeded,
/// and `errors` lists the failures in action order.
#[derive(Debug)]
pub struct AutomationResult {
    pub routine_id: String,
    pub success: bool,
    pub actions_executed: usize,
    pub errors: Vec<String>,
    pub duration_ms: u64,
}

/// Some routine in `s` has this id.
pub open spec fn contains_id(s: Seq<AutomationRoutine>, id: Seq<char>) -> bool {
    exists|i: int| 0 <= i < s.len() && (#[trigger] s[i]).id@ == id
}

/// The position of the routine with this id (meaningful when ids are
/// pairwise distinct and the id is present).
pub open spec fn index_of_id(s: Seq<AutomationRoutine>, id: Seq<char>) -> int {
    choose|i: int| 0 <= i < s.len() && (#[trigger] s[i]).id@ == id
}

/// Ids are pairwise distinct: the id space is flat and uniquely owned.
pub open spec fn unique_ids(s: Seq<AutomationRoutine>) -> bool {
    forall|i: int, j: int|
        0 <= i < j < s.len() ==> (#[trigger] s[i]).id@ != (#[trigger] s[j]).id@
}

/// A routine was looked up but is not registered.
#[derive(Clone, Copy, PartialEq, Eq, Structural, Debug)]
pub enum RegistryError {
    NotFound,
}

/// In-memory registry of automation routines, plus the scheduler flag.
pub struct AutomationManager {
    routines: Vec<AutomationRoutine>,
    is_running: bool,
}

/// The morning built-in: fixed fields, a fresh creation stamp, never run.
pub open spec fn is_morning_routine(r: AutomationRoutine) -> bool {
    &&& r.id@ == "morning-routine"@
    &&& r.name@ == "Morning Routine"@
    &&& r.description@ == "Start your day with news, calendar, and music"@
    &&& r.enabled == true
    &&& r.trigger is Schedule && r.trigger->Schedule_time@ == "08:00"@
    &&& r.actions@.len() == 6
    &&& r.actions@[0] is Speak && r.actions@[0]->Speak_text@
        == "Good morning! Starting your morning routine."@
    &&& r.actions@[1] is SetVolume && r.actions@[1]->SetVolume_level == 50
    &&& r.actions@[2] is LaunchApp && r.actions@[2]->LaunchApp_app_name@ == "Calendar"@
    &&& r.actions@[3] is Wait && r.actions@[3]->Wait_seconds == 2
    &&& r.actions@[4] is OpenWebsite && r.actions@[4]->OpenWebsite_url@
        == "https://news.google.com"@
    &&& r.actions@[5] is SendNotification && r.actions@[5]->SendNotification_title@
        == "Morning Routine"@ && r.actions@[5]->SendNotification_message@
        == "Your morning routine is complete!"@
    &&& r.created_at@.len() > 0
    &&& r.last_run is None
}

/// The work-mode built-in.
pub open spec fn is_work_mode_routine(r: AutomationRoutine) -> bool {
    &&& r.id@ == "work-mode"@
    &&& r.name@ == "Work Mode"@
    &&& r.description@ == "Focus mode with productivity apps"@
    &&& r.enabled == true
    &&& r.trigger is VoiceCommand && r.trigger->VoiceCommand_phrase@ == "start work mode"@
    &&& r.actions@.len() == 6
    &&& r.actions@[0] is Speak && r.actions@[0]->Speak_text@
        == "Activating work mode. Let's be productive!"@
    &&& r.actions@[1] is LaunchApp && r.actions@[1]->LaunchApp_app_name@ == "Code"@
    &&& r.actions@[2] is Wait && r.actions@[2]->Wait_seconds == 1
    &&& r.actions@[3] is LaunchApp && r.actions@[3]->LaunchApp_app_name@ == "Teams"@
    &&& r.actions@[4] is SetVolume && r.actions@[4]->SetVolume_level == 30
    &&& r.actions@[5] is SendNotification && r.actions@[5]->SendNotification_title@
        == "Work Mode"@ && r.actions@[5]->SendNotification_message@
        == "Work mode activated. Focus time!"@
    &&& r.created_at@.len() > 0
    &&& r.last_run is None
}

/// The evening wind-down built-in.
pub open spec fn is_evening_routine(r: AutomationRoutine) -> bool {
    &&& r.id@ == "evening-winddown"@
    &&& r.name@ == "Evening Wind Down"@
    &&& r.description@ == "Relax and prepare for tomorrow"@
    &&& r.enabled == true
    &&& r.trigger is Schedule && r.trigger->Schedule_time@ == "20:00"@
    &&& r.actions@.len() == 4
    &&& r.actions@[0] is Speak && r.actions@[0]->Speak_text@
        == "Good evening! Time to wind down."@
    &&& r.actions@[1] is SetVolume && r.actions@[1]->SetVolume_level == 40
    &&& r.actions@[2] is OpenWebsite && r.actions@[2]->OpenWebsite_url@
        == "https://open.spotify.com"@
    &&& r.actions@[3] is SendNotification && r.actions@[3]->SendNotification_title@
        == "Evening Routine"@ && r.actions@[3]->SendNotification_message@
        == "Time to relax and recharge!"@
    &&& r.created_at@.len() > 0
    &&& r.last_run is None
}

/// The gaming-mode built-in.
pub open spec fn is_gaming_mode_routine(r: AutomationRoutine) -> bool {
    &&& r.id@ == "gaming-mode"@
    &&& r.name@ == "Gaming Mode"@
    &&& r.description@ == "Optimize system for gaming"@
    &&& r.enabled == true
    &&& r.trigger is VoiceCommand && r.trigger->VoiceCommand_phrase@ == "start gaming mode"@
    &&& r.actions@.len() == 3
    &&& r.actions@[0] is Speak && r.actions@[0]->Speak_text@
        == "Activating gaming mode. Good luck and have fun!"@
    &&& r.actions@[1] is SetVolume && r.actions@[1]->SetVolume_level == 80
    &&& r.actions@[2] is SendNotification && r.actions@[2]->SendNotification_title@
        == "Gaming Mode"@ && r.actions@[2]->SendNotification_message@
        == "System optimized for gaming!"@
    &&& r.created_at@.len() > 0
    &&& r.last_run is None
}

/// A fresh registry: exactly the four built-ins, in this order, all
/// enabled and never run.
pub open spec fn is_default_registry(s: Seq<AutomationRoutine>) -> bool {
    &&& s.len() == 4
    &&& is_morning_routine(s[0])
    &&& is_work_mode_routine(s[1])
    &&& is_evening_routine(s[2])
    &&& is_gaming_mode_routine(s[3])
}

impl AutomationManager {
    /// The registered routines, in insertion order.
    pub closed spec fn routines_seq(&self) -> Seq<AutomationRoutine> {
        self.routines@
    }

    /// Whether the (stub) scheduler is flagged as running.
    pub closed spec fn scheduler_running(&self) -> bool {
        self.is_running
    }

    /// Registry invariant: routine ids are pairwise distinct.
    pub open spec fn wf(&self) -> bool {
        unique_ids(self.routines_seq())
    }

    /// The registered routine with this id (meaningful when present).
    pub open spec fn spec_get(&self, id: Seq<char>) -> AutomationRoutine {
        self.routines_seq()[index_of_id(self.routines_seq(), id)]
    }

    /// A fresh registry, seeded with the four built-in routines.
    pub fn new() -> (r: Self)
        ensures
            r.wf(),
            is_default_registry(r.routines_seq()),
            !r.scheduler_running(),
    {
        let mut manager = AutomationManager { routines: Vec::new(), is_running: false };
        manager.load_default_routines();
        manager
    }

    /// Seeds the built-in routines; they act as regression fixtures and
    /// are reproducible field for field, the creation stamps excepted.
    fn load_default_routines(&mut self)
        requires
            old(self).routines_seq().len() == 0,
        ensures
            final(self).wf(),
            is_default_registry(final(self).routines_seq()),
            final(self).scheduler_running() == old(self).scheduler_running(),
    {
        proof {
            reveal_strlit("morning-routine");
            reveal_strlit("work-mode");
            reveal_strlit("evening-winddown");
            reveal_strlit("gaming-mode");
        }
        let mut morning_actions: Vec<AutomationAction> = Vec::new();
        morning_actions.push(
            AutomationAction::Speak {
                text: "Good morning! Starting your morning routine.".to_owned(),
            },
        );
        morning_actions.push(AutomationAction::SetVolume { level: 50 });
        morning_actions.push(AutomationAction::LaunchApp { app_name: "Calendar".to_owned() });
        morning_actions.push(AutomationAction::Wait { seconds: 2 });
        morning_actions.push(
            AutomationAction::OpenWebsite { url: "https://news.google.com".to_owned() },
        );
        morning_actions.push(
            AutomationAction::SendNotification {
                title: "Morning Routine".to_owned(),
                message: "Your morning routine is complete!".to_owned(),
            },
        );
        self.add_routine(
            AutomationRoutine {
                id: "morning-routine".to_owned(),
                name: "Morning Routine".to_owned(),
                description: "Start your day with news, calendar, and music".to_owned(),
                enabled: true,
                trigger: AutomationTrigger::Schedule { time: "08:00".to_owned() },
                actions: morning_actions,
                created_at: current_timestamp(),
                last_run: None,
            },
        );
        proof {
            assert(self.routines_seq().len() == 1);
            assert(is_morning_routine(self.routines_seq()[0]));
            assert("morning-routine"@.len() == 15);
            assert("work-mode"@.len() == 9);
            assert(!contains_id(self.routines_seq(), "work-mode"@));
        }
        let mut work_actions: Vec<AutomationAction> = Vec::new();
        work_actions.push(
            AutomationAction::Speak { text: "Activating work mode. Let's be productive!".to_owned() },
        );
        work_actions.push(AutomationAction::LaunchApp { app_name: "Code".to_owned() });
        work_actions.push(AutomationAction::Wait { seconds: 1 });
        work_actions.push(AutomationAction::LaunchApp { app_name: "Teams".to_owned() });
        work_actions.push(AutomationAction::SetVolume { level: 30 });
        work_actions.push(
            AutomationAction::SendNotification {
                title: "Work Mode".to_owned(),
                message: "Work mode activated. Focus time!".to_owned(),
            },
        );
        self.add_routine(
            AutomationRoutine {
                id: "work-mode".to_owned(),
                name: "Work Mode".to_owned(),
                description: "Focus mode with productivity apps".to_owned(),
                enabled: true,
                trigger: AutomationTrigger::VoiceCommand { phrase: "start work mode".to_owned() },
                actions: work_actions,
                created_at: current_timestamp(),
                last_run: None,
            },
        );
        proof {
            assert("evening-winddown"@.len() == 16);
            assert(!contains_id(self.routines_seq(), "evening-winddown"@));
            assert(self.routines_seq().len() == 2);
            assert(is_work_mode_routine(self.routines_seq()[1]));
        }
        let mut evening_actions: Vec<AutomationAction> = Vec::new();
        evening_actions.push(
            AutomationAction::Speak { text: "Good evening! Time to wind down.".to_owned() },
        );
        evening_actions.push(AutomationAction::SetVolume { level: 40 });
        evening_actions.push(
            AutomationAction::OpenWebsite { url: "https://open.spotify.com".to_owned() },
        );
        evening_actions.push(
            AutomationAction::SendNotification {
                title: "Evening Routine".to_owned(),
                message: "Time to relax and recharge!".to_owned(),
            },
        );
        self.add_routine(
            AutomationRoutine {
                id: "evening-winddown".to_owned(),
                name: "Evening Wind Down".to_owned(),
                description: "Relax and prepare for tomorrow".to_owned(),
                enabled: true,
                trigger: AutomationTrigger::Schedule { time: "20:00".to_owned() },
                actions: evening_actions,
                created_at: current_timestamp(),
                last_run: None,
            },
        );
        proof {
            assert("gaming-mode"@.len() == 11);
            assert(!contains_id(self.routines_seq(), "gaming-mode"@));
            assert(self.routines_seq().len() == 3);
            assert(is_evening_routine(self.routines_seq()[2]));
        }
        let mut gaming_actions: Vec<AutomationAction> = Vec::new();
        gaming_actions.push(
            AutomationAction::Speak {
                text: "Activating gaming mode. Good luck and have fun!".to_owned(),
            },
        );
        gaming_actions.push(AutomationAction::SetVolume { level: 80 });
        gaming_actions.push(
            AutomationAction::SendNotification {
                title: "Gaming Mode".to_owned(),
                message: "System optimized for gaming!".to_owned(),
            },
        );
        self.add_routine(
            AutomationRoutine {
                id: "gaming-mode".to_owned(),
                name: "Gaming Mode".to_owned(),
                description: "Optimize system for gaming".to_owned(),
                enabled: true,
                trigger: AutomationTrigger::VoiceCommand {
                    phrase: "start gaming mode".to_owned(),
                },
                actions: gaming_actions,
                created_at: current_timestamp(),
                last_run: None,
            },
        );
    }

    /// The position of `id`, scanning in insertion order.
    pub(crate) fn find_index(&self, id: &str) -> (r: Option<usize>)
        requires
            self.wf(),
        ensures
            r is Some <==> contains_id(self.routines_seq(), id@),
            r is Some ==> {
                &&& r->Some_0 < self.routines_seq().len()
                &&& self.routines_seq()[r->Some_0 as int].id@ == id@
                &&& r->Some_0 as int == index_of_id(self.routines_seq(), id@)
            },
    {
        let mut i: usize = 0;
        while i < self.routines.len()
            invariant
                self.wf(),
                i <= self.routines_seq().len(),
                forall|k: int| 0 <= k < i ==> (#[trigger] self.routines_seq()[k]).id@ != id@,
            decreases self.routines_seq().len() - i,
        {
            if eq_str(self.routines[i].id.as_str(), id) {
                proof {
                    let w = index_of_id(self.routines_seq(), id@);
                    assert(0 <= w < self.routines_seq().len() && self.routines_seq()[w].id@ == id@);
                    assert(w == i as int);
                }
                return Some(i);
            }
            i = i + 1;
        }
        None
    }

    /// Inserts the routine, or overwrites the one that already carries
    /// its id.
    pub fn add_routine(&mut self, routine: AutomationRoutine)
        requires
            old(self).wf(),
        ensures
            final(self).wf(),
            contains_id(old(self).routines_seq(), routine.id@) ==> final(self).routines_seq()
                == old(self).routines_seq().update(
                index_of_id(old(self).routines_seq(), routine.id@),
                routine,
            ),
            !contains_id(old(self).routines_seq(), routine.id@) ==> final(self).routines_seq()
                == old(self).routines_seq().push(routine),
            final(self).scheduler_running() == old(self).scheduler_running(),
    {
        match self.find_index(routine.id.as_str()) {
            Some(i) => {
                self.routines.set(i, routine);
            },
            None => {
                self.routines.push(routine);
            },
        }
    }

    /// The routine with this id, when one is registered.
    pub fn get_routine(&self, id: &str) -> (r: Option<&AutomationRoutine>)
        requires
            self.wf(),
        ensures
            r is Some <==> contains_id(self.routines_seq(), id@),
            r is Some ==> *r->Some_0 == self.spec_get(id@),
    {
        match self.find_index(id) {
            Some(i) => Some(&self.routines[i]),
            None => None,
        }
    }

    /// Every registered routine, in the registry's stable order.
    pub fn get_all_routines(&self) -> (r: Vec<AutomationRoutine>)
        ensures
            r@.len() == self.routines_seq().len(),
            forall|i: int|
                0 <= i < r@.len() ==> same_routine(#[trigger] r@[i], self.routines_seq()[i]),
    {
        let mut out: Vec<AutomationRoutine> = Vec::new();
        let mut i: usize = 0;
        while i < self.routines.len()
            invariant
                i <= self.routines_seq().len(),
                out@.len() == i,
                forall|k: int|
                    0 <= k < i ==> same_routine(#[trigger] out@[k], self.routines_seq()[k]),
            decreases self.routines_seq().len() - i,
        {
            out.push(self.routines[i].clone());
            i = i + 1;
        }
        out
    }

    /// How many routines are registered.
    pub fn routine_count(&self) -> (n: usize)
        ensures
            n == self.routines_seq().len(),
    {
        self.routines.len()
    }

    /// The routine at a position of the registry's stable order.
    pub fn routine_at(&self, i: usize) -> (r: &AutomationRoutine)
        requires
            i < self.routines_seq().len(),
        ensures
            *r == self.routines_seq()[i as int],
    {
        &self.routines[i]
    }

    /// Full replacement of the routine that carries this id; fails when
    /// the id is unknown.
    pub fn update_routine(&mut self, routine: AutomationRoutine) -> (r: Result<(), RegistryError>)
        requires
            old(self).wf(),
        ensures
            final(self).wf(),
            r is Ok <==> contains_id(old(self).routines_seq(), routine.id@),
            r is Ok ==> final(self).routines_seq() == old(self).routines_seq().update(
                index_of_id(old(self).routines_seq(), routine.id@),
                routine,
            ),
            r is Err ==> final(self).routines_seq() == old(self).routines_seq() && r->Err_0
                is NotFound,
            final(self).scheduler_running() == old(self).scheduler_running(),
    {
        match self.find_index(routine.id.as_str()) {
            Some(i) => {
                self.routines.set(i, routine);
                Ok(())
            },
            None => Err(RegistryError::NotFound),
        }
    }

    /// Removes the routine with this id; fails when the id is unknown.
    pub fn delete_routine(&mut self, id: &str) -> (r: Result<(), RegistryError>)
        requires
            old(self).wf(),
        ensures
            final(self).wf(),
            r is Ok <==> contains_id(old(self).routines_seq(), id@),
            r is Ok ==> final(self).routines_seq() == old(self).routines_seq().remove(
                index_of_id(old(self).routines_seq(), id@),
            ),
            r is Err ==> final(self).routines_seq() == old(self).routines_seq() && r->Err_0
                is NotFound,
            final(self).scheduler_running() == old(self).scheduler_running(),
    {
        match self.find_index(id) {
            Some(i) => {
                self.routines.remove(i);
                Ok(())
            },
            None => Err(RegistryError::NotFound),
        }
    }

    /// Flips the enabled flag of the routine with this id and returns the
    /// new value; fails when the id is unknown.
    pub fn toggle_routine(&mut self, id: &str) -> (r: Result<bool, RegistryError>)
        requires
            old(self).wf(),
        ensures
            final(self).wf(),
            r is Ok <==> contains_id(old(self).routines_seq(), id@),
            r is Ok ==> ({
                let i = index_of_id(old(self).routines_seq(), id@);
                let before = old(self).routines_seq()[i];
                &&& r->Ok_0 == !before.enabled
                &&& final(self).routines_seq() == old(self).routines_seq().update(
                    i,
                    AutomationRoutine { enabled: !before.enabled, ..before },
                )
            }),
            r is Err ==> final(self).routines_seq() == old(self).routines_seq() && r->Err_0
                is NotFound,
            final(self).scheduler_running() == old(self).scheduler_running(),
    {
        match self.find_index(id) {
            Some(i) => {
                let mut routine = self.routines.remove(i);
                let enabled = !routine.enabled;
                routine.enabled = enabled;
                self.routines.insert(i, routine);
                proof {
                    let s = old(self).routines_seq();
                    let w = index_of_id(s, id@);
                    assert(self.routines_seq() =~= s.update(
                        w,
                        AutomationRoutine { enabled: !s[w].enabled, ..s[w] },
                    ));
                }
                Ok(enabled)
            },
            None => Err(RegistryError::NotFound),
        }
    }

    /// Stamps a fresh `last_run` time on the routine with this id; a
    /// routine that is no longer registered is left alone. Every other
    /// field, and every other routine, is untouched.
    pub(crate) fn mark_last_run(&mut self, id: &str)
        requires
            old(self).wf(),
        ensures
            final(self).wf(),
            contains_id(old(self).routines_seq(), id@) ==> ({
                let i = index_of_id(old(self).routines_seq(), id@);
                let stamped = final(self).routines_seq()[i];
                &&& stamped.last_run is Some
                &&& stamped.last_run->Some_0@.len() > 0
                &&& final(self).routines_seq() == old(self).routines_seq().update(
                    i,
                    AutomationRoutine { last_run: stamped.last_run, ..old(self).routines_seq()[i] },
                )
            }),
            !contains_id(old(self).routines_seq(), id@) ==> final(self).routines_seq() == old(
                self,
            ).routines_seq(),
            final(self).scheduler_running() == old(self).scheduler_running(),
    {
        match self.find_index(id) {
            Some(i) => {
                let mut routine = self.routines.remove(i);
                routine.last_run = Some(current_timestamp());
                self.routines.insert(i, routine);
                proof {
                    let s = old(self).routines_seq();
                    let w = index_of_id(s, id@);
                    assert(self.routines_seq() =~= s.update(
                        w,
                        AutomationRoutine {
                            last_run: self.routines_seq()[w].last_run,
                            ..s[w]
                        },
                    ));
                }
            },
            None => {
            },
        }
    }

    /// Clears the scheduler flag; the registry is untouched.
    pub fn stop_scheduler(&mut self)
        ensures
            final(self).routines_seq() == old(self).routines_seq(),
            !final(self).scheduler_running(),
    {
        self.is_running = false;
    }
}

} // verus!
