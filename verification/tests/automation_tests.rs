use astral_core::automation::AutomationAction;
use astral_core::automation::AutomationManager;
use astral_core::automation::AutomationRoutine;
use astral_core::automation::AutomationTrigger;
use astral_core::automation::RegistryError;

fn plain_routine(id: &str, enabled: bool, actions: Vec<AutomationAction>) -> AutomationRoutine {
    AutomationRoutine {
        id: id.to_string(),
        name: format!("{} name", id),
        description: format!("{} description", id),
        enabled,
        trigger: AutomationTrigger::Manual,
        actions,
        created_at: "2024-05-01T08:00:00+00:00".to_string(),
        last_run: None,
    }
}

#[test]
fn fresh_registry_holds_the_four_builtins_in_order() {
    let mgr = AutomationManager::new();
    let all = mgr.get_all_routines();
    let ids: Vec<&str> = all.iter().map(|r| r.id.as_str()).collect();
    assert_eq!(ids, vec!["morning-routine", "work-mode", "evening-winddown", "gaming-mode"]);
    assert!(all.iter().all(|r| r.enabled));
    assert!(all.iter().all(|r| r.last_run.is_none()));
    assert!(all.iter().all(|r| !r.created_at.is_empty()));
}

#[test]
fn morning_routine_fixture_is_reproduced() {
    let mgr = AutomationManager::new();
    let r = mgr.get_routine("morning-routine").unwrap();
    assert_eq!(r.name, "Morning Routine");
    assert_eq!(r.description, "Start your day with news, calendar, and music");
    assert!(r.enabled);
    match &r.trigger {
        AutomationTrigger::Schedule { time } => assert_eq!(time, "08:00"),
        _ => panic!("expected a schedule trigger"),
    }
    assert_eq!(r.actions.len(), 6);
    match &r.actions[0] {
        AutomationAction::Speak { text } => {
            assert_eq!(text, "Good morning! Starting your morning routine.")
        }
        _ => panic!("expected a speak action"),
    }
    match &r.actions[1] {
        AutomationAction::SetVolume { level } => assert_eq!(*level, 50),
        _ => panic!("expected a volume action"),
    }
    match &r.actions[2] {
        AutomationAction::LaunchApp { app_name } => assert_eq!(app_name, "Calendar"),
        _ => panic!("expected a launch action"),
    }
    match &r.actions[3] {
        AutomationAction::Wait { seconds } => assert_eq!(*seconds, 2),
        _ => panic!("expected a wait action"),
    }
    match &r.actions[4] {
        AutomationAction::OpenWebsite { url } => assert_eq!(url, "https://news.google.com"),
        _ => panic!("expected a website action"),
    }
    match &r.actions[5] {
        AutomationAction::SendNotification { title, message } => {
            assert_eq!(title, "Morning Routine");
            assert_eq!(message, "Your morning routine is complete!");
        }
        _ => panic!("expected a notification action"),
    }
}

#[test]
fn work_mode_fixture_is_reproduced() {
    let mgr = AutomationManager::new();
    let r = mgr.get_routine("work-mode").unwrap();
    assert_eq!(r.name, "Work Mode");
    assert_eq!(r.description, "Focus mode with productivity apps");
    match &r.trigger {
        AutomationTrigger::VoiceCommand { phrase } => assert_eq!(phrase, "start work mode"),
        _ => panic!("expected a voice trigger"),
    }
    assert_eq!(r.actions.len(), 6);
    match &r.actions[0] {
        AutomationAction::Speak { text } => {
            assert_eq!(text, "Activating work mode. Let's be productive!")
        }
        _ => panic!("expected a speak action"),
    }
    match &r.actions[1] {
        AutomationAction::LaunchApp { app_name } => assert_eq!(app_name, "Code"),
        _ => panic!("expected a launch action"),
    }
    match &r.actions[4] {
        AutomationAction::SetVolume { level } => assert_eq!(*level, 30),
        _ => panic!("expected a volume action"),
    }
}

#[test]
fn evening_and_gaming_fixtures_are_reproduced() {
    let mgr = AutomationManager::new();
    let evening = mgr.get_routine("evening-winddown").unwrap();
    assert_eq!(evening.name, "Evening Wind Down");
    assert_eq!(evening.actions.len(), 4);
    match &evening.trigger {
        AutomationTrigger::Schedule { time } => assert_eq!(time, "20:00"),
        _ => panic!("expected a schedule trigger"),
    }
    let gaming = mgr.get_routine("gaming-mode").unwrap();
    assert_eq!(gaming.name, "Gaming Mode");
    assert_eq!(gaming.description, "Optimize system for gaming");
    assert_eq!(gaming.actions.len(), 3);
    match &gaming.trigger {
        AutomationTrigger::VoiceCommand { phrase } => assert_eq!(phrase, "start gaming mode"),
        _ => panic!("expected a voice trigger"),
    }
    match &gaming.actions[1] {
        AutomationAction::SetVolume { level } => assert_eq!(*level, 80),
        _ => panic!("expected a volume action"),
    }
}

#[test]
fn first_toggle_disables_a_builtin_and_the_second_enables_it() {
    let mut mgr = AutomationManager::new();
    assert_eq!(mgr.toggle_routine("gaming-mode"), Ok(false));
    assert_eq!(mgr.toggle_routine("gaming-mode"), Ok(true));
}

#[test]
fn toggle_of_an_unknown_id_reports_not_found() {
    let mut mgr = AutomationManager::new();
    assert_eq!(mgr.toggle_routine("no-such-routine"), Err(RegistryError::NotFound));
}

#[test]
fn add_routine_inserts_and_overwrites_by_id() {
    let mut mgr = AutomationManager::new();
    mgr.add_routine(plain_routine("custom", true, vec![]));
    assert_eq!(mgr.get_all_routines().len(), 5);
    let mut replacement = plain_routine("custom", true, vec![]);
    replacement.name = "replaced".to_string();
    mgr.add_routine(replacement);
    assert_eq!(mgr.get_all_routines().len(), 5);
    assert_eq!(mgr.get_routine("custom").unwrap().name, "replaced");
}

#[test]
fn update_routine_replaces_known_ids_and_rejects_unknown_ones() {
    let mut mgr = AutomationManager::new();
    let mut changed = plain_routine("work-mode", false, vec![]);
    changed.name = "Quiet Work".to_string();
    assert_eq!(mgr.update_routine(changed), Ok(()));
    let got = mgr.get_routine("work-mode").unwrap();
    assert_eq!(got.name, "Quiet Work");
    assert!(!got.enabled);
    assert_eq!(
        mgr.update_routine(plain_routine("missing", true, vec![])),
        Err(RegistryError::NotFound)
    );
}

#[test]
fn delete_routine_removes_the_id_and_rejects_unknown_ones() {
    let mut mgr = AutomationManager::new();
    assert_eq!(mgr.delete_routine("morning-routine"), Ok(()));
    assert!(mgr.get_routine("morning-routine").is_none());
    assert_eq!(mgr.get_all_routines().len(), 3);
    assert_eq!(mgr.delete_routine("morning-routine"), Err(RegistryError::NotFound));
}

#[test]
fn listing_order_is_stable_across_reads() {
    let mut mgr = AutomationManager::new();
    mgr.add_routine(plain_routine("appended", true, vec![]));
    let first: Vec<String> = mgr.get_all_routines().into_iter().map(|r| r.id).collect();
    let second: Vec<String> = mgr.get_all_routines().into_iter().map(|r| r.id).collect();
    assert_eq!(first, second);
    assert_eq!(first.last().map(|s| s.as_str()), Some("appended"));
}

#[test]
fn stop_scheduler_keeps_the_registry() {
    let mut mgr = AutomationManager::new();
    mgr.stop_scheduler();
    assert_eq!(mgr.get_all_routines().len(), 4);
}
