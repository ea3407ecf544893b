use dndtrigger::classify::Classification;
use dndtrigger::config::DNDTriggerConfig;
use dndtrigger::dispatch::action_for;
use dndtrigger::dispatch::handle_line;

fn config(on_enable: Option<&str>, on_disable: Option<&str>) -> DNDTriggerConfig {
    DNDTriggerConfig {
        on_enable: on_enable.map(String::from),
        on_disable: on_disable.map(String::from),
        user: None,
    }
}

#[test]
fn active_with_unset_enable_action_is_a_no_op() {
    let c = config(None, Some("/off"));
    assert_eq!(action_for(Classification::StateActive, &c), None);
}

#[test]
fn active_with_set_enable_action_launches_it_each_time() {
    let c = config(Some("/on"), None);
    // One launch per event, also for consecutive repeats of the same state.
    assert_eq!(
        action_for(Classification::StateActive, &c).as_deref(),
        Some("/on")
    );
    assert_eq!(
        action_for(Classification::StateActive, &c).as_deref(),
        Some("/on")
    );
}

#[test]
fn inactive_uses_the_disable_action() {
    let c = config(Some("/on"), Some("/off"));
    assert_eq!(
        action_for(Classification::StateInactive, &c).as_deref(),
        Some("/off")
    );
    assert_eq!(action_for(Classification::StateInactive, &config(Some("/on"), None)), None);
}

#[test]
fn not_applicable_never_launches() {
    let c = config(Some("/on"), Some("/off"));
    assert_eq!(action_for(Classification::NotApplicable, &c), None);
}

#[test]
fn per_line_step_combines_classification_and_dispatch() {
    let c = config(Some("/on"), Some("/off"));
    assert_eq!(
        handle_line(
            "... State was updated: currentState: ... activeModeConfiguration: Evening ...",
            &c
        )
        .as_deref(),
        Some("/on")
    );
    assert_eq!(
        handle_line(
            "... State was updated: currentState: ... activeModeConfiguration: (null) ...",
            &c
        )
        .as_deref(),
        Some("/off")
    );
    assert_eq!(handle_line("... some unrelated subsystem message ...", &c), None);
}
