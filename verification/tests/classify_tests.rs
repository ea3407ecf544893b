use dndtrigger::classify::Classification;
use dndtrigger::classify::classify;

#[test]
fn line_without_marker_is_not_applicable() {
    assert_eq!(
        classify("... some unrelated subsystem message ..."),
        Classification::NotApplicable
    );
    assert_eq!(classify(""), Classification::NotApplicable);
    // The null-configuration marker alone does not make a line applicable.
    assert_eq!(
        classify("activeModeConfiguration: (null)"),
        Classification::NotApplicable
    );
    // A prefix of the marker is not the marker.
    assert_eq!(
        classify("State was updated: current"),
        Classification::NotApplicable
    );
}

#[test]
fn line_with_marker_and_null_is_inactive() {
    assert_eq!(
        classify("... State was updated: currentState: ... activeModeConfiguration: (null) ..."),
        Classification::StateInactive
    );
}

#[test]
fn line_with_marker_and_mode_is_active() {
    assert_eq!(
        classify("... State was updated: currentState: ... activeModeConfiguration: Evening ..."),
        Classification::StateActive
    );
    // The bare marker, with nothing else on the line, is active too.
    assert_eq!(
        classify("State was updated: currentState"),
        Classification::StateActive
    );
}

#[test]
fn classification_is_deterministic() {
    let line = "... State was updated: currentState: ... activeModeConfiguration: (null) ...";
    assert_eq!(classify(line), classify(line));
    let other = "unrelated";
    assert_eq!(classify(other), classify(other));
}

#[test]
fn marker_at_line_edges_is_found() {
    assert_eq!(
        classify("State was updated: currentState tail"),
        Classification::StateActive
    );
    assert_eq!(
        classify("head State was updated: currentState"),
        Classification::StateActive
    );
    assert_eq!(
        classify("State was updated: currentStateactiveModeConfiguration: (null)"),
        Classification::StateInactive
    );
}
