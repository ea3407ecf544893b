//! Transition dispatch: which configured action, if any, one classified
//! event launches.
//!
//! Every applicable event retriggers its action, including a repeat of the
//! state the previous event reported; no deduplication is performed.

use vstd::prelude::*;

use crate::classify::Classification;
use crate::classify::classify;
use crate::classify::spec_classify;
use crate::config::DNDTriggerConfig;

verus! {

/// The action a classified event launches: the enable action on an active
/// state, the disable action on an inactive one, nothing otherwise.
pub open spec fn spec_action_for(c: Classification, config: DNDTriggerConfig) -> Option<String> {
    match c {
        Classification::StateActive => config.on_enable,
        Classification::StateInactive => config.on_disable,
        Classification::NotApplicable => None,
    }
}

/// Decide which configured action one classified event launches. An event
/// whose action is not configured launches nothing; one whose action is
/// configured launches exactly that action, also when the event repeats the
/// state the previous one reported.
pub fn action_for(c: Classification, config: &DNDTriggerConfig) -> (r: Option<String>)
    ensures
        r == spec_action_for(c, *config),
{
    match c {
        Classification::StateActive => match &config.on_enable {
            Some(s) => Some(s.clone()),
            None => None,
        },
        Classification::StateInactive => match &config.on_disable {
            Some(s) => Some(s.clone()),
            None => None,
        },
        Classification::NotApplicable => None,
    }
}

/// Classify one log line and decide which configured action it launches.
/// This is the whole per-line step of the monitor loop; the caller spawns
/// the returned command, fire-and-forget, and reads the next line.
pub fn handle_line(line: &str, config: &DNDTriggerConfig) -> (r: Option<String>)
    ensures
        r == spec_action_for(spec_classify(line@), *config),
{
    let c = classify(line);
    action_for(c, config)
}

/// Law: an event with no configured action for its state launches nothing,
/// and a not-applicable event launches nothing whatever is configured.
pub proof fn lemma_unset_action_no_spawn(c: Classification, config: DNDTriggerConfig)
    requires
        c == Classification::StateActive ==> config.on_enable is None,
        c == Classification::StateInactive ==> config.on_disable is None,
    ensures
        spec_action_for(c, config) is None,
{
}

} // verus!
