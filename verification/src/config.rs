//! The daemon's configuration record and its merge-on-write update rule.
//!
//! A partial update overwrites only the fields it supplies; the run-as user
//! may never be stored as the superuser identity.

use vstd::prelude::*;

verus! {

/// The three optional configuration fields: the action launched on a
/// transition to the active state, the action launched on a transition to
/// the inactive state, and the user the supervised daemon runs as.
#[derive(Clone)]
pub struct DNDTriggerConfig {
    pub on_enable: Option<String>,
    pub on_disable: Option<String>,
    pub user: Option<String>,
}

impl Default for DNDTriggerConfig {
    /// The configuration with no field set.
    fn default() -> (c: DNDTriggerConfig)
        ensures
            c.on_enable is None,
            c.on_disable is None,
            c.user is None,
    {
        DNDTriggerConfig { on_enable: None, on_disable: None, user: None }
    }
}

/// The text of an optional string, where present.
pub open spec fn opt_view(o: Option<String>) -> Option<Seq<char>> {
    match o {
        Some(s) => Some(s@),
        None => None,
    }
}

/// The superuser identity, which the stored configuration may never name.
pub open spec fn root_name() -> Seq<char> {
    "root"@
}

/// The field a merge keeps: the supplied value where one is supplied, else
/// the previously stored one.
pub open spec fn spec_pick(new: Option<Seq<char>>, old: Option<Seq<char>>) -> Option<Seq<char>> {
    if new is Some {
        new
    } else {
        old
    }
}

/// The run-as user actually stored: the chosen one, unless it names the
/// superuser, which is discarded.
pub open spec fn spec_filter_root(u: Option<Seq<char>>) -> Option<Seq<char>> {
    match u {
        Some(s) => if s == root_name() {
            None
        } else {
            Some(s)
        },
        None => None,
    }
}

/// Merge a partial update into a previously stored configuration: each
/// supplied field replaces the stored one, each unsupplied field is kept,
/// and a run-as user naming the superuser is discarded.
pub fn merge_config(
    old_config: DNDTriggerConfig,
    on_enable: Option<String>,
    on_disable: Option<String>,
    user: Option<String>,
) -> (r: DNDTriggerConfig)
    ensures
        opt_view(r.on_enable) == spec_pick(opt_view(on_enable), opt_view(old_config.on_enable)),
        opt_view(r.on_disable) == spec_pick(opt_view(on_disable), opt_view(old_config.on_disable)),
        opt_view(r.user) == spec_filter_root(spec_pick(opt_view(user), opt_view(old_config.user))),
{
    let chosen_user = match user {
        Some(u) => Some(u),
        None => old_config.user,
    };
    let stored_user = match chosen_user {
        Some(u) => {
            let root_s = "root".to_owned();
            if u.eq(&root_s) {
                None
            } else {
                Some(u)
            }
        },
        None => None,
    };
    let merged_enable = match on_enable {
        Some(s) => Some(s),
        None => old_config.on_enable,
    };
    let merged_disable = match on_disable {
        Some(s) => Some(s),
        None => old_config.on_disable,
    };
    DNDTriggerConfig { on_enable: merged_enable, on_disable: merged_disable, user: stored_user }
}

/// Law: a merge that supplies no value for a field keeps the stored one;
/// in particular the stored disable action and run-as user survive an
/// update that writes only the enable action (the stored user was not the
/// superuser, which a correct store never holds).
pub proof fn lemma_merge_preserves_unspecified(
    old_disable: Option<Seq<char>>,
    old_user: Option<Seq<char>>,
)
    requires
        old_user != Some(root_name()),
    ensures
        spec_pick(None, old_disable) == old_disable,
        spec_filter_root(spec_pick(None, old_user)) == old_user,
{
}

/// Law: whatever is supplied and whatever was stored, the merged run-as
/// user never names the superuser.
pub proof fn lemma_root_never_stored(new_user: Option<Seq<char>>, old_user: Option<Seq<char>>)
    ensures
        spec_filter_root(spec_pick(new_user, old_user)) != Some(root_name()),
{
}

} // verus!
