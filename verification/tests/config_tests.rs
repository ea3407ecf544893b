use dndtrigger::config::DNDTriggerConfig;
use dndtrigger::config::merge_config;

fn stored() -> DNDTriggerConfig {
    DNDTriggerConfig {
        on_enable: Some(String::from("/usr/local/bin/on")),
        on_disable: Some(String::from("/usr/local/bin/off")),
        user: Some(String::from("collin")),
    }
}

#[test]
fn writing_only_enable_preserves_other_fields() {
    let merged = merge_config(stored(), Some(String::from("/new/on")), None, None);
    assert_eq!(merged.on_enable.as_deref(), Some("/new/on"));
    assert_eq!(merged.on_disable.as_deref(), Some("/usr/local/bin/off"));
    assert_eq!(merged.user.as_deref(), Some("collin"));
}

#[test]
fn writing_nothing_keeps_everything() {
    let merged = merge_config(stored(), None, None, None);
    assert_eq!(merged.on_enable.as_deref(), Some("/usr/local/bin/on"));
    assert_eq!(merged.on_disable.as_deref(), Some("/usr/local/bin/off"));
    assert_eq!(merged.user.as_deref(), Some("collin"));
}

#[test]
fn superuser_identity_is_never_stored() {
    let merged = merge_config(stored(), None, None, Some(String::from("root")));
    assert_eq!(merged.user, None);
    // The other fields are untouched by the rejected user.
    assert_eq!(merged.on_enable.as_deref(), Some("/usr/local/bin/on"));
    assert_eq!(merged.on_disable.as_deref(), Some("/usr/local/bin/off"));

    // A stored superuser identity does not survive a merge either.
    let mut bad = stored();
    bad.user = Some(String::from("root"));
    let merged = merge_config(bad, None, None, None);
    assert_eq!(merged.user, None);

    // A user that merely contains the superuser name is kept.
    let merged = merge_config(stored(), None, None, Some(String::from("rooty")));
    assert_eq!(merged.user.as_deref(), Some("rooty"));
}

#[test]
fn empty_store_takes_supplied_fields() {
    let empty = DNDTriggerConfig::default();
    assert_eq!(empty.on_enable, None);
    assert_eq!(empty.on_disable, None);
    assert_eq!(empty.user, None);
    let merged = merge_config(
        empty,
        Some(String::from("/on")),
        Some(String::from("/off")),
        Some(String::from("alice")),
    );
    assert_eq!(merged.on_enable.as_deref(), Some("/on"));
    assert_eq!(merged.on_disable.as_deref(), Some("/off"));
    assert_eq!(merged.user.as_deref(), Some("alice"));
}
