use precios_carburantes::user::{
    get_user_state, update_user_display_name, update_user_filter, UserConfig, DEFAULT_FILTER,
};

fn row(u: &str, d: &str, f: &str) -> UserConfig {
    UserConfig { username: u.to_string(), display_name: d.to_string(), last_filter: f.to_string() }
}

#[test]
fn new_user_state_uses_defaults() {
    let s = get_user_state("ana", None, vec!["r".to_string()]);
    assert_eq!(s.username, "ana");
    assert_eq!(s.display_name, "ana");
    assert_eq!(s.filter, "all");
    assert_eq!(s.filter, DEFAULT_FILTER);
    assert_eq!(s.roles, vec!["r".to_string()]);
}

#[test]
fn stored_user_state_is_returned() {
    let s = get_user_state("ana", Some(row("ana", "Ana G.", "ccaa:13")), vec![]);
    assert_eq!(s.username, "ana");
    assert_eq!(s.display_name, "Ana G.");
    assert_eq!(s.filter, "ccaa:13");
    assert!(s.roles.is_empty());
}

#[test]
fn filter_update_inserts_or_keeps_name() {
    let r = update_user_filter("ana", None, "prov:28");
    assert_eq!((r.username.as_str(), r.display_name.as_str(), r.last_filter.as_str()), ("ana", "ana", "prov:28"));
    let r = update_user_filter("ana", Some(row("ana", "Ana G.", "all")), "prov:28");
    assert_eq!((r.username.as_str(), r.display_name.as_str(), r.last_filter.as_str()), ("ana", "Ana G.", "prov:28"));
}

#[test]
fn display_name_update_inserts_or_keeps_filter() {
    let r = update_user_display_name("ana", None, "Ana");
    assert_eq!((r.username.as_str(), r.display_name.as_str(), r.last_filter.as_str()), ("ana", "Ana", "all"));
    let r = update_user_display_name("ana", Some(row("ana", "x", "prov:28")), "Ana");
    assert_eq!((r.username.as_str(), r.display_name.as_str(), r.last_filter.as_str()), ("ana", "Ana", "prov:28"));
}

#[test]
fn settings_read_back_after_writes() {
    let stored = update_user_filter("bo", None, "ccaa:01");
    let stored = update_user_display_name("bo", Some(stored), "Bo");
    let s = get_user_state("bo", Some(stored), vec![]);
    assert_eq!(s.filter, "ccaa:01");
    assert_eq!(s.display_name, "Bo");
    let a = update_user_filter("bo", Some(update_user_display_name("bo", None, "Bo")), "f");
    let b = update_user_display_name("bo", Some(update_user_filter("bo", None, "f")), "Bo");
    assert_eq!(a.username, b.username);
    assert_eq!(a.display_name, b.display_name);
    assert_eq!(a.last_filter, b.last_filter);
}
