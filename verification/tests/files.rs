use precios_carburantes::files::{entry_plan, EntryKind, EntryPlan, DIRECTORY_INDEX};

#[test]
fn missing_entries_are_not_found() {
    assert!(matches!(entry_plan("a/b.html", EntryKind::Missing), EntryPlan::NotFound));
}

#[test]
fn directories_descend_to_index() {
    match entry_plan("a", EntryKind::Directory) {
        EntryPlan::Descend(name) => {
            assert_eq!(name, "index.html");
            assert_eq!(name, DIRECTORY_INDEX);
        }
        _ => panic!("expected to descend"),
    }
}

#[test]
fn files_are_served_with_guessed_type() {
    let kind = |p: &str| match entry_plan(p, EntryKind::File) {
        EntryPlan::Serve { content_type } => content_type,
        _ => panic!("expected to serve"),
    };
    assert_eq!(kind("static/index.html"), "text/html");
    assert_eq!(kind("app.js"), "text/javascript");
    assert_eq!(kind("style.CSS"), "text/css");
    assert_eq!(kind("route"), "application/octet-stream");
    assert_eq!(kind("data.unknownext"), "application/octet-stream");
}
