use explorer::tag::Tag;

#[test]
fn new_sets_fields_and_equal_timestamps() {
    let tag = Tag::new("Work", Some("#ff0000".to_string()));
    assert_eq!(tag.label, "Work");
    assert_eq!(tag.color.as_deref(), Some("#ff0000"));
    assert!(!tag.id.is_empty());
    assert_eq!(tag.created_at, tag.updated_at);
}

#[test]
fn set_label_changes_label_and_bumps_updated_at() {
    let mut tag = Tag::new("Work", None);
    tag.set_label("Home");
    assert_eq!(tag.label, "Home");
    assert!(tag.updated_at >= tag.created_at);
}

#[test]
fn set_color_changes_color_and_bumps_updated_at() {
    let mut tag = Tag::new("Work", None);
    tag.set_color(Some("#00ff00".to_string()));
    assert_eq!(tag.color.as_deref(), Some("#00ff00"));
    assert!(tag.updated_at >= tag.created_at);
}

#[test]
fn new_ids_are_ulids_and_differ() {
    let a = Tag::new("a", None);
    let b = Tag::new("b", None);
    assert_eq!(a.id.len(), 26);
    assert!(a.id.chars().all(|c| "0123456789ABCDEFGHJKMNPQRSTVWXYZ".contains(c)));
    assert_ne!(a.id, b.id);
}
