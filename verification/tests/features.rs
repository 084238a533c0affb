use explorer::features::{Feature, Features};

#[test]
fn new_enables_all() {
    let f = Features::new();
    assert!(f.knowledge_graph_enabled);
    assert!(f.notes_whiteboard_enabled);
    assert!(f.tasks_enabled);
    assert!(f.calendar_enabled);
    assert!(f.feed_enabled);
    assert!(f.notes_enabled);
}

#[test]
fn is_enabled_reflects_flags() {
    let mut f = Features::new();
    assert!(f.is_enabled(Feature::Tasks));
    f.tasks_enabled = false;
    assert!(!f.is_enabled(Feature::Tasks));
}

#[test]
fn set_changes_only_target_feature() {
    let mut f = Features::new();
    f.set(Feature::Feed, false);
    assert!(!f.feed_enabled);
    assert!(f.tasks_enabled, "other features must be untouched");
    assert!(f.calendar_enabled);
}

#[test]
fn toggle_flips_feature() {
    let mut f = Features::new();
    f.toggle(Feature::Notes);
    assert!(!f.is_enabled(Feature::Notes));
    f.toggle(Feature::Notes);
    assert!(f.is_enabled(Feature::Notes));
}

#[test]
fn enable_all_sets_all_true() {
    let mut f = Features::new();
    f.disable_all();
    f.enable_all();
    assert!(f.tasks_enabled && f.feed_enabled && f.notes_enabled);
}

#[test]
fn disable_all_sets_all_false() {
    let mut f = Features::new();
    f.disable_all();
    assert!(!f.knowledge_graph_enabled);
    assert!(!f.notes_whiteboard_enabled);
    assert!(!f.tasks_enabled);
    assert!(!f.calendar_enabled);
    assert!(!f.feed_enabled);
    assert!(!f.notes_enabled);
}

#[test]
fn set_then_read_every_feature() {
    let all = [
        Feature::KnowledgeGraph,
        Feature::NotesWhiteboard,
        Feature::Tasks,
        Feature::Calendar,
        Feature::Feed,
        Feature::Notes,
    ];
    for target in all {
        let mut f = Features::new();
        f.set(target, false);
        for other in all {
            assert_eq!(f.is_enabled(other), other != target);
        }
    }
}
