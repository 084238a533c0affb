use explorer::calendar::Calendar;
use explorer::calendar_event::CalendarEvent;

#[test]
fn calendar_new_defaults() {
    let c = Calendar::new("Personal");
    assert!(c.is_visible);
    assert!(!c.is_default);
    assert!(c.calendar_events.is_empty());
}

#[test]
fn calendar_with_color_sets_color() {
    let c = Calendar::new("P").with_color("#123456".to_string());
    assert_eq!(c.color.as_deref(), Some("#123456"));
}

#[test]
fn as_default_sets_flag() {
    assert!(Calendar::new("P").as_default().is_default);
}

#[test]
fn set_name_changes_name() {
    let mut c = Calendar::new("P");
    c.set_name("Work");
    assert_eq!(c.name, "Work");
    assert!(c.updated_at >= c.created_at);
}

#[test]
fn set_color_changes_color() {
    let mut c = Calendar::new("P");
    c.set_color(Some("#abcdef".to_string()));
    assert_eq!(c.color.as_deref(), Some("#abcdef"));
    assert!(c.updated_at >= c.created_at);
}

#[test]
fn show_hide_toggle_visibility() {
    let mut c = Calendar::new("P");
    c.make_hidden();
    assert!(!c.is_visible);
    c.show();
    assert!(c.is_visible);
    c.toggle_visibility();
    assert!(!c.is_visible);
}

#[test]
fn set_default_sets_flag() {
    let mut c = Calendar::new("P");
    c.set_default(true);
    assert!(c.is_default);
}

#[test]
fn add_event_appends_and_stamps_calendar_id() {
    let mut c = Calendar::new("P");
    c.add_event(CalendarEvent::new("Meeting"));
    assert_eq!(c.event_count(), 1);
    assert_eq!(c.calendar_events[0].calendar_id.as_deref(), Some(c.id.as_str()));
}

#[test]
fn remove_event_present_returns_it() {
    let mut c = Calendar::new("P");
    let event = CalendarEvent::new("Meeting");
    let id = event.id.clone();
    c.add_event(event);
    assert!(c.remove_event(&id).is_some());
    assert_eq!(c.event_count(), 0);
}

#[test]
fn remove_event_absent_returns_none() {
    let mut c = Calendar::new("P");
    assert!(c.remove_event("nope").is_none());
}

#[test]
fn find_event_and_mut() {
    let mut c = Calendar::new("P");
    let event = CalendarEvent::new("Meeting");
    let id = event.id.clone();
    c.add_event(event);
    assert!(c.find_event(&id).is_some());
    c.find_event_mut(&id).unwrap().set_title("Standup");
    assert_eq!(c.find_event(&id).unwrap().title, "Standup");
}

#[test]
fn event_count_is_correct() {
    let mut c = Calendar::new("P");
    c.add_event(CalendarEvent::new("A"));
    c.add_event(CalendarEvent::new("B"));
    assert_eq!(c.event_count(), 2);
}
