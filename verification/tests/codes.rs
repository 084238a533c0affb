use explorer::codes::{
    block_type_from_db, block_type_to_db, day_from_db, day_to_db, frequency_from_db,
    frequency_to_db, label_from_db, label_to_db, node_type_from_db, node_type_to_db,
    priority_from_db, priority_to_db, source_type_from_db, source_type_to_db, status_from_db,
    status_to_db, theme_from_db, theme_to_db, view_from_db, view_to_db,
};
use explorer::connection::ConnectionLabel;
use explorer::feed_source::SourceType;
use explorer::node::NodeType;
use explorer::note::BlockType;
use explorer::preferences::{DefaultView, Theme};
use explorer::recurrence::{DayOfWeek, Frequency};
use explorer::task::{Priority, Status};

fn some(s: &str) -> Option<String> {
    Some(s.to_string())
}

#[test]
fn status_codes_round_trip() {
    for s in [Status::Todo, Status::InProgress, Status::Done, Status::Cancelled] {
        assert_eq!(status_from_db(some(status_to_db(&s))), Some(s));
    }
    assert_eq!(status_to_db(&Status::InProgress), "in_progress");
    assert_eq!(status_from_db(some("finished")), None);
    assert_eq!(status_from_db(None), None);
}

#[test]
fn priority_codes_round_trip() {
    for p in [Priority::Low, Priority::Medium, Priority::High, Priority::Urgent] {
        assert_eq!(priority_from_db(some(priority_to_db(&p))), Some(p));
    }
    assert_eq!(priority_to_db(&Priority::Urgent), "urgent");
    assert_eq!(priority_from_db(some("URGENT")), None);
}

#[test]
fn frequency_and_day_codes_round_trip() {
    for f in [Frequency::Daily, Frequency::Weekly, Frequency::Monthly, Frequency::Yearly] {
        assert_eq!(frequency_from_db(some(frequency_to_db(&f))), Some(f));
    }
    let days = [
        DayOfWeek::Monday,
        DayOfWeek::Tuesday,
        DayOfWeek::Wednesday,
        DayOfWeek::Thursday,
        DayOfWeek::Friday,
        DayOfWeek::Saturday,
        DayOfWeek::Sunday,
    ];
    for d in days {
        assert_eq!(day_from_db(day_to_db(&d)), Some(d));
    }
    assert_eq!(day_to_db(&DayOfWeek::Wednesday), "wednesday");
    assert_eq!(day_from_db("funday"), None);
}

#[test]
fn block_label_and_source_codes_round_trip() {
    for b in [BlockType::Text, BlockType::Drawing, BlockType::Image, BlockType::Embed] {
        assert_eq!(block_type_from_db(some(block_type_to_db(&b))), Some(b));
    }
    for l in [ConnectionLabel::RelatesTo, ConnectionLabel::CausedBy, ConnectionLabel::IsA, ConnectionLabel::Uses] {
        assert_eq!(label_from_db(some(label_to_db(&l))), Some(l));
    }
    assert_eq!(label_to_db(&ConnectionLabel::RelatesTo), "relates_to");
    for s in [SourceType::Text, SourceType::Image, SourceType::Video, SourceType::Audio] {
        assert_eq!(source_type_from_db(some(source_type_to_db(&s))), Some(s));
    }
    assert_eq!(block_type_from_db(None), None);
}

#[test]
fn codes_with_fallbacks_read_unknown_text_as_default() {
    for n in [NodeType::File, NodeType::Video, NodeType::Audio, NodeType::Text, NodeType::Image] {
        assert_eq!(node_type_from_db(node_type_to_db(&n)), n);
    }
    assert_eq!(node_type_from_db("hologram"), NodeType::File);
    for t in [Theme::Light, Theme::Dark] {
        assert_eq!(theme_from_db(theme_to_db(&t)), t);
    }
    assert_eq!(theme_from_db("solarized"), Theme::Light);
    for v in [DefaultView::Graph, DefaultView::Feed, DefaultView::Tasks, DefaultView::Notes, DefaultView::Calendar] {
        assert_eq!(view_from_db(view_to_db(&v)), v);
    }
    assert_eq!(view_from_db(""), DefaultView::Graph);
}
