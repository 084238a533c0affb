//! The text codes under which enumerations are stored, and how stored
//! text is read back.
use vstd::prelude::*;
use crate::connection::ConnectionLabel;
use crate::feed_source::SourceType;
use crate::keyed::same_text;
use crate::node::NodeType;
use crate::note::BlockType;
use crate::preferences::{DefaultView, Theme};
use crate::recurrence::{DayOfWeek, Frequency};
use crate::task::{Priority, Status};

verus! {

/// The text held by an optional string.
pub open spec fn opt_text(value: Option<String>) -> Option<Seq<char>> {
    match value {
        Some(s) => Some(s@),
        None => None,
    }
}

/// The stored text code of a `Status`.
pub open spec fn status_code(status: Status) -> Seq<char> {
    match status {
        Status::Todo => "todo"@,
        Status::InProgress => "in_progress"@,
        Status::Done => "done"@,
        Status::Cancelled => "cancelled"@,
    }
}

/// The `Status` stored as `text`, if the text is one of its codes.
pub open spec fn status_from_code(text: Seq<char>) -> Option<Status> {
    if text == "todo"@ {
        Some(Status::Todo)
    } else if text == "in_progress"@ {
        Some(Status::InProgress)
    } else if text == "done"@ {
        Some(Status::Done)
    } else if text == "cancelled"@ {
        Some(Status::Cancelled)
    } else {
        None
    }
}

/// The text code `status` is stored under.
pub fn status_to_db(status: &Status) -> (r: &'static str)
    ensures
        r@ == status_code(*status),
{
    match status {
        Status::Todo => "todo",
        Status::InProgress => "in_progress",
        Status::Done => "done",
        Status::Cancelled => "cancelled",
    }
}

/// Reads back a stored `Status`: `None` for a missing value or unknown text.
pub fn status_from_db(value: Option<String>) -> (r: Option<Status>)
    ensures
        r == (match opt_text(value) {
            Some(t) => status_from_code(t),
            None => None,
        }),
{
    match value {
        Some(text) => {
            let s = text.as_str();
            if same_text(s, "todo") {
                Some(Status::Todo)
            } else             if same_text(s, "in_progress") {
                Some(Status::InProgress)
            } else             if same_text(s, "done") {
                Some(Status::Done)
            } else             if same_text(s, "cancelled") {
                Some(Status::Cancelled)
            } else {
                None
            }
        },
        None => None,
    }
}

/// The stored text code of a `Priority`.
pub open spec fn priority_code(priority: Priority) -> Seq<char> {
    match priority {
        Priority::Low => "low"@,
        Priority::Medium => "medium"@,
        Priority::High => "high"@,
        Priority::Urgent => "urgent"@,
    }
}

/// The `Priority` stored as `text`, if the text is one of its codes.
pub open spec fn priority_from_code(text: Seq<char>) -> Option<Priority> {
    if text == "low"@ {
        Some(Priority::Low)
    } else if text == "medium"@ {
        Some(Priority::Medium)
    } else if text == "high"@ {
        Some(Priority::High)
    } else if text == "urgent"@ {
        Some(Priority::Urgent)
    } else {
        None
    }
}

/// The text code `priority` is stored under.
pub fn priority_to_db(priority: &Priority) -> (r: &'static str)
    ensures
        r@ == priority_code(*priority),
{
    match priority {
        Priority::Low => "low",
        Priority::Medium => "medium",
        Priority::High => "high",
        Priority::Urgent => "urgent",
    }
}

/// Reads back a stored `Priority`: `None` for a missing value or unknown text.
pub fn priority_from_db(value: Option<String>) -> (r: Option<Priority>)
    ensures
        r == (match opt_text(value) {
            Some(t) => priority_from_code(t),
            None => None,
        }),
{
    match value {
        Some(text) => {
            let s = text.as_str();
            if same_text(s, "low") {
                Some(Priority::Low)
            } else             if same_text(s, "medium") {
                Some(Priority::Medium)
            } else             if same_text(s, "high") {
                Some(Priority::High)
            } else             if same_text(s, "urgent") {
                Some(Priority::Urgent)
            } else {
                None
            }
        },
        None => None,
    }
}

/// The stored text code of a `Frequency`.
pub open spec fn frequency_code(frequency: Frequency) -> Seq<char> {
    match frequency {
        Frequency::Daily => "daily"@,
        Frequency::Weekly => "weekly"@,
        Frequency::Monthly => "monthly"@,
        Frequency::Yearly => "yearly"@,
    }
}

/// The `Frequency` stored as `text`, if the text is one of its codes.
pub open spec fn frequency_from_code(text: Seq<char>) -> Option<Frequency> {
    if text == "daily"@ {
        Some(Frequency::Daily)
    } else if text == "weekly"@ {
        Some(Frequency::Weekly)
    } else if text == "monthly"@ {
        Some(Frequency::Monthly)
    } else if text == "yearly"@ {
        Some(Frequency::Yearly)
    } else {
        None
    }
}

/// The text code `frequency` is stored under.
pub fn frequency_to_db(frequency: &Frequency) -> (r: &'static str)
    ensures
        r@ == frequency_code(*frequency),
{
    match frequency {
        Frequency::Daily => "daily",
        Frequency::Weekly => "weekly",
        Frequency::Monthly => "monthly",
        Frequency::Yearly => "yearly",
    }
}

/// Reads back a stored `Frequency`: `None` for a missing value or unknown text.
pub fn frequency_from_db(value: Option<String>) -> (r: Option<Frequency>)
    ensures
        r == (match opt_text(value) {
            Some(t) => frequency_from_code(t),
            None => None,
        }),
{
    match value {
        Some(text) => {
            let s = text.as_str();
            if same_text(s, "daily") {
                Some(Frequency::Daily)
            } else             if same_text(s, "weekly") {
                Some(Frequency::Weekly)
            } else             if same_text(s, "monthly") {
                Some(Frequency::Monthly)
            } else             if same_text(s, "yearly") {
                Some(Frequency::Yearly)
            } else {
                None
            }
        },
        None => None,
    }
}

/// The stored text code of a `DayOfWeek`.
pub open spec fn day_code(day: DayOfWeek) -> Seq<char> {
    match day {
        DayOfWeek::Monday => "monday"@,
        DayOfWeek::Tuesday => "tuesday"@,
        DayOfWeek::Wednesday => "wednesday"@,
        DayOfWeek::Thursday => "thursday"@,
        DayOfWeek::Friday => "friday"@,
        DayOfWeek::Saturday => "saturday"@,
        DayOfWeek::Sunday => "sunday"@,
    }
}

/// The `DayOfWeek` stored as `text`, if the text is one of its codes.
pub open spec fn day_from_code(text: Seq<char>) -> Option<DayOfWeek> {
    if text == "monday"@ {
        Some(DayOfWeek::Monday)
    } else if text == "tuesday"@ {
        Some(DayOfWeek::Tuesday)
    } else if text == "wednesday"@ {
        Some(DayOfWeek::Wednesday)
    } else if text == "thursday"@ {
        Some(DayOfWeek::Thursday)
    } else if text == "friday"@ {
        Some(DayOfWeek::Friday)
    } else if text == "saturday"@ {
        Some(DayOfWeek::Saturday)
    } else if text == "sunday"@ {
        Some(DayOfWeek::Sunday)
    } else {
        None
    }
}

/// The text code `day` is stored under.
pub fn day_to_db(day: &DayOfWeek) -> (r: &'static str)
    ensures
        r@ == day_code(*day),
{
    match day {
        DayOfWeek::Monday => "monday",
        DayOfWeek::Tuesday => "tuesday",
        DayOfWeek::Wednesday => "wednesday",
        DayOfWeek::Thursday => "thursday",
        DayOfWeek::Friday => "friday",
        DayOfWeek::Saturday => "saturday",
        DayOfWeek::Sunday => "sunday",
    }
}

/// Reads back a stored `DayOfWeek`: `None` for unknown text.
pub fn day_from_db(value: &str) -> (r: Option<DayOfWeek>)
    ensures
        r == day_from_code(value@),
{
    if same_text(value, "monday") {
        Some(DayOfWeek::Monday)
    } else     if same_text(value, "tuesday") {
        Some(DayOfWeek::Tuesday)
    } else     if same_text(value, "wednesday") {
        Some(DayOfWeek::Wednesday)
    } else     if same_text(value, "thursday") {
        Some(DayOfWeek::Thursday)
    } else     if same_text(value, "friday") {
        Some(DayOfWeek::Friday)
    } else     if same_text(value, "saturday") {
        Some(DayOfWeek::Saturday)
    } else     if same_text(value, "sunday") {
        Some(DayOfWeek::Sunday)
    } else {
        None
    }
}

/// The stored text code of a `BlockType`.
pub open spec fn block_type_code(block_type: BlockType) -> Seq<char> {
    match block_type {
        BlockType::Text => "text"@,
        BlockType::Drawing => "drawing"@,
        BlockType::Image => "image"@,
        BlockType::Embed => "embed"@,
    }
}

/// The `BlockType` stored as `text`, if the text is one of its codes.
pub open spec fn block_type_from_code(text: Seq<char>) -> Option<BlockType> {
    if text == "text"@ {
        Some(BlockType::Text)
    } else if text == "drawing"@ {
        Some(BlockType::Drawing)
    } else if text == "image"@ {
        Some(BlockType::Image)
    } else if text == "embed"@ {
        Some(BlockType::Embed)
    } else {
        None
    }
}

/// The text code `block_type` is stored under.
pub fn block_type_to_db(block_type: &BlockType) -> (r: &'static str)
    ensures
        r@ == block_type_code(*block_type),
{
    match block_type {
        BlockType::Text => "text",
        BlockType::Drawing => "drawing",
        BlockType::Image => "image",
        BlockType::Embed => "embed",
    }
}

/// Reads back a stored `BlockType`: `None` for a missing value or unknown text.
pub fn block_type_from_db(value: Option<String>) -> (r: Option<BlockType>)
    ensures
        r == (match opt_text(value) {
            Some(t) => block_type_from_code(t),
            None => None,
        }),
{
    match value {
        Some(text) => {
            let s = text.as_str();
            if same_text(s, "text") {
                Some(BlockType::Text)
            } else             if same_text(s, "drawing") {
                Some(BlockType::Drawing)
            } else             if same_text(s, "image") {
                Some(BlockType::Image)
            } else             if same_text(s, "embed") {
                Some(BlockType::Embed)
            } else {
                None
            }
        },
        None => None,
    }
}

/// The stored text code of a `NodeType`.
pub open spec fn node_type_code(node_type: NodeType) -> Seq<char> {
    match node_type {
        NodeType::File => "file"@,
        NodeType::Video => "video"@,
        NodeType::Audio => "audio"@,
        NodeType::Text => "text"@,
        NodeType::Image => "image"@,
    }
}

/// The `NodeType` stored as `text`; unknown text reads as `NodeType::File`.
pub open spec fn node_type_from_code(text: Seq<char>) -> NodeType {
    if text == "video"@ {
        NodeType::Video
    } else if text == "audio"@ {
        NodeType::Audio
    } else if text == "text"@ {
        NodeType::Text
    } else if text == "image"@ {
        NodeType::Image
    } else {
        NodeType::File
    }
}

/// The text code `node_type` is stored under.
pub fn node_type_to_db(node_type: &NodeType) -> (r: &'static str)
    ensures
        r@ == node_type_code(*node_type),
{
    match node_type {
        NodeType::File => "file",
        NodeType::Video => "video",
        NodeType::Audio => "audio",
        NodeType::Text => "text",
        NodeType::Image => "image",
    }
}

/// Reads back a stored `NodeType`; unknown text reads as `NodeType::File`.
pub fn node_type_from_db(value: &str) -> (r: NodeType)
    ensures
        r == node_type_from_code(value@),
{
    if same_text(value, "video") {
        NodeType::Video
    } else     if same_text(value, "audio") {
        NodeType::Audio
    } else     if same_text(value, "text") {
        NodeType::Text
    } else     if same_text(value, "image") {
        NodeType::Image
    } else {
        NodeType::File
    }
}

/// The stored text code of a `ConnectionLabel`.
pub open spec fn label_code(label: ConnectionLabel) -> Seq<char> {
    match label {
        ConnectionLabel::RelatesTo => "relates_to"@,
        ConnectionLabel::CausedBy => "caused_by"@,
        ConnectionLabel::IsA => "is_a"@,
        ConnectionLabel::Uses => "uses"@,
    }
}

/// The `ConnectionLabel` stored as `text`, if the text is one of its codes.
pub open spec fn label_from_code(text: Seq<char>) -> Option<ConnectionLabel> {
    if text == "relates_to"@ {
        Some(ConnectionLabel::RelatesTo)
    } else if text == "caused_by"@ {
        Some(ConnectionLabel::CausedBy)
    } else if text == "is_a"@ {
        Some(ConnectionLabel::IsA)
    } else if text == "uses"@ {
        Some(ConnectionLabel::Uses)
    } else {
        None
    }
}

/// The text code `label` is stored under.
pub fn label_to_db(label: &ConnectionLabel) -> (r: &'static str)
    ensures
        r@ == label_code(*label),
{
    match label {
        ConnectionLabel::RelatesTo => "relates_to",
        ConnectionLabel::CausedBy => "caused_by",
        ConnectionLabel::IsA => "is_a",
        ConnectionLabel::Uses => "uses",
    }
}

/// Reads back a stored `ConnectionLabel`: `None` for a missing value or unknown text.
pub fn label_from_db(value: Option<String>) -> (r: Option<ConnectionLabel>)
    ensures
        r == (match opt_text(value) {
            Some(t) => label_from_code(t),
            None => None,
        }),
{
    match value {
        Some(text) => {
            let s = text.as_str();
            if same_text(s, "relates_to") {
                Some(ConnectionLabel::RelatesTo)
            } else             if same_text(s, "caused_by") {
                Some(ConnectionLabel::CausedBy)
            } else             if same_text(s, "is_a") {
                Some(ConnectionLabel::IsA)
            } else             if same_text(s, "uses") {
                Some(ConnectionLabel::Uses)
            } else {
                None
            }
        },
        None => None,
    }
}

/// The stored text code of a `SourceType`.
pub open spec fn source_type_code(source_type: SourceType) -> Seq<char> {
    match source_type {
        SourceType::Text => "text"@,
        SourceType::Image => "image"@,
        SourceType::Video => "video"@,
        SourceType::Audio => "audio"@,
    }
}

/// The `SourceType` stored as `text`, if the text is one of its codes.
pub open spec fn source_type_from_code(text: Seq<char>) -> Option<SourceType> {
    if text == "text"@ {
        Some(SourceType::Text)
    } else if text == "image"@ {
        Some(SourceType::Image)
    } else if text == "video"@ {
        Some(SourceType::Video)
    } else if text == "audio"@ {
        Some(SourceType::Audio)
    } else {
        None
    }
}

/// The text code `source_type` is stored under.
pub fn source_type_to_db(source_type: &SourceType) -> (r: &'static str)
    ensures
        r@ == source_type_code(*source_type),
{
    match source_type {
        SourceType::Text => "text",
        SourceType::Image => "image",
        SourceType::Video => "video",
        SourceType::Audio => "audio",
    }
}

/// Reads back a stored `SourceType`: `None` for a missing value or unknown text.
pub fn source_type_from_db(value: Option<String>) -> (r: Option<SourceType>)
    ensures
        r == (match opt_text(value) {
            Some(t) => source_type_from_code(t),
            None => None,
        }),
{
    match value {
        Some(text) => {
            let s = text.as_str();
            if same_text(s, "text") {
                Some(SourceType::Text)
            } else             if same_text(s, "image") {
                Some(SourceType::Image)
            } else             if same_text(s, "video") {
                Some(SourceType::Video)
            } else             if same_text(s, "audio") {
                Some(SourceType::Audio)
            } else {
                None
            }
        },
        None => None,
    }
}

/// The stored text code of a `Theme`.
pub open spec fn theme_code(theme: Theme) -> Seq<char> {
    match theme {
        Theme::Light => "light"@,
        Theme::Dark => "dark"@,
    }
}

/// The `Theme` stored as `text`; unknown text reads as `Theme::Light`.
pub open spec fn theme_from_code(text: Seq<char>) -> Theme {
    if text == "dark"@ {
        Theme::Dark
    } else {
        Theme::Light
    }
}

/// The text code `theme` is stored under.
pub fn theme_to_db(theme: &Theme) -> (r: &'static str)
    ensures
        r@ == theme_code(*theme),
{
    match theme {
        Theme::Light => "light",
        Theme::Dark => "dark",
    }
}

/// Reads back a stored `Theme`; unknown text reads as `Theme::Light`.
pub fn theme_from_db(value: &str) -> (r: Theme)
    ensures
        r == theme_from_code(value@),
{
    if same_text(value, "dark") {
        Theme::Dark
    } else {
        Theme::Light
    }
}

/// The stored text code of a `DefaultView`.
pub open spec fn view_code(view: DefaultView) -> Seq<char> {
    match view {
        DefaultView::Graph => "graph"@,
        DefaultView::Feed => "feed"@,
        DefaultView::Tasks => "tasks"@,
        DefaultView::Notes => "notes"@,
        DefaultView::Calendar => "calendar"@,
    }
}

/// The `DefaultView` stored as `text`; unknown text reads as `DefaultView::Graph`.
pub open spec fn view_from_code(text: Seq<char>) -> DefaultView {
    if text == "feed"@ {
        DefaultView::Feed
    } else if text == "tasks"@ {
        DefaultView::Tasks
    } else if text == "notes"@ {
        DefaultView::Notes
    } else if text == "calendar"@ {
        DefaultView::Calendar
    } else {
        DefaultView::Graph
    }
}

/// The text code `view` is stored under.
pub fn view_to_db(view: &DefaultView) -> (r: &'static str)
    ensures
        r@ == view_code(*view),
{
    match view {
        DefaultView::Graph => "graph",
        DefaultView::Feed => "feed",
        DefaultView::Tasks => "tasks",
        DefaultView::Notes => "notes",
        DefaultView::Calendar => "calendar",
    }
}

/// Reads back a stored `DefaultView`; unknown text reads as `DefaultView::Graph`.
pub fn view_from_db(value: &str) -> (r: DefaultView)
    ensures
        r == view_from_code(value@),
{
    if same_text(value, "feed") {
        DefaultView::Feed
    } else     if same_text(value, "tasks") {
        DefaultView::Tasks
    } else     if same_text(value, "notes") {
        DefaultView::Notes
    } else     if same_text(value, "calendar") {
        DefaultView::Calendar
    } else {
        DefaultView::Graph
    }
}

/// Every `Status` reads back as itself from the code it is stored under.
pub proof fn law_status_round_trip(status: Status)
    ensures
        status_from_code(status_code(status)) == Some(status),
{
    reveal_strlit("todo");
    reveal_strlit("in_progress");
    reveal_strlit("done");
    reveal_strlit("cancelled");
    assert("in_progress"@.len() != "todo"@.len());
    assert("done"@[0] != "todo"@[0]);
    assert("done"@.len() != "in_progress"@.len());
    assert("cancelled"@.len() != "todo"@.len());
    assert("cancelled"@.len() != "in_progress"@.len());
    assert("cancelled"@.len() != "done"@.len());
}

/// Every `Priority` reads back as itself from the code it is stored under.
pub proof fn law_priority_round_trip(priority: Priority)
    ensures
        priority_from_code(priority_code(priority)) == Some(priority),
{
    reveal_strlit("low");
    reveal_strlit("medium");
    reveal_strlit("high");
    reveal_strlit("urgent");
    assert("medium"@.len() != "low"@.len());
    assert("high"@.len() != "low"@.len());
    assert("high"@.len() != "medium"@.len());
    assert("urgent"@.len() != "low"@.len());
    assert("urgent"@[0] != "medium"@[0]);
    assert("urgent"@.len() != "high"@.len());
}

/// Every `Frequency` reads back as itself from the code it is stored under.
pub proof fn law_frequency_round_trip(frequency: Frequency)
    ensures
        frequency_from_code(frequency_code(frequency)) == Some(frequency),
{
    reveal_strlit("daily");
    reveal_strlit("weekly");
    reveal_strlit("monthly");
    reveal_strlit("yearly");
    assert("weekly"@.len() != "daily"@.len());
    assert("monthly"@.len() != "daily"@.len());
    assert("monthly"@.len() != "weekly"@.len());
    assert("yearly"@.len() != "daily"@.len());
    assert("yearly"@[0] != "weekly"@[0]);
    assert("yearly"@.len() != "monthly"@.len());
}

/// Every `DayOfWeek` reads back as itself from the code it is stored under.
pub proof fn law_day_round_trip(day: DayOfWeek)
    ensures
        day_from_code(day_code(day)) == Some(day),
{
    reveal_strlit("monday");
    reveal_strlit("tuesday");
    reveal_strlit("wednesday");
    reveal_strlit("thursday");
    reveal_strlit("friday");
    reveal_strlit("saturday");
    reveal_strlit("sunday");
    assert("tuesday"@.len() != "monday"@.len());
    assert("wednesday"@.len() != "monday"@.len());
    assert("wednesday"@.len() != "tuesday"@.len());
    assert("thursday"@.len() != "monday"@.len());
    assert("thursday"@.len() != "tuesday"@.len());
    assert("thursday"@.len() != "wednesday"@.len());
    assert("friday"@[0] != "monday"@[0]);
    assert("friday"@.len() != "tuesday"@.len());
    assert("friday"@.len() != "wednesday"@.len());
    assert("friday"@.len() != "thursday"@.len());
    assert("saturday"@.len() != "monday"@.len());
    assert("saturday"@.len() != "tuesday"@.len());
    assert("saturday"@.len() != "wednesday"@.len());
    assert("saturday"@[0] != "thursday"@[0]);
    assert("saturday"@.len() != "friday"@.len());
    assert("sunday"@[0] != "monday"@[0]);
    assert("sunday"@.len() != "tuesday"@.len());
    assert("sunday"@.len() != "wednesday"@.len());
    assert("sunday"@.len() != "thursday"@.len());
    assert("sunday"@[0] != "friday"@[0]);
    assert("sunday"@.len() != "saturday"@.len());
}

/// Every `BlockType` reads back as itself from the code it is stored under.
pub proof fn law_block_type_round_trip(block_type: BlockType)
    ensures
        block_type_from_code(block_type_code(block_type)) == Some(block_type),
{
    reveal_strlit("text");
    reveal_strlit("drawing");
    reveal_strlit("image");
    reveal_strlit("embed");
    assert("drawing"@.len() != "text"@.len());
    assert("image"@.len() != "text"@.len());
    assert("image"@.len() != "drawing"@.len());
    assert("embed"@.len() != "text"@.len());
    assert("embed"@.len() != "drawing"@.len());
    assert("embed"@[0] != "image"@[0]);
}

/// Every `NodeType` reads back as itself from the code it is stored under.
pub proof fn law_node_type_round_trip(node_type: NodeType)
    ensures
        node_type_from_code(node_type_code(node_type)) == node_type,
{
    reveal_strlit("file");
    reveal_strlit("video");
    reveal_strlit("audio");
    reveal_strlit("text");
    reveal_strlit("image");
    assert("video"@.len() != "file"@.len());
    assert("audio"@.len() != "file"@.len());
    assert("audio"@[0] != "video"@[0]);
    assert("text"@[0] != "file"@[0]);
    assert("text"@.len() != "video"@.len());
    assert("text"@.len() != "audio"@.len());
    assert("image"@.len() != "file"@.len());
    assert("image"@[0] != "video"@[0]);
    assert("image"@[0] != "audio"@[0]);
    assert("image"@.len() != "text"@.len());
}

/// Every `ConnectionLabel` reads back as itself from the code it is stored under.
pub proof fn law_label_round_trip(label: ConnectionLabel)
    ensures
        label_from_code(label_code(label)) == Some(label),
{
    reveal_strlit("relates_to");
    reveal_strlit("caused_by");
    reveal_strlit("is_a");
    reveal_strlit("uses");
    assert("caused_by"@.len() != "relates_to"@.len());
    assert("is_a"@.len() != "relates_to"@.len());
    assert("is_a"@.len() != "caused_by"@.len());
    assert("uses"@.len() != "relates_to"@.len());
    assert("uses"@.len() != "caused_by"@.len());
    assert("uses"@[0] != "is_a"@[0]);
}

/// Every `SourceType` reads back as itself from the code it is stored under.
pub proof fn law_source_type_round_trip(source_type: SourceType)
    ensures
        source_type_from_code(source_type_code(source_type)) == Some(source_type),
{
    reveal_strlit("text");
    reveal_strlit("image");
    reveal_strlit("video");
    reveal_strlit("audio");
    assert("image"@.len() != "text"@.len());
    assert("video"@.len() != "text"@.len());
    assert("video"@[0] != "image"@[0]);
    assert("audio"@.len() != "text"@.len());
    assert("audio"@[0] != "image"@[0]);
    assert("audio"@[0] != "video"@[0]);
}

/// Every `Theme` reads back as itself from the code it is stored under.
pub proof fn law_theme_round_trip(theme: Theme)
    ensures
        theme_from_code(theme_code(theme)) == theme,
{
    reveal_strlit("light");
    reveal_strlit("dark");
    assert("dark"@.len() != "light"@.len());
}

/// Every `DefaultView` reads back as itself from the code it is stored under.
pub proof fn law_view_round_trip(view: DefaultView)
    ensures
        view_from_code(view_code(view)) == view,
{
    reveal_strlit("graph");
    reveal_strlit("feed");
    reveal_strlit("tasks");
    reveal_strlit("notes");
    reveal_strlit("calendar");
    assert("feed"@.len() != "graph"@.len());
    assert("tasks"@[0] != "graph"@[0]);
    assert("tasks"@.len() != "feed"@.len());
    assert("notes"@[0] != "graph"@[0]);
    assert("notes"@.len() != "feed"@.len());
    assert("notes"@[0] != "tasks"@[0]);
    assert("calendar"@.len() != "graph"@.len());
    assert("calendar"@.len() != "feed"@.len());
    assert("calendar"@.len() != "tasks"@.len());
    assert("calendar"@.len() != "notes"@.len());
}

} // verus!
