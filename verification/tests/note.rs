use explorer::note::{Note, NoteBlock};
use explorer::tag::Tag;

fn bits(x: f64) -> u64 {
    x.to_bits()
}

#[test]
fn note_new_defaults() {
    let n = Note::new("My note");
    assert!(n.note_blocks.is_empty());
    assert!(!n.is_pinned);
    assert!(n.tags.is_empty());
}

#[test]
fn note_set_title_changes_title() {
    let mut n = Note::new("A");
    n.set_title("B");
    assert_eq!(n.title, "B");
    assert!(n.updated_at >= n.created_at);
}

#[test]
fn pin_sets_flag() {
    let mut n = Note::new("A");
    n.pin();
    assert!(n.is_pinned);
}

#[test]
fn unpin_clears_flag() {
    let mut n = Note::new("A");
    n.pin();
    n.unpin();
    assert!(!n.is_pinned);
}

#[test]
fn toggle_pin_flips() {
    let mut n = Note::new("A");
    n.toggle_pin();
    assert!(n.is_pinned);
    n.toggle_pin();
    assert!(!n.is_pinned);
}

#[test]
fn add_block_appends_and_stamps_note_id() {
    let mut n = Note::new("A");
    n.add_block(NoteBlock::new("other-note"));
    assert_eq!(n.note_blocks.len(), 1);
    assert_eq!(n.note_blocks[0].note_id.as_deref(), Some(n.id.as_str()));
}

#[test]
fn remove_block_present_returns_it() {
    let mut n = Note::new("A");
    let block = NoteBlock::new(&n.id);
    let id = block.id.clone();
    n.add_block(block);
    let removed = n.remove_block(&id);
    assert!(removed.is_some());
    assert!(n.note_blocks.is_empty());
}

#[test]
fn remove_block_absent_returns_none() {
    let mut n = Note::new("A");
    assert!(n.remove_block("nope").is_none());
}

#[test]
fn find_block_returns_block() {
    let mut n = Note::new("A");
    let block = NoteBlock::new(&n.id);
    let id = block.id.clone();
    n.add_block(block);
    assert!(n.find_block(&id).is_some());
}

#[test]
fn find_block_mut_allows_edit() {
    let mut n = Note::new("A");
    let block = NoteBlock::new(&n.id);
    let id = block.id.clone();
    n.add_block(block);
    n.find_block_mut(&id).unwrap().set_content("edited");
    assert_eq!(n.find_block(&id).unwrap().content, "edited");
}

#[test]
fn block_count_is_correct() {
    let mut n = Note::new("A");
    let id = n.id.clone();
    n.add_block(NoteBlock::new(&id));
    n.add_block(NoteBlock::new(&id));
    assert_eq!(n.block_count(), 2);
}

#[test]
fn blocks_ordered_sorts_by_position_unpositioned_last() {
    let mut n = Note::new("A");
    let id = n.id.clone();
    n.add_block(NoteBlock::new(&id).with_position(bits(2.0)));
    n.add_block(NoteBlock::new(&id)); // no position
    n.add_block(NoteBlock::new(&id).with_position(bits(1.0)));
    let ordered = n.blocks_ordered();
    assert_eq!(ordered[0].position, Some(bits(1.0)));
    assert_eq!(ordered[1].position, Some(bits(2.0)));
    assert_eq!(ordered[2].position, None);
}

#[test]
fn note_add_tag_adds() {
    let mut n = Note::new("A");
    n.add_tag(Tag::new("t", None));
    assert_eq!(n.tags.len(), 1);
}

#[test]
fn note_add_tag_ignores_duplicate() {
    let mut n = Note::new("A");
    let tag = Tag::new("t", None);
    n.add_tag(tag.clone());
    n.add_tag(tag);
    assert_eq!(n.tags.len(), 1);
}

#[test]
fn note_remove_tag_present_returns_true() {
    let mut n = Note::new("A");
    let tag = Tag::new("t", None);
    let id = tag.id.clone();
    n.add_tag(tag);
    assert!(n.remove_tag(&id));
}

#[test]
fn note_remove_tag_absent_returns_false() {
    let mut n = Note::new("A");
    assert!(!n.remove_tag("nope"));
}

#[test]
fn note_has_tag_reflects_membership() {
    let mut n = Note::new("A");
    let tag = Tag::new("t", None);
    let id = tag.id.clone();
    n.add_tag(tag);
    assert!(n.has_tag(&id));
    assert!(!n.has_tag("nope"));
}

#[test]
fn blocks_ordered_handles_negatives_zeros_and_ties() {
    let mut n = Note::new("A");
    let id = n.id.clone();
    n.add_block(NoteBlock::new(&id).with_position(bits(0.0)).with_content("pos-zero"));
    n.add_block(NoteBlock::new(&id).with_position(bits(-3.5)).with_content("neg"));
    n.add_block(NoteBlock::new(&id).with_content("none"));
    n.add_block(NoteBlock::new(&id).with_position(bits(-0.0)).with_content("neg-zero"));
    n.add_block(NoteBlock::new(&id).with_position(bits(-1.0)).with_content("minus-one"));
    n.add_block(NoteBlock::new(&id).with_position(bits(f64::INFINITY)).with_content("inf"));
    let ordered: Vec<&str> = n.blocks_ordered().iter().map(|b| b.content.as_str()).collect();
    // -0.0 and 0.0 compare equal, so they keep their stored order; an
    // unpositioned block sorts last, after +infinity too.
    assert_eq!(ordered, vec!["neg", "minus-one", "pos-zero", "neg-zero", "inf", "none"]);
}

#[test]
fn blocks_ordered_puts_unpositioned_blocks_last_in_stored_order() {
    let mut n = Note::new("A");
    let id = n.id.clone();
    n.add_block(NoteBlock::new(&id).with_content("first"));
    n.add_block(NoteBlock::new(&id).with_content("second"));
    n.add_block(NoteBlock::new(&id).with_position(bits(f64::MAX)).with_content("max"));
    let ordered: Vec<&str> = n.blocks_ordered().iter().map(|b| b.content.as_str()).collect();
    assert_eq!(ordered, vec!["max", "first", "second"]);
}
