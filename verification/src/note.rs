//! Notes made of ordered content blocks, with tags.
use vstd::prelude::*;
use crate::ident::{fresh_id, is_ulid_text};
use crate::keyed::holds_text;
use crate::keyed::{
    contains_key, find_by_key, find_by_key_mut, has_key, index_of, is_first_with_key,
    remove_all_by_key, without_key, Keyed,
};
use crate::order::{float_key, float_key_of, is_nan_bits, is_stable_order, precedes, stable_order};
use crate::tag::Tag;
use crate::timestamp::{is_clock_reading, Timestamp};

verus! {

/// What a block holds.
#[derive(Debug, Clone, Copy, PartialEq, Eq, Structural)]
pub enum BlockType {
    Text,
    Drawing,
    Image,
    Embed,
}

/// One piece of a note. `position` holds the IEEE-754 bits of the block's
/// double-precision position (`f64::to_bits`); blocks are shown in
/// increasing position.
#[derive(Debug, Clone)]
pub struct NoteBlock {
    pub id: String,
    pub created_at: Timestamp,
    pub updated_at: Timestamp,
    pub note_id: Option<String>,
    pub block_type: Option<BlockType>,
    pub content: String,
    pub position: Option<u64>,
}

impl Keyed for NoteBlock {
    open spec fn key(&self) -> Seq<char> {
        self.id@
    }

    fn key_text(&self) -> (r: &String) {
        &self.id
    }
}

impl NoteBlock {
    /// A new, empty, untyped and unpositioned block of note `note_id`, with a
    /// fresh id, stamped now.
    pub fn new(note_id: &str) -> (b: NoteBlock)
        ensures
            is_ulid_text(b.id@),
            is_clock_reading(b.created_at),
            b.created_at == b.updated_at,
            holds_text(b.note_id, note_id@),
            b.block_type is None,
            b.content@ == Seq::<char>::empty(),
            b.position is None,
    {
        let now = Timestamp::now();
        NoteBlock {
            id: fresh_id(),
            created_at: now,
            updated_at: now,
            note_id: Some(note_id.to_string()),
            block_type: None,
            content: String::new(),
            position: None,
        }
    }

    fn touch(&mut self)
        ensures
            is_clock_reading(final(self).updated_at),
            *final(self) == (NoteBlock { updated_at: final(self).updated_at, ..*old(self) }),
    {
        self.updated_at = Timestamp::now();
    }

    /// The same block with the given type.
    pub fn with_type(self, block_type: BlockType) -> (b: NoteBlock)
        ensures
            b == (NoteBlock { block_type: Some(block_type), ..self }),
    {
        let mut b = self;
        b.block_type = Some(block_type);
        b
    }

    /// The same block with the given content.
    pub fn with_content(self, content: &str) -> (b: NoteBlock)
        ensures
            b.content@ == content@,
            b == (NoteBlock { content: b.content, ..self }),
    {
        let mut b = self;
        b.content = content.to_string();
        b
    }

    /// The same block at the given position (the bits of an `f64`).
    pub fn with_position(self, position: u64) -> (b: NoteBlock)
        ensures
            b == (NoteBlock { position: Some(position), ..self }),
    {
        let mut b = self;
        b.position = Some(position);
        b
    }

    /// Rewrites the content and stamps `updated_at`.
    pub fn set_content(&mut self, content: &str)
        ensures
            final(self).content@ == content@,
            is_clock_reading(final(self).updated_at),
            *final(self) == (NoteBlock {
                content: final(self).content,
                updated_at: final(self).updated_at,
                ..*old(self)
            }),
    {
        self.content = content.to_string();
        self.touch();
    }

    /// Sets or clears the type and stamps `updated_at`.
    pub fn set_type(&mut self, block_type: Option<BlockType>)
        ensures
            is_clock_reading(final(self).updated_at),
            *final(self) == (NoteBlock { block_type, updated_at: final(self).updated_at, ..*old(self) }),
    {
        self.block_type = block_type;
        self.touch();
    }

    /// Sets or clears the position and stamps `updated_at`.
    pub fn set_position(&mut self, position: Option<u64>)
        ensures
            is_clock_reading(final(self).updated_at),
            *final(self) == (NoteBlock { position, updated_at: final(self).updated_at, ..*old(self) }),
    {
        self.position = position;
        self.touch();
    }
}

/// The ordering key of a block that has no position: above the key of every
/// double that is not a NaN, infinity included, so unpositioned blocks come
/// after every positioned one.
pub const UNPOSITIONED_KEY: i64 = 0x7fff_ffff_ffff_ffff;

/// The key a block is ordered by: its position, or `UNPOSITIONED_KEY` when
/// it has none.
pub open spec fn block_order_key(b: NoteBlock) -> i64 {
    match b.position {
        Some(bits) => float_key(bits) as i64,
        None => UNPOSITIONED_KEY,
    }
}

/// The ordering keys of a list of blocks.
pub open spec fn block_keys(blocks: Seq<NoteBlock>) -> Seq<i64> {
    blocks.map_values(|b: NoteBlock| block_order_key(b))
}

/// No block's position is a NaN.
pub open spec fn positions_comparable(blocks: Seq<NoteBlock>) -> bool {
    forall|i: int| 0 <= i < blocks.len() ==> (#[trigger] blocks[i].position matches Some(bits) ==> !is_nan_bits(bits))
}

/// A note.
#[derive(Debug, Clone)]
pub struct Note {
    pub id: String,
    pub created_at: Timestamp,
    pub updated_at: Timestamp,
    pub note_blocks: Vec<NoteBlock>,
    pub title: String,
    pub is_pinned: bool,
    pub tags: Vec<Tag>,
}

impl Note {
    /// A new, unpinned note with a fresh id, stamped now, with no blocks or
    /// tags.
    pub fn new(title: &str) -> (n: Note)
        ensures
            is_ulid_text(n.id@),
            is_clock_reading(n.created_at),
            n.created_at == n.updated_at,
            n.title@ == title@,
            n.note_blocks@ == Seq::<NoteBlock>::empty(),
            !n.is_pinned,
            n.tags@ == Seq::<Tag>::empty(),
    {
        let now = Timestamp::now();
        Note {
            id: fresh_id(),
            created_at: now,
            updated_at: now,
            note_blocks: Vec::new(),
            title: title.to_string(),
            is_pinned: false,
            tags: Vec::new(),
        }
    }

    fn touch(&mut self)
        ensures
            is_clock_reading(final(self).updated_at),
            *final(self) == (Note { updated_at: final(self).updated_at, ..*old(self) }),
    {
        self.updated_at = Timestamp::now();
    }

    /// Retitles the note and stamps `updated_at`.
    pub fn set_title(&mut self, title: &str)
        ensures
            final(self).title@ == title@,
            is_clock_reading(final(self).updated_at),
            *final(self) == (Note {
                title: final(self).title,
                updated_at: final(self).updated_at,
                ..*old(self)
            }),
    {
        self.title = title.to_string();
        self.touch();
    }

    /// Pins the note and stamps `updated_at`.
    pub fn pin(&mut self)
        ensures
            is_clock_reading(final(self).updated_at),
            *final(self) == (Note { is_pinned: true, updated_at: final(self).updated_at, ..*old(self) }),
    {
        self.is_pinned = true;
        self.touch();
    }

    /// Unpins the note and stamps `updated_at`.
    pub fn unpin(&mut self)
        ensures
            is_clock_reading(final(self).updated_at),
            *final(self) == (Note { is_pinned: false, updated_at: final(self).updated_at, ..*old(self) }),
    {
        self.is_pinned = false;
        self.touch();
    }

    /// Flips the pin and stamps `updated_at`.
    pub fn toggle_pin(&mut self)
        ensures
            is_clock_reading(final(self).updated_at),
            *final(self) == (Note {
                is_pinned: !old(self).is_pinned,
                updated_at: final(self).updated_at,
                ..*old(self)
            }),
    {
        self.is_pinned = !self.is_pinned;
        self.touch();
    }

    /// Appends `block`, pointed at this note, and stamps `updated_at`.
    pub fn add_block(&mut self, block: NoteBlock)
        ensures
            final(self).note_blocks@.len() == old(self).note_blocks@.len() + 1,
            final(self).note_blocks@.drop_last() == old(self).note_blocks@,
            holds_text(final(self).note_blocks@.last().note_id, old(self).id@),
            final(self).note_blocks@.last() == (NoteBlock {
                note_id: final(self).note_blocks@.last().note_id,
                ..block
            }),
            is_clock_reading(final(self).updated_at),
            *final(self) == (Note {
                note_blocks: final(self).note_blocks,
                updated_at: final(self).updated_at,
                ..*old(self)
            }),
    {
        let mut block = block;
        block.note_id = Some(self.id.clone());
        self.note_blocks.push(block);
        self.touch();
        proof {
            assert(final(self).note_blocks@.drop_last() =~= old(self).note_blocks@);
        }
    }

    /// Takes out the first block with id `block_id`; stamps `updated_at`
    /// only when one was found.
    pub fn remove_block(&mut self, block_id: &str) -> (r: Option<NoteBlock>)
        ensures
            r is None <==> !has_key(old(self).note_blocks@, block_id@),
            r is None ==> *final(self) == *old(self),
            r matches Some(b) ==> exists|i: int|
                {
                    &&& is_first_with_key(old(self).note_blocks@, block_id@, i)
                    &&& b == old(self).note_blocks@[i]
                    &&& final(self).note_blocks@ == old(self).note_blocks@.remove(i)
                },
            r is Some ==> is_clock_reading(final(self).updated_at),
            r is Some ==> *final(self) == (Note {
                note_blocks: final(self).note_blocks,
                updated_at: final(self).updated_at,
                ..*old(self)
            }),
    {
        match index_of(&self.note_blocks, block_id) {
            Some(i) => {
                let b = self.note_blocks.remove(i);
                self.touch();
                Some(b)
            },
            None => None,
        }
    }

    /// The first block with id `block_id`, if any.
    pub fn find_block(&self, block_id: &str) -> (r: Option<&NoteBlock>)
        ensures
            r is None <==> !has_key(self.note_blocks@, block_id@),
            r matches Some(b) ==> exists|i: int|
                is_first_with_key(self.note_blocks@, block_id@, i) && *b == self.note_blocks@[i],
    {
        find_by_key(&self.note_blocks, block_id)
    }

    /// Mutable access to the first block with id `block_id`, if any.
    pub fn find_block_mut(&mut self, block_id: &str) -> (r: Option<&mut NoteBlock>)
        ensures
            r is None <==> !has_key(old(self).note_blocks@, block_id@),
            r is None ==> final(self).note_blocks@ == old(self).note_blocks@,
            r matches Some(b) ==> exists|i: int|
                {
                    &&& is_first_with_key(old(self).note_blocks@, block_id@, i)
                    &&& *b == old(self).note_blocks@[i]
                    &&& final(self).note_blocks@ == old(self).note_blocks@.update(i, *final(b))
                },
            *final(self) == (Note { note_blocks: final(self).note_blocks, ..*old(self) }),
    {
        find_by_key_mut(&mut self.note_blocks, block_id)
    }

    /// Number of blocks.
    pub fn block_count(&self) -> (r: usize)
        ensures
            r == self.note_blocks@.len(),
    {
        self.note_blocks.len()
    }

    /// The blocks in increasing position, unpositioned blocks last, blocks
    /// of equal position in their stored order. Positions must not be NaN:
    /// NaN has no place in that order.
    pub fn blocks_ordered(&self) -> (r: Vec<&NoteBlock>)
        requires
            positions_comparable(self.note_blocks@),
        ensures
            exists|order: Seq<usize>|
                {
                    &&& is_stable_order(block_keys(self.note_blocks@), order)
                    &&& r@.len() == order.len()
                    &&& forall|k: int| 0 <= k < r@.len() ==> *#[trigger] r@[k] == self.note_blocks@[order[k] as int]
                },
            forall|k: int, l: int|
                0 <= k < l < r@.len() && (#[trigger] r@[k]).position is None ==> (#[trigger] r@[l]).position is None,
    {
        let mut keys: Vec<i64> = Vec::new();
        let mut i: usize = 0;
        while i < self.note_blocks.len()
            invariant
                0 <= i <= self.note_blocks@.len(),
                keys@ == block_keys(self.note_blocks@).take(i as int),
            decreases self.note_blocks@.len() - i,
        {
            let k = match self.note_blocks[i].position {
                Some(bits) => float_key_of(bits),
                None => UNPOSITIONED_KEY,
            };
            keys.push(k);
            proof {
                assert(keys@ =~= block_keys(self.note_blocks@).take(i as int + 1));
            }
            i += 1;
        }
        proof {
            assert(keys@ =~= block_keys(self.note_blocks@));
        }
        let order = stable_order(&keys);
        let mut out: Vec<&NoteBlock> = Vec::new();
        let mut k: usize = 0;
        while k < order.len()
            invariant
                is_stable_order(keys@, order@),
                keys@ == block_keys(self.note_blocks@),
                0 <= k <= order@.len(),
                out@.len() == k,
                forall|m: int| 0 <= m < k ==> *#[trigger] out@[m] == self.note_blocks@[order@[m] as int],
            decreases order@.len() - k,
        {
            out.push(&self.note_blocks[order[k]]);
            k += 1;
        }
        proof {
            let blocks = self.note_blocks@;
            assert forall|a: int, b: int|
                0 <= a < b < out@.len() && (#[trigger] out@[a]).position is None implies (#[trigger] out@[b]).position is None by {
                let ia = order@[a] as int;
                let ib = order@[b] as int;
                assert(precedes(keys@, ia, ib));
                assert(keys@[ia] == UNPOSITIONED_KEY);
                if blocks[ib].position is Some {
                    let bits = blocks[ib].position->0;
                    assert(!is_nan_bits(bits));
                    assert(keys@[ib] == float_key(bits));
                }
            }
        }
        out
    }

    /// Attaches `tag` unless a tag with its id is already attached; only an
    /// actual change stamps `updated_at`.
    pub fn add_tag(&mut self, tag: Tag)
        ensures
            has_key(old(self).tags@, tag.id@) ==> *final(self) == *old(self),
            !has_key(old(self).tags@, tag.id@) ==> {
                &&& final(self).tags@ == old(self).tags@.push(tag)
                &&& is_clock_reading(final(self).updated_at)
                &&& *final(self) == (Note {
                    tags: final(self).tags,
                    updated_at: final(self).updated_at,
                    ..*old(self)
                })
            },
    {
        if !contains_key(&self.tags, tag.id.as_str()) {
            self.tags.push(tag);
            self.touch();
        }
    }

    /// Detaches every tag with id `tag_id`; returns whether one was attached.
    /// Only an actual change stamps `updated_at`.
    pub fn remove_tag(&mut self, tag_id: &str) -> (removed: bool)
        ensures
            removed == has_key(old(self).tags@, tag_id@),
            !removed ==> *final(self) == *old(self),
            removed ==> {
                &&& final(self).tags@ == without_key(old(self).tags@, tag_id@)
                &&& is_clock_reading(final(self).updated_at)
                &&& *final(self) == (Note {
                    tags: final(self).tags,
                    updated_at: final(self).updated_at,
                    ..*old(self)
                })
            },
    {
        if contains_key(&self.tags, tag_id) {
            remove_all_by_key(&mut self.tags, tag_id);
            self.touch();
            true
        } else {
            false
        }
    }

    /// Whether a tag with id `tag_id` is attached.
    pub fn has_tag(&self, tag_id: &str) -> (r: bool)
        ensures
            r == has_key(self.tags@, tag_id@),
    {
        contains_key(&self.tags, tag_id)
    }
}

} // verus!
