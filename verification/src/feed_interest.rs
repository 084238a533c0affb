//! Feed interests: topics the user follows, with the interaction counts that
//! rank them.
use vstd::prelude::*;
use crate::feed_source::FeedSource;
use crate::ident::{fresh_id, is_ulid_text};
use crate::keyed::{contains_key, has_key, index_of, is_first_with_key, Keyed};
use crate::timestamp::{div_toward_zero, is_clock_reading, nanos_between, Timestamp, NANOS_PER_DAY};

verus! {

/// A followed topic. `explicit_weight` holds the IEEE-754 bits
/// (`f64::to_bits`) of the weight the user gave the topic.
#[derive(Debug, Clone)]
pub struct FeedInterest {
    pub id: String,
    pub created_at: Timestamp,
    pub updated_at: Timestamp,
    pub last_interacted_at: Option<Timestamp>,
    pub topic: String,
    pub sources: Vec<FeedSource>,
    pub explicit_weight: Option<u64>,
    pub open_count: i32,
    pub save_count: i32,
    pub dismiss_count: i32,
}

impl Keyed for FeedInterest {
    open spec fn key(&self) -> Seq<char> {
        self.id@
    }

    fn key_text(&self) -> (r: &String) {
        &self.id
    }
}

impl FeedInterest {
    /// Twice the behavioural signal `opens * 1.0 + saves * 2.5 - dismissals *
    /// 1.5`, kept whole.
    pub open spec fn spec_interaction_points(&self) -> int {
        2 * self.open_count + 5 * self.save_count - 3 * self.dismiss_count
    }

    /// Whole days from creation to `now`, at least 1.
    pub open spec fn spec_age_in_days_at(&self, now: Timestamp) -> int {
        let days = div_toward_zero(nanos_between(self.created_at, now), NANOS_PER_DAY as int);
        if days >= 1 {
            days
        } else {
            1
        }
    }

    /// A new interest in `topic` with a fresh id, stamped now: no sources, no
    /// weight, no interactions.
    pub fn new(topic: &str) -> (i: FeedInterest)
        ensures
            is_ulid_text(i.id@),
            is_clock_reading(i.created_at),
            i.created_at == i.updated_at,
            i.topic@ == topic@,
            i.last_interacted_at is None,
            i.sources@ == Seq::<FeedSource>::empty(),
            i.explicit_weight is None,
            i.open_count == 0,
            i.save_count == 0,
            i.dismiss_count == 0,
    {
        let now = Timestamp::now();
        FeedInterest {
            id: fresh_id(),
            created_at: now,
            updated_at: now,
            last_interacted_at: None,
            topic: topic.to_string(),
            sources: Vec::new(),
            explicit_weight: None,
            open_count: 0,
            save_count: 0,
            dismiss_count: 0,
        }
    }

    fn touch(&mut self)
        ensures
            is_clock_reading(final(self).updated_at),
            *final(self) == (FeedInterest { updated_at: final(self).updated_at, ..*old(self) }),
    {
        self.updated_at = Timestamp::now();
    }

    /// Stamps the last interaction and `updated_at` with one reading of the
    /// clock.
    fn mark_interacted(&mut self)
        ensures
            is_clock_reading(final(self).updated_at),
            *final(self) == (FeedInterest {
                last_interacted_at: Some(final(self).updated_at),
                updated_at: final(self).updated_at,
                ..*old(self)
            }),
    {
        let now = Timestamp::now();
        self.last_interacted_at = Some(now);
        self.updated_at = now;
    }

    /// Counts one more opening and stamps the interaction. The count must
    /// have room to grow.
    pub fn record_open(&mut self)
        requires
            old(self).open_count < i32::MAX,
        ensures
            is_clock_reading(final(self).updated_at),
            *final(self) == (FeedInterest {
                open_count: (old(self).open_count + 1) as i32,
                last_interacted_at: Some(final(self).updated_at),
                updated_at: final(self).updated_at,
                ..*old(self)
            }),
    {
        self.open_count = self.open_count + 1;
        self.mark_interacted();
    }

    /// Counts one more save and stamps the interaction. The count must have
    /// room to grow.
    pub fn record_save(&mut self)
        requires
            old(self).save_count < i32::MAX,
        ensures
            is_clock_reading(final(self).updated_at),
            *final(self) == (FeedInterest {
                save_count: (old(self).save_count + 1) as i32,
                last_interacted_at: Some(final(self).updated_at),
                updated_at: final(self).updated_at,
                ..*old(self)
            }),
    {
        self.save_count = self.save_count + 1;
        self.mark_interacted();
    }

    /// Counts one more dismissal and stamps the interaction. The count must
    /// have room to grow.
    pub fn record_dismiss(&mut self)
        requires
            old(self).dismiss_count < i32::MAX,
        ensures
            is_clock_reading(final(self).updated_at),
            *final(self) == (FeedInterest {
                dismiss_count: (old(self).dismiss_count + 1) as i32,
                last_interacted_at: Some(final(self).updated_at),
                updated_at: final(self).updated_at,
                ..*old(self)
            }),
    {
        self.dismiss_count = self.dismiss_count + 1;
        self.mark_interacted();
    }

    /// Sets or clears the explicit weight (bits of an `f64`) and stamps
    /// `updated_at`.
    pub fn set_weight(&mut self, weight: Option<u64>)
        ensures
            is_clock_reading(final(self).updated_at),
            *final(self) == (FeedInterest {
                explicit_weight: weight,
                updated_at: final(self).updated_at,
                ..*old(self)
            }),
    {
        self.explicit_weight = weight;
        self.touch();
    }

    /// Adds `source` unless a source with its id is already there; only an
    /// actual change stamps `updated_at`.
    pub fn add_source(&mut self, source: FeedSource)
        ensures
            has_key(old(self).sources@, source.id@) ==> *final(self) == *old(self),
            !has_key(old(self).sources@, source.id@) ==> {
                &&& final(self).sources@ == old(self).sources@.push(source)
                &&& is_clock_reading(final(self).updated_at)
                &&& *final(self) == (FeedInterest {
                    sources: final(self).sources,
                    updated_at: final(self).updated_at,
                    ..*old(self)
                })
            },
    {
        if !contains_key(&self.sources, source.id.as_str()) {
            self.sources.push(source);
            self.touch();
        }
    }

    /// Takes out the first source with id `source_id`; stamps `updated_at`
    /// only when one was found.
    pub fn remove_source(&mut self, source_id: &str) -> (r: Option<FeedSource>)
        ensures
            r is None <==> !has_key(old(self).sources@, source_id@),
            r is None ==> *final(self) == *old(self),
            r matches Some(s) ==> exists|i: int|
                {
                    &&& is_first_with_key(old(self).sources@, source_id@, i)
                    &&& s == old(self).sources@[i]
                    &&& final(self).sources@ == old(self).sources@.remove(i)
                },
            r is Some ==> is_clock_reading(final(self).updated_at),
            r is Some ==> *final(self) == (FeedInterest {
                sources: final(self).sources,
                updated_at: final(self).updated_at,
                ..*old(self)
            }),
    {
        match index_of(&self.sources, source_id) {
            Some(i) => {
                let s = self.sources.remove(i);
                self.touch();
                Some(s)
            },
            None => None,
        }
    }

    /// Whether a source with id `source_id` is attached.
    pub fn has_source(&self, source_id: &str) -> (r: bool)
        ensures
            r == has_key(self.sources@, source_id@),
    {
        contains_key(&self.sources, source_id)
    }

    /// Twice the weighted interaction count: `2 * opens + 5 * saves - 3 *
    /// dismissals`. Halved, it is the numerator of the implicit score.
    pub fn interaction_points(&self) -> (r: i64)
        ensures
            r == self.spec_interaction_points(),
    {
        2 * (self.open_count as i64) + 5 * (self.save_count as i64) - 3 * (self.dismiss_count as i64)
    }

    /// Whole days the interest has existed at `now`, never below 1: the
    /// divisor of the implicit score.
    pub fn age_in_days_at(&self, now: &Timestamp) -> (r: i64)
        ensures
            r == self.spec_age_in_days_at(*now),
            r >= 1,
    {
        let days = self.created_at.whole_days_until(now);
        if days >= 1 {
            days
        } else {
            1
        }
    }

    /// Whole days the interest has existed, never below 1.
    pub fn age_in_days(&self) -> (r: i64)
        ensures
            exists|now: Timestamp| is_clock_reading(now) && r == #[trigger] self.spec_age_in_days_at(now),
            r >= 1,
    {
        let now = Timestamp::now();
        self.age_in_days_at(&now)
    }
}

/// Opening or saving raises the interaction points and dismissing lowers
/// them, all else equal.
pub proof fn law_interactions_move_points(i: FeedInterest)
    ensures
        (FeedInterest { open_count: (i.open_count + 1) as i32, ..i }).spec_interaction_points() > i.spec_interaction_points()
            || i.open_count == i32::MAX,
        (FeedInterest { save_count: (i.save_count + 1) as i32, ..i }).spec_interaction_points() > i.spec_interaction_points()
            || i.save_count == i32::MAX,
        (FeedInterest { dismiss_count: (i.dismiss_count + 1) as i32, ..i }).spec_interaction_points() < i.spec_interaction_points()
            || i.dismiss_count == i32::MAX,
{
}

} // verus!
