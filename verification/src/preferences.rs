//! User preferences: display settings, feature switches and feed interests.
use vstd::prelude::*;
use crate::features::Features;
use crate::feed_interest::FeedInterest;
use crate::ident::{fresh_id, is_ulid_text};
use crate::keyed::{find_by_key, find_by_key_mut, has_key, index_of, is_first_with_key};
use crate::order::{float_key, float_key_of, is_nan, is_nan_bits, is_stable_order, stable_order};
use crate::tag::HexColor;
use crate::timestamp::{is_clock_reading, Timestamp};

verus! {

/// Color scheme.
#[derive(Debug, Clone, Copy, PartialEq, Eq, Structural)]
pub enum Theme {
    Light,
    Dark,
}

/// The view the application opens on.
#[derive(Debug, Clone, Copy, PartialEq, Eq, Structural)]
pub enum DefaultView {
    Graph,
    Feed,
    Tasks,
    Notes,
    Calendar,
}

/// A user's preferences.
#[derive(Debug, Clone)]
pub struct Preferences {
    pub id: String,
    pub created_at: Timestamp,
    pub updated_at: Timestamp,
    pub feed_interests: Vec<FeedInterest>,
    pub display_name: String,
    pub theme: Theme,
    pub accent_color: Option<HexColor>,
    pub features: Features,
    pub sidebar_collapsed: bool,
    pub default_view: DefaultView,
}

/// The other theme.
pub open spec fn flipped(theme: Theme) -> Theme {
    match theme {
        Theme::Light => Theme::Dark,
        Theme::Dark => Theme::Light,
    }
}

/// Ranking keys for scores given as `f64` bits: a higher score gets a
/// smaller key, so ordering by key puts the best first.
pub open spec fn rank_keys(scores: Seq<u64>) -> Seq<i64> {
    scores.map_values(|bits: u64| (-float_key(bits)) as i64)
}

/// No score is a NaN.
pub open spec fn scores_comparable(scores: Seq<u64>) -> bool {
    forall|i: int| 0 <= i < scores.len() ==> !is_nan_bits(#[trigger] scores[i])
}

/// Whether some score is a NaN.
pub fn any_nan(scores: &Vec<u64>) -> (r: bool)
    ensures
        r == !scores_comparable(scores@),
{
    let mut i: usize = 0;
    while i < scores.len()
        invariant
            0 <= i <= scores@.len(),
            forall|k: int| 0 <= k < i ==> !is_nan_bits(#[trigger] scores@[k]),
        decreases scores@.len() - i,
    {
        if is_nan(scores[i]) {
            return true;
        }
        i += 1;
    }
    false
}

impl Preferences {
    /// Fresh default preferences: ULID ids, creation and update stamps
    /// equal and read from the clock, light theme, graph view, expanded sidebar, empty display name,
    /// no accent color, every feature on, no feed interests.
    pub open spec fn spec_is_fresh_default(&self) -> bool {
        &&& is_ulid_text(self.id@)
        &&& self.created_at == self.updated_at
        &&& is_clock_reading(self.created_at)
        &&& self.feed_interests@ == Seq::<FeedInterest>::empty()
        &&& self.display_name@ == Seq::<char>::empty()
        &&& self.theme == Theme::Light
        &&& self.accent_color is None
        &&& is_ulid_text(self.features.id@)
        &&& self.features.created_at == self.features.updated_at
        &&& is_clock_reading(self.features.created_at)
        &&& self.features.spec_all(true)
        &&& !self.sidebar_collapsed
        &&& self.default_view == DefaultView::Graph
    }

    /// Default preferences with a fresh id, stamped now: light theme, graph
    /// view, expanded sidebar, empty display name, no accent color, every
    /// feature on, no feed interests.
    pub fn new() -> (p: Preferences)
        ensures
            p.spec_is_fresh_default(),
    {
        let now = Timestamp::now();
        Preferences {
            id: fresh_id(),
            created_at: now,
            updated_at: now,
            feed_interests: Vec::new(),
            display_name: String::new(),
            theme: Theme::Light,
            accent_color: None,
            features: Features::new(),
            sidebar_collapsed: false,
            default_view: DefaultView::Graph,
        }
    }

    fn touch(&mut self)
        ensures
            is_clock_reading(final(self).updated_at),
            *final(self) == (Preferences { updated_at: final(self).updated_at, ..*old(self) }),
    {
        self.updated_at = Timestamp::now();
    }

    /// Changes the display name and stamps `updated_at`.
    pub fn set_display_name(&mut self, display_name: &str)
        ensures
            final(self).display_name@ == display_name@,
            is_clock_reading(final(self).updated_at),
            *final(self) == (Preferences {
                display_name: final(self).display_name,
                updated_at: final(self).updated_at,
                ..*old(self)
            }),
    {
        self.display_name = display_name.to_string();
        self.touch();
    }

    /// Changes the theme and stamps `updated_at`.
    pub fn set_theme(&mut self, theme: Theme)
        ensures
            is_clock_reading(final(self).updated_at),
            *final(self) == (Preferences { theme, updated_at: final(self).updated_at, ..*old(self) }),
    {
        self.theme = theme;
        self.touch();
    }

    /// Switches to the other theme and stamps `updated_at`.
    pub fn toggle_theme(&mut self)
        ensures
            is_clock_reading(final(self).updated_at),
            *final(self) == (Preferences {
                theme: flipped(old(self).theme),
                updated_at: final(self).updated_at,
                ..*old(self)
            }),
    {
        self.theme = match self.theme {
            Theme::Light => Theme::Dark,
            Theme::Dark => Theme::Light,
        };
        self.touch();
    }

    /// Sets or clears the accent color and stamps `updated_at`.
    pub fn set_accent_color(&mut self, accent_color: Option<HexColor>)
        ensures
            is_clock_reading(final(self).updated_at),
            *final(self) == (Preferences { accent_color, updated_at: final(self).updated_at, ..*old(self) }),
    {
        self.accent_color = accent_color;
        self.touch();
    }

    /// Changes the default view and stamps `updated_at`.
    pub fn set_default_view(&mut self, default_view: DefaultView)
        ensures
            is_clock_reading(final(self).updated_at),
            *final(self) == (Preferences { default_view, updated_at: final(self).updated_at, ..*old(self) }),
    {
        self.default_view = default_view;
        self.touch();
    }

    /// Collapses or expands the sidebar and stamps `updated_at`.
    pub fn set_sidebar_collapsed(&mut self, collapsed: bool)
        ensures
            is_clock_reading(final(self).updated_at),
            *final(self) == (Preferences {
                sidebar_collapsed: collapsed,
                updated_at: final(self).updated_at,
                ..*old(self)
            }),
    {
        self.sidebar_collapsed = collapsed;
        self.touch();
    }

    /// Flips the sidebar and stamps `updated_at`.
    pub fn toggle_sidebar(&mut self)
        ensures
            is_clock_reading(final(self).updated_at),
            *final(self) == (Preferences {
                sidebar_collapsed: !old(self).sidebar_collapsed,
                updated_at: final(self).updated_at,
                ..*old(self)
            }),
    {
        self.sidebar_collapsed = !self.sidebar_collapsed;
        self.touch();
    }

    /// Appends `interest` and stamps `updated_at`.
    pub fn add_feed_interest(&mut self, interest: FeedInterest)
        ensures
            final(self).feed_interests@ == old(self).feed_interests@.push(interest),
            is_clock_reading(final(self).updated_at),
            *final(self) == (Preferences {
                feed_interests: final(self).feed_interests,
                updated_at: final(self).updated_at,
                ..*old(self)
            }),
    {
        self.feed_interests.push(interest);
        self.touch();
    }

    /// Takes out the first interest with id `interest_id`; stamps
    /// `updated_at` only when one was found.
    pub fn remove_feed_interest(&mut self, interest_id: &str) -> (r: Option<FeedInterest>)
        ensures
            r is None <==> !has_key(old(self).feed_interests@, interest_id@),
            r is None ==> *final(self) == *old(self),
            r matches Some(x) ==> exists|i: int|
                {
                    &&& is_first_with_key(old(self).feed_interests@, interest_id@, i)
                    &&& x == old(self).feed_interests@[i]
                    &&& final(self).feed_interests@ == old(self).feed_interests@.remove(i)
                },
            r is Some ==> is_clock_reading(final(self).updated_at),
            r is Some ==> *final(self) == (Preferences {
                feed_interests: final(self).feed_interests,
                updated_at: final(self).updated_at,
                ..*old(self)
            }),
    {
        match index_of(&self.feed_interests, interest_id) {
            Some(i) => {
                let x = self.feed_interests.remove(i);
                self.touch();
                Some(x)
            },
            None => None,
        }
    }

    /// The first interest with id `interest_id`, if any.
    pub fn find_feed_interest(&self, interest_id: &str) -> (r: Option<&FeedInterest>)
        ensures
            r is None <==> !has_key(self.feed_interests@, interest_id@),
            r matches Some(x) ==> exists|i: int|
                is_first_with_key(self.feed_interests@, interest_id@, i) && *x == self.feed_interests@[i],
    {
        find_by_key(&self.feed_interests, interest_id)
    }

    /// Mutable access to the first interest with id `interest_id`, if any.
    pub fn find_feed_interest_mut(&mut self, interest_id: &str) -> (r: Option<&mut FeedInterest>)
        ensures
            r is None <==> !has_key(old(self).feed_interests@, interest_id@),
            r is None ==> final(self).feed_interests@ == old(self).feed_interests@,
            r matches Some(x) ==> exists|i: int|
                {
                    &&& is_first_with_key(old(self).feed_interests@, interest_id@, i)
                    &&& *x == old(self).feed_interests@[i]
                    &&& final(self).feed_interests@ == old(self).feed_interests@.update(i, *final(x))
                },
            *final(self) == (Preferences { feed_interests: final(self).feed_interests, ..*old(self) }),
    {
        find_by_key_mut(&mut self.feed_interests, interest_id)
    }

    /// The interests by descending score, equal scores in stored order.
    /// `scores[i]` is the ranking score (the bits of an `f64`) of
    /// `feed_interests[i]`; NaN scores have no place in that order.
    pub fn ranked_interests(&self, scores: &Vec<u64>) -> (r: Vec<&FeedInterest>)
        requires
            scores@.len() == self.feed_interests@.len(),
            scores_comparable(scores@),
        ensures
            exists|order: Seq<usize>|
                {
                    &&& is_stable_order(rank_keys(scores@), order)
                    &&& r@.len() == order.len()
                    &&& forall|k: int| 0 <= k < r@.len() ==> *#[trigger] r@[k] == self.feed_interests@[order[k] as int]
                },
    {
        let mut keys: Vec<i64> = Vec::new();
        let mut i: usize = 0;
        while i < scores.len()
            invariant
                0 <= i <= scores@.len(),
                keys@ == rank_keys(scores@).take(i as int),
            decreases scores@.len() - i,
        {
            let k = float_key_of(scores[i]);
            keys.push(-k);
            proof {
                assert(keys@ =~= rank_keys(scores@).take(i as int + 1));
            }
            i += 1;
        }
        proof {
            assert(keys@ =~= rank_keys(scores@));
        }
        let order = stable_order(&keys);
        let mut out: Vec<&FeedInterest> = Vec::new();
        let mut k: usize = 0;
        while k < order.len()
            invariant
                is_stable_order(keys@, order@),
                keys@ == rank_keys(scores@),
                scores@.len() == self.feed_interests@.len(),
                0 <= k <= order@.len(),
                out@.len() == k,
                forall|m: int| 0 <= m < k ==> *#[trigger] out@[m] == self.feed_interests@[order@[m] as int],
            decreases order@.len() - k,
        {
            out.push(&self.feed_interests[order[k]]);
            k += 1;
        }
        out
    }
}

impl Default for Preferences {
    fn default() -> (p: Preferences)
        ensures
            p.spec_is_fresh_default(),
    {
        Preferences::new()
    }
}

/// Toggling the theme twice restores it.
pub proof fn law_toggle_theme_twice(theme: Theme)
    ensures
        flipped(flipped(theme)) == theme,
        flipped(theme) != theme,
{
}

} // verus!
