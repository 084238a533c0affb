//! Lists of entities looked up by their text id: the lookup, insertion and
//! removal rules that every owning model (tags on a task, tasks in a project,
//! blocks in a note, nodes in a graph, ...) shares.
use vstd::prelude::*;

verus! {

/// An entity that carries a text id.
pub trait Keyed {
    /// The entity's id.
    spec fn key(&self) -> Seq<char>;

    /// The entity's id, borrowed.
    fn key_text(&self) -> (r: &String)
        ensures
            r@ == self.key(),
    ;
}

/// Some element of `s` has id `k`.
pub open spec fn has_key<T: Keyed>(s: Seq<T>, k: Seq<char>) -> bool {
    exists|i: int| 0 <= i < s.len() && #[trigger] s[i].key() == k
}

/// `i` is the position of the first element of `s` with id `k`.
pub open spec fn is_first_with_key<T: Keyed>(s: Seq<T>, k: Seq<char>, i: int) -> bool {
    &&& 0 <= i < s.len()
    &&& s[i].key() == k
    &&& forall|j: int| 0 <= j < i ==> #[trigger] s[j].key() != k
}

/// No two elements of `s` share an id.
pub open spec fn keys_unique<T: Keyed>(s: Seq<T>) -> bool {
    forall|i: int, j: int|
        0 <= i < s.len() && 0 <= j < s.len() && i != j ==> #[trigger] s[i].key() != #[trigger] s[j].key()
}

/// `s` with every element whose id is `k` left out, the rest in order.
pub open spec fn without_key<T: Keyed>(s: Seq<T>, k: Seq<char>) -> Seq<T>
    decreases s.len(),
{
    if s.len() == 0 {
        s
    } else {
        let rest = without_key(s.drop_last(), k);
        if s.last().key() == k {
            rest
        } else {
            rest.push(s.last())
        }
    }
}

/// `o` holds text equal to `s`.
pub open spec fn holds_text(o: Option<String>, s: Seq<char>) -> bool {
    o matches Some(x) && x@ == s
}

/// Text equality of two string slices.
pub fn same_text(a: &str, b: &str) -> (r: bool)
    ensures
        r == (a@ == b@),
{
    let x = a.to_string();
    let y = b.to_string();
    x.eq(&y)
}

/// Position of the first element whose id is `id`.
pub fn index_of<T: Keyed>(items: &Vec<T>, id: &str) -> (r: Option<usize>)
    ensures
        r matches Some(i) ==> is_first_with_key(items@, id@, i as int),
        r is None <==> !has_key(items@, id@),
{
    let key = id.to_string();
    let mut i: usize = 0;
    while i < items.len()
        invariant
            key@ == id@,
            0 <= i <= items.len(),
            forall|j: int| 0 <= j < i ==> #[trigger] items@[j].key() != id@,
        decreases items.len() - i,
    {
        if items[i].key_text().eq(&key) {
            return Some(i);
        }
        i += 1;
    }
    None
}

/// Whether some element has id `id`.
pub fn contains_key<T: Keyed>(items: &Vec<T>, id: &str) -> (r: bool)
    ensures
        r == has_key(items@, id@),
{
    index_of(items, id).is_some()
}

/// The first element whose id is `id`, if any.
pub fn find_by_key<'a, T: Keyed>(items: &'a Vec<T>, id: &str) -> (r: Option<&'a T>)
    ensures
        r is None <==> !has_key(items@, id@),
        r matches Some(t) ==> exists|i: int| is_first_with_key(items@, id@, i) && *t == items@[i],
{
    match index_of(items, id) {
        Some(i) => Some(&items[i]),
        None => None,
    }
}

/// Mutable access to the first element whose id is `id`, if any.
pub fn find_by_key_mut<'a, T: Keyed>(items: &'a mut Vec<T>, id: &str) -> (r: Option<&'a mut T>)
    ensures
        r is None <==> !has_key(old(items)@, id@),
        r is None ==> final(items)@ == old(items)@,
        r matches Some(t) ==> exists|i: int|
            {
                &&& is_first_with_key(old(items)@, id@, i)
                &&& *t == old(items)@[i]
                &&& final(items)@ == old(items)@.update(i, *final(t))
            },
{
    match index_of(items, id) {
        Some(i) => Some(&mut items[i]),
        None => None,
    }
}

proof fn lemma_without_key_step<T: Keyed>(s: Seq<T>, k: Seq<char>, j: int)
    requires
        0 <= j < s.len(),
    ensures
        without_key(s.take(j + 1), k) == (if s[j].key() == k {
            without_key(s.take(j), k)
        } else {
            without_key(s.take(j), k).push(s[j])
        }),
{
    assert(s.take(j + 1).drop_last() =~= s.take(j));
    assert(s.take(j + 1).last() == s[j]);
}

/// Removes every element whose id is `id`, keeping the others in order;
/// returns whether anything was removed.
pub fn remove_all_by_key<T: Keyed>(items: &mut Vec<T>, id: &str) -> (removed: bool)
    ensures
        final(items)@ == without_key(old(items)@, id@),
        removed == has_key(old(items)@, id@),
{
    let ghost orig = items@;
    let key = id.to_string();
    let mut i: usize = 0;
    let ghost mut j: int = 0;
    let mut removed = false;
    while i < items.len()
        invariant
            key@ == id@,
            0 <= j <= orig.len(),
            items@ == without_key(orig.take(j), id@) + orig.skip(j),
            i as int == without_key(orig.take(j), id@).len(),
            removed == has_key(orig.take(j), id@),
        decreases orig.len() - j,
    {
        proof {
            assert(items@[i as int] == orig[j]);
            lemma_without_key_step(orig, id@, j);
        }
        if items[i].key_text().eq(&key) {
            items.remove(i);
            removed = true;
            proof {
                assert(orig.take(j + 1)[j] == orig[j]);
            }
        } else {
            i += 1;
            proof {
                assert forall|m: int| 0 <= m < j + 1 && #[trigger] orig.take(j + 1)[m].key() == id@ implies m < j by {}
            }
        }
        proof {
            assert(items@ =~= without_key(orig.take(j + 1), id@) + orig.skip(j + 1));
            j = j + 1;
        }
    }
    proof {
        assert(orig.take(j) =~= orig);
    }
    removed
}

/// After removing id `k`, no element has id `k`.
pub proof fn law_removed_id_absent<T: Keyed>(s: Seq<T>, k: Seq<char>)
    ensures
        !has_key(without_key(s, k), k),
    decreases s.len(),
{
    if s.len() > 0 {
        law_removed_id_absent(s.drop_last(), k);
    }
}

/// Removing id `k` keeps exactly the elements whose id differs from `k`.
pub proof fn law_removal_keeps_other_ids<T: Keyed>(s: Seq<T>, k: Seq<char>, other: Seq<char>)
    requires
        other != k,
    ensures
        has_key(without_key(s, k), other) == has_key(s, other),
    decreases s.len(),
{
    if s.len() > 0 {
        law_removal_keeps_other_ids(s.drop_last(), k, other);
        let p = without_key(s.drop_last(), k);
        let w = without_key(s, k);
        assert(forall|i: int| 0 <= i < p.len() ==> #[trigger] w[i] == p[i]);
        if has_key(s, other) {
            let i = choose|i: int| 0 <= i < s.len() && #[trigger] s[i].key() == other;
            if i < s.len() - 1 {
                assert(s.drop_last()[i].key() == other);
                let i2 = choose|i2: int| 0 <= i2 < p.len() && #[trigger] p[i2].key() == other;
                assert(w[i2].key() == other);
            } else {
                assert(w.last().key() == other);
            }
        }
        if has_key(w, other) {
            let i = choose|i: int| 0 <= i < w.len() && #[trigger] w[i].key() == other;
            if i < p.len() {
                assert(p[i].key() == other);
                let i2 = choose|i2: int| 0 <= i2 < s.drop_last().len() && #[trigger] s.drop_last()[i2].key() == other;
                assert(s[i2].key() == other);
            } else {
                assert(s[s.len() - 1].key() == other);
            }
        }
    }
}

/// Appending an element whose id is new keeps the ids unique.
pub proof fn law_adding_new_id_keeps_ids_unique<T: Keyed>(s: Seq<T>, item: T)
    requires
        keys_unique(s),
        !has_key(s, item.key()),
    ensures
        keys_unique(s.push(item)),
{
    let t = s.push(item);
    assert forall|i: int, j: int|
        0 <= i < t.len() && 0 <= j < t.len() && i != j implies #[trigger] t[i].key() != #[trigger] t[j].key() by {
        if i == s.len() {
            assert(s[j].key() != item.key());
        } else if j == s.len() {
            assert(s[i].key() != item.key());
        }
    }
}

/// Removing elements keeps the ids unique.
pub proof fn law_removal_keeps_ids_unique<T: Keyed>(s: Seq<T>, k: Seq<char>)
    requires
        keys_unique(s),
    ensures
        keys_unique(without_key(s, k)),
    decreases s.len(),
{
    if s.len() > 0 {
        let d = s.drop_last();
        assert(keys_unique(d)) by {
            assert forall|i: int, j: int|
                0 <= i < d.len() && 0 <= j < d.len() && i != j implies #[trigger] d[i].key() != #[trigger] d[j].key() by {
                assert(s[i] == d[i] && s[j] == d[j]);
            }
        }
        law_removal_keeps_ids_unique(d, k);
        if s.last().key() != k {
            let p = without_key(d, k);
            if has_key(p, s.last().key()) {
                law_removal_keeps_other_ids(d, k, s.last().key());
                let j = choose|j: int| 0 <= j < d.len() && #[trigger] d[j].key() == s.last().key();
                assert(s[j].key() == s[s.len() - 1].key());
            }
            law_adding_new_id_keeps_ids_unique(p, s.last());
        }
    }
}

/// Removing an id that no element carries leaves the list as it was.
pub proof fn law_removing_absent_id_changes_nothing<T: Keyed>(s: Seq<T>, k: Seq<char>)
    requires
        !has_key(s, k),
    ensures
        without_key(s, k) == s,
    decreases s.len(),
{
    if s.len() > 0 {
        let d = s.drop_last();
        assert(!has_key(d, k)) by {
            if has_key(d, k) {
                let i = choose|i: int| 0 <= i < d.len() && #[trigger] d[i].key() == k;
                assert(s[i].key() == k);
            }
        }
        law_removing_absent_id_changes_nothing(d, k);
        assert(s.last().key() != k) by {
            assert(s[s.len() - 1].key() != k);
        }
        assert(d.push(s.last()) =~= s);
    }
}

/// After adding an item unless its id is present, the id is present.
pub proof fn law_added_id_present<T: Keyed>(s: Seq<T>, item: T)
    ensures
        has_key(if has_key(s, item.key()) { s } else { s.push(item) }, item.key()),
{
    if !has_key(s, item.key()) {
        assert(s.push(item)[s.len() as int].key() == item.key());
    }
}

/// Appending an item under a new id and then removing that id gives back the
/// list as it was before the append.
pub proof fn law_removal_undoes_append<T: Keyed>(s: Seq<T>, item: T)
    requires
        !has_key(s, item.key()),
    ensures
        without_key(s.push(item), item.key()) == s,
{
    assert(s.push(item).drop_last() =~= s);
    law_removing_absent_id_changes_nothing(s, item.key());
}

/// Taking out the first element with an id just appended under that new id
/// takes out the appended item itself and leaves the list as it was before
/// the append.
pub proof fn law_take_out_undoes_append<T: Keyed>(s: Seq<T>, item: T, i: int)
    requires
        !has_key(s, item.key()),
        is_first_with_key(s.push(item), item.key(), i),
    ensures
        i == s.len(),
        s.push(item)[i] == item,
        s.push(item).remove(i) == s,
{
    if i < s.len() {
        assert(s[i].key() == item.key());
    }
    assert(s.push(item).remove(i) =~= s);
}

} // verus!
