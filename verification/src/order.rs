//! Stable ordering by integer keys, and the integer keys that order
//! double-precision numbers given by their IEEE-754 bits.
use vstd::prelude::*;

verus! {

/// Everything but the sign bit of a double.
pub const MAGNITUDE_MASK: u64 = 0x7fff_ffff_ffff_ffff;

/// Bits of positive infinity; any larger magnitude is a NaN.
pub const INFINITY_BITS: u64 = 0x7ff0_0000_0000_0000;

/// The double with these bits is a NaN.
pub open spec fn is_nan_bits(bits: u64) -> bool {
    (bits & MAGNITUDE_MASK) > INFINITY_BITS
}

/// An integer that orders doubles as their numeric order does: for two
/// doubles that are not NaN, `a < b` exactly when `float_key(a) <
/// float_key(b)`, and `a == b` (so also `-0.0 == 0.0`) exactly when the keys
/// are equal. Same-signed doubles order as their magnitude bits do, and a
/// negative double mirrors its magnitude below zero.
pub open spec fn float_key(bits: u64) -> int {
    let magnitude = (bits & MAGNITUDE_MASK) as int;
    if bits >> 63u64 == 1 {
        -magnitude
    } else {
        magnitude
    }
}

/// Computes `float_key`.
pub fn float_key_of(bits: u64) -> (r: i64)
    ensures
        r == float_key(bits),
        -0x7fff_ffff_ffff_ffff <= r <= 0x7fff_ffff_ffff_ffff,
{
    let m = bits & MAGNITUDE_MASK;
    assert(m <= 0x7fff_ffff_ffff_ffff) by (bit_vector)
        requires
            m == bits & 0x7fff_ffff_ffff_ffff,
    ;
    if bits >> 63u64 == 1 {
        -(m as i64)
    } else {
        m as i64
    }
}

/// Whether the double with these bits is a NaN.
pub fn is_nan(bits: u64) -> (r: bool)
    ensures
        r == is_nan_bits(bits),
{
    (bits & MAGNITUDE_MASK) > INFINITY_BITS
}

/// Index `a` goes before index `b` when sorting by `keys` stably: a smaller
/// key first, and on equal keys the earlier index first.
pub open spec fn precedes(keys: Seq<i64>, a: int, b: int) -> bool {
    keys[a] < keys[b] || (keys[a] == keys[b] && a < b)
}

/// `order` lists each index of `keys` exactly once, arranged as a stable
/// sort by key would arrange them.
pub open spec fn is_stable_order(keys: Seq<i64>, order: Seq<usize>) -> bool {
    &&& order.len() == keys.len()
    &&& forall|k: int| 0 <= k < order.len() ==> #[trigger] order[k] < keys.len()
    &&& forall|k: int, l: int|
        0 <= k < l < order.len() ==> precedes(keys, #[trigger] order[k] as int, #[trigger] order[l] as int)
}

/// Sorts the indices of `keys` stably by key (insertion sort).
pub fn stable_order(keys: &Vec<i64>) -> (order: Vec<usize>)
    ensures
        is_stable_order(keys@, order@),
        order@.no_duplicates(),
{
    let n = keys.len();
    let mut order: Vec<usize> = Vec::new();
    let mut i: usize = 0;
    while i < n
        invariant
            n == keys@.len(),
            0 <= i <= n,
            order@.len() == i,
            forall|k: int| 0 <= k < order@.len() ==> #[trigger] order@[k] < i,
            forall|k: int, l: int|
                0 <= k < l < order@.len() ==> precedes(keys@, #[trigger] order@[k] as int, #[trigger] order@[l] as int),
        decreases n - i,
    {
        let ki = keys[i];
        let mut j: usize = 0;
        while j < order.len() && keys[order[j]] <= ki
            invariant
                n == keys@.len(),
                0 <= i < n,
                ki == keys@[i as int],
                0 <= j <= order@.len(),
                order@.len() == i,
                forall|k: int| 0 <= k < order@.len() ==> #[trigger] order@[k] < i,
                forall|m: int| 0 <= m < j ==> keys@[#[trigger] order@[m] as int] <= ki,
            decreases order@.len() - j,
        {
            j += 1;
        }
        let ghost before = order@;
        proof {
            assert forall|m: int| j <= m < before.len() implies keys@[#[trigger] before[m] as int] > ki by {
                if m > j {
                    assert(precedes(keys@, before[j as int] as int, before[m] as int));
                }
            }
        }
        order.insert(j, i);
        proof {
            let after = order@;
            assert forall|k: int| 0 <= k < after.len() implies #[trigger] after[k] < i + 1 by {
                if k < j {
                    assert(after[k] == before[k]);
                } else if k > j {
                    assert(after[k] == before[k - 1]);
                }
            }
            assert forall|k: int, l: int|
                0 <= k < l < after.len() implies precedes(keys@, #[trigger] after[k] as int, #[trigger] after[l] as int) by {
                if l < j {
                    assert(after[k] == before[k] && after[l] == before[l]);
                } else if l == j {
                    assert(after[k] == before[k]);
                    assert(keys@[before[k] as int] <= ki);
                } else if k < j {
                    assert(after[k] == before[k] && after[l] == before[l - 1]);
                    assert(precedes(keys@, before[k] as int, before[l - 1] as int));
                } else if k == j {
                    assert(after[l] == before[l - 1]);
                    assert(keys@[before[l - 1] as int] > ki);
                } else {
                    assert(after[k] == before[k - 1] && after[l] == before[l - 1]);
                    assert(precedes(keys@, before[k - 1] as int, before[l - 1] as int));
                }
            }
        }
        i += 1;
    }
    proof {
        assert forall|k: int, l: int| 0 <= k < order@.len() && 0 <= l < order@.len() && k != l implies order@[k] != order@[l] by {
            if k < l {
                assert(precedes(keys@, order@[k] as int, order@[l] as int));
            } else {
                assert(precedes(keys@, order@[l] as int, order@[k] as int));
            }
        }
    }
    order
}

/// A stable order is unique: two stable orders of the same keys agree, so
/// `is_stable_order` pins down the arrangement completely.
pub proof fn law_stable_order_unique(keys: Seq<i64>, a: Seq<usize>, b: Seq<usize>)
    requires
        is_stable_order(keys, a),
        is_stable_order(keys, b),
    ensures
        a == b,
{
    lemma_prefix_agrees(keys, a, b, a.len() as int);
    assert(a =~= b);
}

proof fn lemma_entries_distinct(keys: Seq<i64>, order: Seq<usize>)
    requires
        is_stable_order(keys, order),
    ensures
        forall|k: int, l: int| 0 <= k < order.len() && 0 <= l < order.len() && k != l ==> order[k] != order[l],
{
    assert forall|k: int, l: int| 0 <= k < order.len() && 0 <= l < order.len() && k != l implies order[k] != order[l] by {
        if k < l {
            assert(precedes(keys, order[k] as int, order[l] as int));
        } else {
            assert(precedes(keys, order[l] as int, order[k] as int));
        }
    }
}

proof fn lemma_order_covers(keys: Seq<i64>, order: Seq<usize>, y: int)
    requires
        is_stable_order(keys, order),
        0 <= y < keys.len(),
    ensures
        exists|m: int| 0 <= m < order.len() && order[m] as int == y,
{
    let n = keys.len() as int;
    let s = order.map_values(|u: usize| u as int);
    lemma_entries_distinct(keys, order);
    assert(s.no_duplicates()) by {
        assert forall|k: int, l: int| 0 <= k < s.len() && 0 <= l < s.len() && k != l implies s[k] != s[l] by {
            assert(order[k] != order[l]);
        }
    }
    s.unique_seq_to_set();
    vstd::set_lib::lemma_int_range(0, n);
    let range = vstd::set_lib::set_int_range(0, n);
    assert(s.to_set().subset_of(range)) by {
        assert forall|v: int| s.to_set().contains(v) implies range.contains(v) by {
            let m = choose|m: int| 0 <= m < s.len() && s[m] == v;
            assert(order[m] < keys.len());
        }
    }
    vstd::set_lib::lemma_len_subset(s.to_set(), range);
    vstd::set_lib::lemma_subset_equality(s.to_set(), range);
    assert(range.contains(y));
    assert(s.to_set().contains(y));
    let m = choose|m: int| 0 <= m < s.len() && s[m] == y;
    assert(order[m] as int == y);
}

proof fn lemma_prefix_agrees(keys: Seq<i64>, a: Seq<usize>, b: Seq<usize>, k: int)
    requires
        is_stable_order(keys, a),
        is_stable_order(keys, b),
        0 <= k <= a.len(),
    ensures
        forall|j: int| 0 <= j < k ==> a[j] == b[j],
    decreases k,
{
    if k > 0 {
        lemma_prefix_agrees(keys, a, b, k - 1);
        let j = k - 1;
        let x = a[j];
        let y = b[j];
        if x != y {
            lemma_entries_distinct(keys, a);
            lemma_entries_distinct(keys, b);
            if precedes(keys, x as int, y as int) {
                // x sits somewhere in b; not before j (those agree with a and
                // hold other indices), not at j, so after j, behind y
                lemma_order_covers(keys, b, x as int);
                let m = choose|m: int| 0 <= m < b.len() && b[m] as int == x as int;
                if m < j {
                    assert(a[m] == b[m]);
                } else {
                    assert(precedes(keys, b[j] as int, b[m] as int));
                }
            } else {
                assert(precedes(keys, y as int, x as int));
                lemma_order_covers(keys, a, y as int);
                let m = choose|m: int| 0 <= m < a.len() && a[m] as int == y as int;
                if m < j {
                    assert(a[m] == b[m]);
                } else {
                    assert(precedes(keys, a[j] as int, a[m] as int));
                }
            }
        }
    }
}

} // verus!
