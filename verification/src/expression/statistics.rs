//! Order statistics on numbers that are given by integer keys. The
//! evaluator holds its numbers as doubles; the library orders them by keys
//! that are ordered as the doubles are, and tells the evaluator which of
//! the numbers a median or a mode is.
use vstd::prelude::*;

verus! {

/// The bit that holds the sign of a double.
pub const SIGN_BIT: u64 = 0x8000_0000_0000_0000;

/// The bits of positive infinity: every bit of the exponent, none of the
/// fraction. A double without its sign is a number up to this value, and
/// not a number above it.
pub const INFINITY_BITS: u64 = 0x7ff0_0000_0000_0000;

/// The bits of the double without the bit of its sign.
pub open spec fn magnitude(bits: u64) -> int {
    if bits >= SIGN_BIT {
        bits - SIGN_BIT
    } else {
        bits as int
    }
}

/// The key of the double with the bits `bits`: its magnitude, negated for a
/// negative double, so that the keys of two doubles compare as the doubles
/// do, the two zeros being equal. There is no key for what is not a number.
pub open spec fn key_of(bits: u64) -> Option<i64> {
    if magnitude(bits) > INFINITY_BITS {
        None
    } else if bits >= SIGN_BIT {
        Some((-magnitude(bits)) as i64)
    } else {
        Some(magnitude(bits) as i64)
    }
}

/// The key by which a double is ordered, from its bits.
pub fn order_key(bits: u64) -> (key: Option<i64>)
    ensures
        key == key_of(bits),
{
    let negative = bits >= SIGN_BIT;
    let magnitude: u64 = if negative {
        bits - SIGN_BIT
    } else {
        bits
    };
    if magnitude > INFINITY_BITS {
        None
    } else if negative {
        Some(0 - (magnitude as i64))
    } else {
        Some(magnitude as i64)
    }
}

/// How many of the first `n` keys are below `x`.
pub open spec fn count_below(keys: Seq<i64>, x: int, n: nat) -> nat
    decreases n,
{
    if n == 0 || n > keys.len() {
        0
    } else {
        count_below(keys, x, (n - 1) as nat) + if keys[n - 1] < x {
            1nat
        } else {
            0nat
        }
    }
}

/// How many of the first `n` keys are `x`.
pub open spec fn count_equal(keys: Seq<i64>, x: int, n: nat) -> nat
    decreases n,
{
    if n == 0 || n > keys.len() {
        0
    } else {
        count_equal(keys, x, (n - 1) as nat) + if keys[n - 1] == x {
            1nat
        } else {
            0nat
        }
    }
}

/// Whether the key at index `i` is the one that stands at place `k` when
/// the keys are put in ascending order, places counting from 0: at most
/// `k` keys are below it, and more than `k` keys are below it or equal to
/// it.
pub open spec fn has_rank(keys: Seq<i64>, i: int, k: int) -> bool {
    &&& 0 <= i < keys.len()
    &&& count_below(keys, keys[i] as int, keys.len()) <= k
    &&& k < count_below(keys, keys[i] as int, keys.len()) + count_equal(
        keys,
        keys[i] as int,
        keys.len(),
    )
}

/// Whether the key at index `i` is a mode of the keys: no key occurs more
/// often, and no key that occurs as often is smaller.
pub open spec fn is_mode(keys: Seq<i64>, i: int) -> bool {
    &&& 0 <= i < keys.len()
    &&& forall|j: int|
        0 <= j < keys.len() ==> count_equal(keys, #[trigger] keys[j] as int, keys.len())
            <= count_equal(keys, keys[i] as int, keys.len())
    &&& forall|j: int|
        0 <= j < keys.len() && count_equal(keys, #[trigger] keys[j] as int, keys.len())
            == count_equal(keys, keys[i] as int, keys.len()) ==> keys[i] <= keys[j]
}

/// Whether no key before index `i` is the key at `i`.
pub open spec fn is_first(keys: Seq<i64>, i: int) -> bool {
    forall|j: int| 0 <= j < i ==> #[trigger] keys[j] != keys[i]
}

/// Counting among the first `n` keys gives at most `n`, and a key that is
/// among them is counted.
pub proof fn lemma_counts(keys: Seq<i64>, x: int, n: nat)
    requires
        n <= keys.len(),
    ensures
        count_below(keys, x, n) + count_equal(keys, x, n) <= n,
        forall|j: int| 0 <= j < n && #[trigger] keys[j] == x ==> count_equal(keys, x, n) >= 1,
        (forall|j: int| 0 <= j < n ==> !(#[trigger] keys[j] < x)) ==> count_below(keys, x, n) == 0,
        count_below(keys, x, n) + count_equal(keys, x, n) < n ==> exists|j: int|
            0 <= j < n && #[trigger] keys[j] > x,
    decreases n,
{
    if n > 0 {
        lemma_counts(keys, x, (n - 1) as nat);
        if count_below(keys, x, n) + count_equal(keys, x, n) < n {
            if keys[n - 1] > x {
            } else {
                let j = choose|j: int| 0 <= j < n - 1 && #[trigger] keys[j] > x;
            }
        }
    }
}

/// Where exactly the keys up to `x` are below `y`, as many keys are below
/// `y` as are below `x` or equal to it.
pub proof fn lemma_next_key(keys: Seq<i64>, x: int, y: int, n: nat)
    requires
        n <= keys.len(),
        forall|j: int| 0 <= j < n ==> ((#[trigger] keys[j] < y) == (keys[j] <= x)),
    ensures
        count_below(keys, y, n) == count_below(keys, x, n) + count_equal(keys, x, n),
    decreases n,
{
    if n > 0 {
        lemma_next_key(keys, x, y, (n - 1) as nat);
    }
}

/// Among the first `n` keys, of which one is above `x`, one is the
/// smallest of those above `x`.
pub proof fn lemma_smallest_above(keys: Seq<i64>, x: int, n: nat) -> (at: int)
    requires
        n <= keys.len(),
        exists|j: int| 0 <= j < n && #[trigger] keys[j] > x,
    ensures
        0 <= at < n,
        keys[at] > x,
        forall|j: int| 0 <= j < n && #[trigger] keys[j] > x ==> keys[at] <= keys[j],
    decreases n,
{
    let last = n - 1;
    if exists|j: int| 0 <= j < last && #[trigger] keys[j] > x {
        let before = lemma_smallest_above(keys, x, last as nat);
        if keys[last] > x && keys[last] < keys[before] {
            last
        } else {
            before
        }
    } else {
        let j = choose|j: int| 0 <= j < n && #[trigger] keys[j] > x;
        last
    }
}

/// For every place that the keys have, one of the keys stands at that
/// place.
pub proof fn lemma_rank_exists(keys: Seq<i64>, k: nat) -> (at: int)
    requires
        k < keys.len(),
    ensures
        has_rank(keys, at, k as int),
    decreases k,
{
    let n = keys.len();
    if k == 0 {
        let at = lemma_smallest_above(keys, i64::MIN - 1, n);
        lemma_counts(keys, keys[at] as int, n);
        assert forall|j: int| 0 <= j < n implies !(#[trigger] keys[j] < keys[at]) by {}
        at
    } else {
        let before = lemma_rank_exists(keys, (k - 1) as nat);
        let x = keys[before] as int;
        if k < count_below(keys, x, n) + count_equal(keys, x, n) {
            before
        } else {
            lemma_counts(keys, x, n);
            let at = lemma_smallest_above(keys, x, n);
            let y = keys[at] as int;
            assert forall|j: int| 0 <= j < n implies ((#[trigger] keys[j] < y) == (keys[j]
                <= x)) by {}
            lemma_next_key(keys, x, y, n);
            lemma_counts(keys, y, n);
            at
        }
    }
}

/// How many keys are below `x`, and how many are `x`.
fn count_keys(keys: &Vec<i64>, x: i64) -> (counts: (usize, usize))
    ensures
        counts.0 == count_below(keys@, x as int, keys@.len()),
        counts.1 == count_equal(keys@, x as int, keys@.len()),
{
    let mut below: usize = 0;
    let mut equal: usize = 0;
    let mut j: usize = 0;
    while j < keys.len()
        invariant
            j <= keys@.len(),
            below == count_below(keys@, x as int, j as nat),
            equal == count_equal(keys@, x as int, j as nat),
            below + equal <= j,
        decreases keys@.len() - j,
    {
        if keys[j] < x {
            below += 1;
        } else if keys[j] == x {
            equal += 1;
        }
        j += 1;
    }
    (below, equal)
}

/// The first index of the key that stands at place `k` when the keys are
/// put in ascending order, places counting from 0.
pub fn rank_index(keys: &Vec<i64>, k: usize) -> (at: usize)
    requires
        k < keys@.len(),
    ensures
        has_rank(keys@, at as int, k as int),
        forall|j: int| 0 <= j < at ==> !has_rank(keys@, j, k as int),
{
    let mut i: usize = 0;
    while i < keys.len()
        invariant
            i <= keys@.len(),
            k < keys@.len(),
            forall|j: int| 0 <= j < i ==> !has_rank(keys@, j, k as int),
        decreases keys@.len() - i,
    {
        let (below, equal) = count_keys(keys, keys[i]);
        proof {
            lemma_counts(keys@, keys@[i as int] as int, keys@.len());
        }
        if below <= k && k < below + equal {
            return i;
        }
        i += 1;
    }
    // not reached: one of the keys stands at place `k`
    proof {
        lemma_rank_exists(keys@, k as nat);
    }
    0
}

/// The first index of the mode of the keys: of the key that occurs most
/// often, and of the smallest such key where several occur as often.
pub fn mode_index(keys: &Vec<i64>) -> (at: usize)
    requires
        keys@.len() > 0,
    ensures
        is_mode(keys@, at as int),
        is_first(keys@, at as int),
{
    let mut best: usize = 0;
    let (_, mut most) = count_keys(keys, keys[0]);
    let mut i: usize = 1;
    while i < keys.len()
        invariant
            1 <= i <= keys@.len(),
            best < i,
            most == count_equal(keys@, keys@[best as int] as int, keys@.len()),
            forall|j: int|
                0 <= j < i ==> count_equal(keys@, #[trigger] keys@[j] as int, keys@.len()) <= most,
            forall|j: int|
                0 <= j < i && count_equal(keys@, #[trigger] keys@[j] as int, keys@.len()) == most
                    ==> keys@[best as int] <= keys@[j],
            is_first(keys@, best as int),
        decreases keys@.len() - i,
    {
        let (_, equal) = count_keys(keys, keys[i]);
        if equal > most || (equal == most && keys[i] < keys[best]) {
            proof {
                // a key that beats the best so far has not occurred before
                assert forall|j: int| 0 <= j < i implies #[trigger] keys@[j] != keys@[i as int] by {}
            }
            best = i;
            most = equal;
        }
        i += 1;
    }
    best
}

} // verus!
