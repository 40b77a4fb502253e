//! Limits on how much the tools fetch and show.

use vstd::prelude::*;

verus! {

/// Stories returned by a list tool when no limit is given.
pub const DEFAULT_STORY_LIMIT: u32 = 10;

/// Most stories a list tool returns.
pub const MAX_STORY_LIMIT: u32 = 25;

/// Submitted item IDs shown for a user when no limit is given.
pub const DEFAULT_SUBMITTED_LIMIT: u32 = 20;

/// Most submitted item IDs shown for a user.
pub const MAX_SUBMITTED_LIMIT: u32 = 50;

/// Length of the child-list previews of an item.
pub const PREVIEW_LIMIT: usize = 10;

/// Attempts made at each API request before giving up.
pub const HTTP_RETRY_ATTEMPTS: usize = 3;

/// `v` brought into `lo..=hi`.
pub open spec fn clamp_spec(v: int, lo: int, hi: int) -> int {
    if v < lo {
        lo
    } else if v > hi {
        hi
    } else {
        v
    }
}

/// The requested limit, or `default` when none was given, clamped to
/// `1..=max`.
pub fn clamp_limit(value: Option<u32>, default: u32, max: u32) -> (r: usize)
    requires
        1 <= max,
    ensures
        r == clamp_spec(
            match value {
                Some(v) => v,
                None => default,
            } as int,
            1,
            max as int,
        ),
        1 <= r <= max,
{
    let v = value.unwrap_or(default);
    if v < 1 {
        1
    } else if v > max {
        max as usize
    } else {
        v as usize
    }
}

/// The first `n` elements of `s`, or all of them when there are fewer.
pub open spec fn first_n<T>(s: Seq<T>, n: int) -> Seq<T> {
    if s.len() < n {
        s
    } else {
        s.take(n)
    }
}

/// The first `n` values, or all of them when there are fewer.
pub fn take_first<T: Copy>(values: &[T], n: usize) -> (r: Vec<T>)
    ensures
        r@ == first_n(values@, n as int),
{
    let m = if values.len() < n {
        values.len()
    } else {
        n
    };
    let mut r: Vec<T> = Vec::new();
    let mut i: usize = 0;
    while i < m
        invariant
            m <= values@.len(),
            m == values@.len() || m == n,
            i <= m,
            r@ == values@.take(i as int),
        decreases m - i,
    {
        r.push(values[i]);
        i = i + 1;
        proof {
            assert(r@ =~= values@.take(i as int));
        }
    }
    proof {
        assert(values@.len() < n ==> values@.take(m as int) =~= values@);
    }
    r
}

/// The first `PREVIEW_LIMIT` values, or all of them when there are fewer.
pub fn preview<T: Copy>(values: &[T]) -> (r: Vec<T>)
    ensures
        r@ == first_n(values@, PREVIEW_LIMIT as int),
{
    take_first(values, PREVIEW_LIMIT)
}

/// Without a requested limit, a story list holds `DEFAULT_STORY_LIMIT`
/// stories and a user view shows `DEFAULT_SUBMITTED_LIMIT` submitted IDs;
/// a requested limit is brought into `1..=max`, and one already in it is
/// kept.
pub proof fn lemma_limits(requested: int, max: int)
    requires
        1 <= max,
    ensures
        clamp_spec(DEFAULT_STORY_LIMIT as int, 1, MAX_STORY_LIMIT as int) == DEFAULT_STORY_LIMIT,
        clamp_spec(DEFAULT_SUBMITTED_LIMIT as int, 1, MAX_SUBMITTED_LIMIT as int)
            == DEFAULT_SUBMITTED_LIMIT,
        1 <= clamp_spec(requested, 1, max) <= max,
        1 <= requested <= max ==> clamp_spec(requested, 1, max) == requested,
        requested > max ==> clamp_spec(requested, 1, max) == max,
        requested < 1 ==> clamp_spec(requested, 1, max) == 1,
{
}

/// Clamping keeps order: a larger request never gives a smaller limit.
pub proof fn lemma_clamp_monotonic(a: int, b: int, max: int)
    requires
        1 <= max,
        a <= b,
    ensures
        clamp_spec(a, 1, max) <= clamp_spec(b, 1, max),
{
}

/// `first_n(s, n)` is the prefix of `s` of length `min(len, n)`: it keeps
/// the elements of `s` in their order and position.
pub proof fn lemma_first_n_is_prefix<T>(s: Seq<T>, n: int)
    requires
        0 <= n,
    ensures
        first_n(s, n).len() == if s.len() < n {
            s.len() as int
        } else {
            n
        },
        forall|i: int| 0 <= i < first_n(s, n).len() ==> #[trigger] first_n(s, n)[i] == s[i],
{
}

} // verus!
