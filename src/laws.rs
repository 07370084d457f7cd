//! Laws of the store, stated over the model and proved.

use vstd::prelude::*;
use crate::cli::{run_outcome, CommandView, ReplyView};
use crate::model::{
    after_insert, holds_no_nil, incr_outcome, is_live, lookup, push_outcome, range_result, set_ttl_outcome,
    ttl_remaining, StoreError, StoreView, ValueView,
};

verus! {

/// Deleting a key that holds no live entry reports that nothing was found and
/// changes nothing that any read can see.
pub proof fn delete_absent_is_no_op(m: StoreView, k: Seq<char>, now: i64)
    requires
        !is_live(m, k, now),
    ensures
        !is_live(m, k, now),
        forall|k2: Seq<char>| lookup(#[trigger] m.remove(k), k2, now) == lookup(m, k2, now),
{
}

/// A second delete of the same key finds nothing and leaves the store as the
/// first one left it.
pub proof fn delete_twice_is_safe(m: StoreView, k: Seq<char>, now: i64)
    ensures
        !is_live(m.remove(k), k, now),
        m.remove(k).remove(k) == m.remove(k),
{
    assert(m.remove(k).remove(k) =~= m.remove(k));
}

/// An increment of a key that holds a string is turned down and leaves the
/// store unchanged.
pub proof fn increment_rejects_string(m: StoreView, k: Seq<char>, now: i64)
    requires
        lookup(m, k, now) is String,
    ensures
        incr_outcome(m, k, now) == (m, Err::<i64, StoreError>(StoreError::WrongType)),
{
}

/// Right after a live key is given a time to live of `n` seconds, it reports
/// `n` seconds left; the count falls strictly as time passes, reaches zero at
/// the expiry instant, and from then on a read sees `Nil`.
pub proof fn ttl_counts_down(m: StoreView, k: Seq<char>, n: i64, now: i64)
    requires
        n > 0,
        is_live(m, k, now),
        now + n <= i64::MAX,
    ensures
        ({
            let m2 = set_ttl_outcome(m, k, n, now).0;
            &&& ttl_remaining(m2, k, now) == n
            &&& forall|t1: i64, t2: i64|
                now <= t1 < t2 <= now + n ==> #[trigger] ttl_remaining(m2, k, t2)
                    < #[trigger] ttl_remaining(m2, k, t1)
            &&& ttl_remaining(m2, k, (now + n) as i64) == 0
            &&& forall|t: i64| t >= now + n ==> #[trigger] lookup(m2, k, t) == ValueView::Nil
        }),
{
}

/// Setting a key without a time to live leaves it with no expiry, whatever it
/// had before.
pub proof fn insert_clears_expiry(m: StoreView, k: Seq<char>, v: ValueView, now: i64)
    ensures
        after_insert(m, k, v, None, now)[k].expiry is None,
        forall|t: i64| #[trigger] ttl_remaining(after_insert(m, k, v, None, now), k, t) == -1,
{
}

/// Pushing `a` and then `b` onto a key with no value gives the list `[b, a]`,
/// and the range from 0 to 1 returns it in that order.
pub proof fn push_prepends(m: StoreView, k: Seq<char>, a: Seq<char>, b: Seq<char>, now: i64)
    requires
        lookup(m, k, now) is Nil,
    ensures
        ({
            let m2 = push_outcome(push_outcome(m, k, a, now).0, k, b, now).0;
            &&& lookup(m2, k, now) == ValueView::List(seq![b, a])
            &&& range_result(m2, k, 0, 1, now) == Ok::<Seq<Seq<char>>, StoreError>(seq![b, a])
        }),
{
    let m1 = push_outcome(m, k, a, now).0;
    let m2 = push_outcome(m1, k, b, now).0;
    assert(seq![b] + seq![a] =~= seq![b, a]);
    assert(seq![b, a].subrange(0, 2) =~= seq![b, a]);
}

/// In a store that holds no `Nil`, a read sees `Nil` exactly when the key has
/// no live entry.
pub proof fn nil_only_when_not_live(m: StoreView, k: Seq<char>, now: i64)
    requires
        holds_no_nil(m),
    ensures
        lookup(m, k, now) is Nil <==> !is_live(m, k, now),
{
}

/// The `INCR` command on a key that holds a string is turned down and leaves
/// the store unchanged.
pub proof fn increment_command_rejects_string(m: StoreView, k: Seq<char>, now: i64)
    requires
        lookup(m, k, now) is String,
    ensures
        run_outcome(m, CommandView::Incr(k), now) == (m, ReplyView::Rejected(
            StoreError::WrongType,
        )),
{
}

/// For an entry with expiry instant `e`, the seconds left fall strictly as
/// time passes up to `e`, and are zero at `e`.
pub proof fn ttl_falls_to_expiry(m: StoreView, k: Seq<char>, e: i64, t1: i64, t2: i64)
    requires
        m.contains_key(k),
        m[k].expiry == Some(e),
        t1 < t2 <= e,
    ensures
        ttl_remaining(m, k, t1) == e - t1,
        ttl_remaining(m, k, t2) == e - t2,
        ttl_remaining(m, k, t2) < ttl_remaining(m, k, t1),
        ttl_remaining(m, k, e) == 0,
{
}

/// `EXPIRE k n` on a live key followed at once by `TTL k` reports `n`.
pub proof fn expire_then_ttl_command(m: StoreView, k: Seq<char>, n: i64, now: i64)
    requires
        n > 0,
        is_live(m, k, now),
        now + n <= i64::MAX,
    ensures
        run_outcome(run_outcome(m, CommandView::Expire(k, n), now).0, CommandView::Ttl(k), now).1
            == ReplyView::Ttl(n as int),
{
}

} // verus!
