//! The mathematical model of the store: what every operation does to the
//! key-to-entry map at a given instant.

use vstd::prelude::*;

verus! {

/// What a stored value is, with its strings seen as character sequences.
pub enum ValueView {
    String(Seq<char>),
    Integer(i64),
    List(Seq<Seq<char>>),
    Nil,
}

/// One entry of the store: a value and its absolute expiry instant, if any.
pub struct EntryView {
    pub value: ValueView,
    pub expiry: Option<i64>,
}

/// Why the store turned an operation down; none of these changes the store.
#[derive(Debug, Clone, Copy, PartialEq, Eq, Structural)]
pub enum StoreError {
    /// The value under the key has a type that the operation does not accept.
    WrongType,
    /// The key has no live entry.
    KeyNotFound,
    /// A range reaches past the end of the list.
    OutOfRange,
    /// The integer under the key is already the largest one.
    Overflow,
}

/// The model of the whole store.
pub type StoreView = Map<Seq<char>, EntryView>;

/// No entry holds `Nil`: `Nil` is what a read of a missing key gives, never a
/// stored value.
pub open spec fn holds_no_nil(m: StoreView) -> bool {
    forall|k: Seq<char>| m.contains_key(k) ==> !((#[trigger] m[k]).value is Nil)
}

/// An entry is live at `now` while `now` is before its expiry.
pub open spec fn live(e: EntryView, now: i64) -> bool {
    match e.expiry {
        Some(t) => now < t,
        None => true,
    }
}

/// The key holds an entry that has not expired at `now`.
pub open spec fn is_live(m: StoreView, k: Seq<char>, now: i64) -> bool {
    m.contains_key(k) && live(m[k], now)
}

/// What a read of `k` at `now` sees: the value, or `Nil` when absent or expired.
pub open spec fn lookup(m: StoreView, k: Seq<char>, now: i64) -> ValueView {
    if is_live(m, k, now) {
        m[k].value
    } else {
        ValueView::Nil
    }
}

/// The name of a value's type.
pub open spec fn type_tag(v: ValueView) -> Seq<char> {
    match v {
        ValueView::Integer(_) => seq!['I', 'n', 't', 'e', 'g', 'e', 'r'],
        ValueView::String(_) => seq!['S', 't', 'r', 'i', 'n', 'g'],
        ValueView::List(_) => seq!['L', 'i', 's', 't'],
        ValueView::Nil => seq!['N', 'i', 'l'],
    }
}

/// The four type names differ: only `Nil` has the name of `Nil`.
pub proof fn lemma_type_tags_distinct(v: ValueView)
    ensures
        type_tag(v) == type_tag(ValueView::Nil) <==> v is Nil,
{
    match v {
        ValueView::Nil => {},
        _ => assert(type_tag(v).len() != type_tag(ValueView::Nil).len()),
    }
}

/// The instant `ttl` seconds after `now`, held at the largest instant where
/// the sum would not fit.
pub open spec fn expiry_after(now: i64, ttl: i64) -> i64 {
    if now + ttl > i64::MAX {
        i64::MAX
    } else {
        (now + ttl) as i64
    }
}

/// The store after `k` is set to `v`, with an expiry `ttl` seconds from `now`
/// or none.
pub open spec fn after_insert(
    m: StoreView,
    k: Seq<char>,
    v: ValueView,
    ttl: Option<i64>,
    now: i64,
) -> StoreView {
    m.insert(
        k,
        EntryView {
            value: v,
            expiry: match ttl {
                Some(n) => Some(expiry_after(now, n)),
                None => None,
            },
        },
    )
}

/// The store and the result after an increment of `k` at `now`: an absent
/// key starts at one with no expiry, an integer goes up by one and keeps its
/// expiry, anything else is turned down.
pub open spec fn incr_outcome(m: StoreView, k: Seq<char>, now: i64) -> (StoreView, Result<
    i64,
    StoreError,
>) {
    match lookup(m, k, now) {
        ValueView::Nil => (
            m.insert(k, EntryView { value: ValueView::Integer(1), expiry: None }),
            Ok(1),
        ),
        ValueView::Integer(v) => if v == i64::MAX {
            (m, Err(StoreError::Overflow))
        } else {
            (
                m.insert(
                    k,
                    EntryView { value: ValueView::Integer((v + 1) as i64), expiry: m[k].expiry },
                ),
                Ok((v + 1) as i64),
            )
        },
        _ => (m, Err(StoreError::WrongType)),
    }
}

/// The store and the result after `item` is pushed to the front of the list
/// under `k` at `now`: an absent key gets a list of one item with no expiry.
pub open spec fn push_outcome(m: StoreView, k: Seq<char>, item: Seq<char>, now: i64) -> (
    StoreView,
    Result<(), StoreError>,
) {
    match lookup(m, k, now) {
        ValueView::Nil => (
            m.insert(k, EntryView { value: ValueView::List(seq![item]), expiry: None }),
            Ok(()),
        ),
        ValueView::List(l) => (
            m.insert(
                k,
                EntryView { value: ValueView::List(seq![item] + l), expiry: m[k].expiry },
            ),
            Ok(()),
        ),
        _ => (m, Err(StoreError::WrongType)),
    }
}

/// The items `start` to `stop` inclusive of the list under `k` at `now`; empty
/// where `start` is past `stop`.
pub open spec fn range_result(m: StoreView, k: Seq<char>, start: int, stop: int, now: i64) -> Result<
    Seq<Seq<char>>,
    StoreError,
> {
    match lookup(m, k, now) {
        ValueView::Nil => Err(StoreError::KeyNotFound),
        ValueView::List(l) => if start > stop {
            Ok(Seq::empty())
        } else if stop >= l.len() {
            Err(StoreError::OutOfRange)
        } else {
            Ok(l.subrange(start, stop + 1))
        },
        _ => Err(StoreError::WrongType),
    }
}

/// Seconds left before `k` expires, as seen at `now`: `-1` for an entry with
/// no expiry, `-2` for a key that is absent or past its expiry instant.
pub open spec fn ttl_remaining(m: StoreView, k: Seq<char>, now: i64) -> int {
    if !m.contains_key(k) {
        -2
    } else {
        match m[k].expiry {
            None => -1,
            Some(t) => if now <= t {
                t - now
            } else {
                -2
            },
        }
    }
}

/// The store and the result after `k` is given an expiry `ttl` seconds from
/// `now`: `-2` where the key is not live, `0` where it had no expiry before,
/// `-1` where an expiry was replaced.
pub open spec fn set_ttl_outcome(m: StoreView, k: Seq<char>, ttl: i64, now: i64) -> (
    StoreView,
    int,
) {
    if !is_live(m, k, now) {
        (m, -2)
    } else {
        (
            m.insert(k, EntryView { value: m[k].value, expiry: Some(expiry_after(now, ttl)) }),
            if m[k].expiry is Some {
                -1
            } else {
                0
            },
        )
    }
}

} // verus!
