//! The store: keys mapped to typed values, each with an optional expiry.
//!
//! An entry whose expiry instant has come is treated as absent by every
//! operation. Each operation that depends on the time has a form that takes
//! the current instant (`..._at`) and one that reads the wall clock.

use vstd::prelude::*;
use vstd::hash_map::StringHashMap;
use crate::clock::now_secs;
use crate::model::{
    after_insert, expiry_after, holds_no_nil, lemma_type_tags_distinct, incr_outcome, is_live, live, lookup, push_outcome, range_result,
    set_ttl_outcome, ttl_remaining, type_tag, EntryView, StoreError, StoreView, ValueView,
};

verus! {

/// A value held under a key.
#[derive(Debug, Clone, PartialEq, Eq)]
pub enum Value {
    String(String),
    Integer(i64),
    List(Vec<String>),
    Nil,
}

/// The character sequences of a list of strings.
pub open spec fn strings_view(l: Seq<String>) -> Seq<Seq<char>> {
    l.map_values(|s: String| s@)
}

impl View for Value {
    type V = ValueView;

    open spec fn view(&self) -> ValueView {
        match self {
            Value::String(s) => ValueView::String(s@),
            Value::Integer(i) => ValueView::Integer(*i),
            Value::List(l) => ValueView::List(strings_view(l@)),
            Value::Nil => ValueView::Nil,
        }
    }
}

/// A copy of a list of strings.
fn copy_strings(l: &Vec<String>) -> (r: Vec<String>)
    ensures
        r@ == l@,
{
    let mut r: Vec<String> = Vec::new();
    let mut i: usize = 0;
    while i < l.len()
        invariant
            i <= l.len(),
            r@ == l@.subrange(0, i as int),
        decreases l.len() - i,
    {
        r.push(l[i].clone());
        i += 1;
    }
    assert(r@ =~= l@);
    r
}

impl Value {
    /// A copy of this value.
    pub fn copy(&self) -> (r: Value)
        ensures
            r@ == self@,
    {
        match self {
            Value::String(s) => Value::String(s.clone()),
            Value::Integer(i) => Value::Integer(*i),
            Value::List(l) => Value::List(copy_strings(l)),
            Value::Nil => Value::Nil,
        }
    }
}

/// A stored value with its absolute expiry instant, in seconds since the
/// Unix epoch, if it has one.
#[derive(Debug, Clone, PartialEq, Eq)]
pub struct MapValue {
    pub value: Value,
    pub expiry: Option<i64>,
}

impl View for MapValue {
    type V = EntryView;

    open spec fn view(&self) -> EntryView {
        EntryView { value: self.value@, expiry: self.expiry }
    }
}

/// The instant `ttl` seconds after `now`, or the largest instant.
fn expiry_from(now: i64, ttl: i64) -> (r: i64)
    requires
        ttl > 0,
    ensures
        r == expiry_after(now, ttl),
{
    if now > i64::MAX - ttl {
        i64::MAX
    } else {
        now + ttl
    }
}

/// Whether an entry is live at `now`.
fn entry_live(e: &MapValue, now: i64) -> (r: bool)
    ensures
        r == live(e@, now),
{
    match e.expiry {
        Some(t) => now < t,
        None => true,
    }
}

/// Whether the string `t` spells `k`.
pub(crate) fn is_key(t: &String, k: &str) -> (r: bool)
    ensures
        r == (t@ == k@),
{
    let o = k.to_owned();
    *t == o
}

/// The store: the entries by key, and the list of their keys, each once.
pub struct KeyValueStore {
    map: StringHashMap<MapValue>,
    keys: Vec<String>,
}

impl View for KeyValueStore {
    type V = StoreView;

    closed spec fn view(&self) -> StoreView {
        self.map@.map_values(|e: MapValue| e@)
    }
}

impl KeyValueStore {
    /// An empty store.
    pub fn new() -> (r: KeyValueStore)
        ensures
            r.wf(),
            r@ == Map::<Seq<char>, EntryView>::empty(),
    {
        let r = KeyValueStore { map: StringHashMap::new(), keys: Vec::new() };
        assert(r@ =~= Map::<Seq<char>, EntryView>::empty());
        assert(strings_view(r.keys@) =~= Seq::empty());
        assert(strings_view(r.keys@).to_set() =~= r.map@.dom());
        r
    }

    /// The key list names each key of the map once, and no entry holds `Nil`.
    pub closed spec fn wf(&self) -> bool {
        &&& holds_no_nil(self@)
        &&& strings_view(self.keys@).no_duplicates()
        &&& strings_view(self.keys@).to_set() == self.map@.dom()
    }

    /// The live entry under `key` at `now`, if any.
    fn live_entry(&self, key: &str, now: i64) -> (r: Option<&MapValue>)
        ensures
            match r {
                Some(e) => is_live(self@, key@, now) && e@ == self@[key@],
                None => !is_live(self@, key@, now),
            },
    {
        match self.map.get(key) {
            Some(e) => if entry_live(e, now) {
                Some(e)
            } else {
                None
            },
            None => None,
        }
    }

    /// The value under `key` at `now`: `Nil` where the key is absent or expired.
    pub fn get_value_at(&self, key: &str, now: i64) -> (r: Value)
        requires
            self.wf(),
        ensures
            r@ == lookup(self@, key@, now),
            r@ is Nil <==> !is_live(self@, key@, now),
    {
        match self.live_entry(key, now) {
            Some(e) => e.value.copy(),
            None => Value::Nil,
        }
    }

    /// Sets `key` to the entry `e`.
    fn put(&mut self, key: String, e: MapValue)
        requires
            old(self).wf(),
            !(e.value@ is Nil),
        ensures
            final(self).wf(),
            final(self)@ == old(self)@.insert(key@, e@),
    {
        if !self.map.contains_key(key.as_str()) {
            let ghost old_keys = strings_view(self.keys@);
            self.keys.push(key.clone());
            assert(strings_view(self.keys@) =~= old_keys.push(key@));
            assert(!old_keys.contains(key@));
            assert forall|i: int, j: int|
                0 <= i < j < old_keys.len() + 1 implies old_keys.push(key@)[i] != old_keys.push(
                    key@,
                )[j] by {
                if j == old_keys.len() {
                    assert(old_keys[i] == old_keys.push(key@)[i]);
                }
            }
            proof {
                old_keys.lemma_push_to_set_commute(key@);
            }
        }
        self.map.insert(key, e);
        assert(strings_view(self.keys@).to_set() =~= self.map@.dom());
        assert(self@ =~= old(self)@.insert(key@, e@));
        assert(holds_no_nil(self@));
    }

    /// Drops `key` from the key list and the map.
    fn take_out(&mut self, key: &str)
        requires
            old(self).wf(),
        ensures
            final(self).wf(),
            final(self)@ == old(self)@.remove(key@),
    {
        let ghost old_keys = strings_view(self.keys@);
        let mut i: usize = 0;
        let mut found = false;
        while i < self.keys.len() && !found
            invariant
                self.keys@ == old(self).keys@,
                self.map@ == old(self).map@,
                old_keys == strings_view(self.keys@),
                old_keys.len() == self.keys.len(),
                i <= self.keys.len(),
                found ==> i < self.keys.len() && old_keys[i as int] == key@,
                forall|j: int| 0 <= j < i ==> old_keys[j] != key@,
            decreases self.keys.len() - i + if found { 0int } else { 1int },
        {
            if is_key(&self.keys[i], key) {
                found = true;
            } else {
                i += 1;
            }
        }
        if found {
            let ghost at = i as int;
            assert(old_keys[at] == key@);
            self.keys.remove(i);
            let ghost new_keys = strings_view(self.keys@);
            assert(new_keys =~= old_keys.remove(at));
            assert forall|a: int, b: int| 0 <= a < b < new_keys.len() implies new_keys[a]
                != new_keys[b] by {
                let a2 = if a < at { a } else { a + 1 };
                let b2 = if b < at { b } else { b + 1 };
                assert(new_keys[a] == old_keys[a2] && new_keys[b] == old_keys[b2]);
            }
            assert forall|k: Seq<char>| new_keys.to_set().contains(k) <==> old_keys.to_set().remove(
                key@,
            ).contains(k) by {
                if new_keys.contains(k) {
                    let a = choose|a: int| 0 <= a < new_keys.len() && new_keys[a] == k;
                    let a2 = if a < at { a } else { a + 1 };
                    assert(old_keys[a2] == k && a2 != at);
                }
                if old_keys.contains(k) && k != key@ {
                    let a = choose|a: int| 0 <= a < old_keys.len() && old_keys[a] == k;
                    assert(a != at);
                    let a2 = if a < at { a } else { a - 1 };
                    assert(new_keys[a2] == k);
                }
            }
            assert(new_keys.to_set() =~= old_keys.to_set().remove(key@));
        } else {
            assert(!old_keys.contains(key@));
        }
        self.map.remove(key);
        assert(strings_view(self.keys@).to_set() =~= self.map@.dom());
        assert(self@ =~= old(self)@.remove(key@));
        assert(holds_no_nil(self@));
    }

    /// The type of the value under `key` at `now`.
    pub fn get_type_at(&self, key: &str, now: i64) -> (r: &'static str)
        requires
            self.wf(),
        ensures
            r@ == type_tag(lookup(self@, key@, now)),
            r@ == type_tag(ValueView::Nil) <==> !is_live(self@, key@, now),
    {
        proof {
            reveal_strlit("Integer");
            reveal_strlit("String");
            reveal_strlit("List");
            reveal_strlit("Nil");
            lemma_type_tags_distinct(lookup(self@, key@, now));
            assert(self@.contains_key(key@) ==> !(self@[key@].value is Nil));
        }
        match self.live_entry(key, now) {
            Some(e) => match e.value {
                Value::Integer(_) => "Integer",
                Value::String(_) => "String",
                Value::List(_) => "List",
                Value::Nil => "Nil",
            },
            None => "Nil",
        }
    }

    /// Sets `key` to `value` at `now`, with an expiry `ttl_secs` seconds later
    /// or none; returns whether a live entry was replaced.
    pub fn insert_at(&mut self, key: String, value: Value, ttl_secs: Option<i64>, now: i64) -> (r:
        bool)
        requires
            old(self).wf(),
            !(value@ is Nil),
            ttl_secs matches Some(n) ==> n > 0,
        ensures
            final(self).wf(),
            final(self)@ == after_insert(old(self)@, key@, value@, ttl_secs, now),
            r == is_live(old(self)@, key@, now),
    {
        let replaced = self.live_entry(key.as_str(), now).is_some();
        let expiry = match ttl_secs {
            Some(n) => Some(expiry_from(now, n)),
            None => None,
        };
        self.put(key, MapValue { value, expiry });
        replaced
    }

    /// Removes `key`; returns whether it held a live entry at `now`.
    pub fn remove_at(&mut self, key: &str, now: i64) -> (r: bool)
        requires
            old(self).wf(),
        ensures
            final(self).wf(),
            final(self)@ == old(self)@.remove(key@),
            r == is_live(old(self)@, key@, now),
    {
        let found = self.live_entry(key, now).is_some();
        self.take_out(key);
        found
    }

    /// Adds one to the integer under `key` at `now`; an absent key starts at one.
    pub fn incr_val_at(&mut self, key: &str, now: i64) -> (r: Result<i64, StoreError>)
        requires
            old(self).wf(),
        ensures
            final(self).wf(),
            (final(self)@, r) == incr_outcome(old(self)@, key@, now),
    {
        match self.live_entry(key, now) {
            None => {
                self.put(key.to_owned(), MapValue { value: Value::Integer(1), expiry: None });
                Ok(1)
            },
            Some(e) => match e.value {
                Value::Integer(v) => {
                    if v == i64::MAX {
                        Err(StoreError::Overflow)
                    } else {
                        let expiry = e.expiry;
                        self.put(key.to_owned(), MapValue { value: Value::Integer(v + 1), expiry });
                        Ok(v + 1)
                    }
                },
                _ => Err(StoreError::WrongType),
            },
        }
    }

    /// Puts `value` at the front of the list under `key` at `now`; an absent
    /// key gets a list of that one item.
    pub fn lpush_at(&mut self, key: String, value: String, now: i64) -> (r: Result<(), StoreError>)
        requires
            old(self).wf(),
        ensures
            final(self).wf(),
            (final(self)@, r) == push_outcome(old(self)@, key@, value@, now),
    {
        match self.live_entry(key.as_str(), now) {
            None => {
                let ghost item = value@;
                let mut l: Vec<String> = Vec::new();
                l.push(value);
                assert(strings_view(l@) =~= seq![item]);
                self.put(key, MapValue { value: Value::List(l), expiry: None });
                Ok(())
            },
            Some(e) => match &e.value {
                Value::List(items) => {
                    let ghost item = value@;
                    let mut l = copy_strings(items);
                    let expiry = e.expiry;
                    l.insert(0, value);
                    assert(strings_view(l@) =~= seq![item] + strings_view(items@));
                    self.put(key, MapValue { value: Value::List(l), expiry });
                    Ok(())
                },
                _ => Err(StoreError::WrongType),
            },
        }
    }

    /// The items `start` to `stop` inclusive of the list under `key` at `now`.
    pub fn lrange_at(&self, key: &str, start: usize, stop: usize, now: i64) -> (r: Result<
        Vec<String>,
        StoreError,
    >)
        requires
            self.wf(),
        ensures
            range_result(self@, key@, start as int, stop as int, now) == match r {
                Ok(v) => Ok(strings_view(v@)),
                Err(e) => Err(e),
            },
    {
        match self.live_entry(key, now) {
            None => Err(StoreError::KeyNotFound),
            Some(e) => match &e.value {
                Value::List(items) => {
                    if start > stop {
                        let r: Vec<String> = Vec::new();
                        assert(strings_view(r@) =~= Seq::empty());
                        Ok(r)
                    } else if stop >= items.len() {
                        Err(StoreError::OutOfRange)
                    } else {
                        let mut r: Vec<String> = Vec::new();
                        let mut i: usize = start;
                        while i <= stop
                            invariant
                                start <= i <= stop + 1,
                                stop < items.len(),
                                r@ == items@.subrange(start as int, i as int),
                            decreases stop + 1 - i,
                        {
                            r.push(items[i].clone());
                            i += 1;
                        }
                        assert(strings_view(r@) =~= strings_view(items@).subrange(
                            start as int,
                            stop + 1,
                        ));
                        Ok(r)
                    }
                },
                _ => Err(StoreError::WrongType),
            },
        }
    }

    /// Seconds left before `key` expires, seen at `now`: `-1` where it has no
    /// expiry, `-2` where it is absent or past its expiry instant.
    pub fn get_ttl_at(&self, key: &str, now: i64) -> (r: i64)
        requires
            now >= 0,
        ensures
            r == ttl_remaining(self@, key@, now),
    {
        match self.map.get(key) {
            None => -2,
            Some(e) => match e.expiry {
                None => -1,
                Some(t) => if now <= t {
                    t - now
                } else {
                    -2
                },
            },
        }
    }

    /// Gives the live entry under `key` an expiry `ttl_sec` seconds after `now`:
    /// returns `-2` where there is none, `0` where it had no expiry, `-1` where
    /// an expiry was replaced.
    pub fn set_ttl_at(&mut self, key: &str, ttl_sec: i64, now: i64) -> (r: i8)
        requires
            old(self).wf(),
            ttl_sec > 0,
        ensures
            final(self).wf(),
            (final(self)@, r as int) == set_ttl_outcome(old(self)@, key@, ttl_sec, now),
    {
        match self.live_entry(key, now) {
            None => -2,
            Some(e) => {
                let value = e.value.copy();
                let had = e.expiry.is_some();
                self.put(key.to_owned(), MapValue { value, expiry: Some(expiry_from(now, ttl_sec)) });
                if had {
                    -1
                } else {
                    0
                }
            },
        }
    }

    /// Every entry of the store, each key once; entries past their expiry that
    /// no operation has dropped yet are included.
    pub fn entries(&self) -> (r: Vec<(String, MapValue)>)
        requires
            self.wf(),
        ensures
            r.len() == self@.len(),
            forall|i: int|
                0 <= i < r.len() ==> self@.contains_key(#[trigger] r@[i].0@) && r@[i].1@
                    == self@[r@[i].0@],
            forall|i: int, j: int| 0 <= i < j < r.len() ==> r@[i].0@ != r@[j].0@,
    {
        let ghost ks = strings_view(self.keys@);
        proof {
            ks.unique_seq_to_set();
            assert(self@.dom() =~= self.map@.dom());
        }
        let mut r: Vec<(String, MapValue)> = Vec::new();
        let mut i: usize = 0;
        while i < self.keys.len()
            invariant
                self.wf(),
                ks == strings_view(self.keys@),
                i <= self.keys.len(),
                r.len() == i,
                forall|j: int|
                    0 <= j < i ==> (#[trigger] r@[j]).0@ == ks[j] && self@.contains_key(ks[j])
                        && r@[j].1@ == self@[ks[j]],
            decreases self.keys.len() - i,
        {
            let key = &self.keys[i];
            proof {
                assert(ks.contains(ks[i as int]));
                assert(ks.to_set().contains(ks[i as int]));
                assert(ks[i as int] == key@);
                assert(self.map@.contains_key(key@));
            }
            match self.map.get(key.as_str()) {
                Some(e) => {
                    let ghost before = r@;
                    r.push((key.clone(), MapValue { value: e.value.copy(), expiry: e.expiry }));
                    assert(r@[i as int].1@ == e@);
                    assert(self@[key@] == e@);
                    assert forall|j: int| 0 <= j < i implies r@[j] == before[j] by {}
                },
                None => {},
            }
            i += 1;
        }
        r
    }

    /// The value under `key` now: `Nil` where the key is absent or expired.
    pub fn get_value(&self, key: &str) -> (r: Value)
        requires
            self.wf(),
        ensures
            exists|now: i64| now >= 0 && r@ == lookup(self@, key@, now),
    {
        let now = now_secs();
        let r = self.get_value_at(key, now);
        assert(now >= 0 && r@ == lookup(self@, key@, now));
        r
    }

    /// The type of the value under `key` now.
    pub fn get_type(&self, key: &str) -> (r: &'static str)
        requires
            self.wf(),
        ensures
            exists|now: i64| now >= 0 && r@ == type_tag(lookup(self@, key@, now)),
    {
        let now = now_secs();
        let r = self.get_type_at(key, now);
        assert(now >= 0 && r@ == type_tag(lookup(self@, key@, now)));
        r
    }

    /// Sets `key` to `value`, with an expiry `ttl_secs` seconds from now or
    /// none; returns whether a live entry was replaced.
    pub fn insert(&mut self, key: String, value: Value, ttl_secs: Option<i64>) -> (r: bool)
        requires
            old(self).wf(),
            !(value@ is Nil),
            ttl_secs matches Some(n) ==> n > 0,
        ensures
            final(self).wf(),
            exists|now: i64|
                now >= 0 && final(self)@ == after_insert(old(self)@, key@, value@, ttl_secs, now)
                    && r == is_live(old(self)@, key@, now),
    {
        let now = now_secs();
        self.insert_at(key, value, ttl_secs, now)
    }

    /// Removes `key`; returns whether it held a live entry.
    pub fn remove(&mut self, key: &str) -> (r: bool)
        requires
            old(self).wf(),
        ensures
            final(self).wf(),
            final(self)@ == old(self)@.remove(key@),
            exists|now: i64| now >= 0 && r == is_live(old(self)@, key@, now),
    {
        let now = now_secs();
        self.remove_at(key, now)
    }

    /// Adds one to the integer under `key`; an absent key starts at one.
    pub fn incr_val(&mut self, key: &str) -> (r: Result<i64, StoreError>)
        requires
            old(self).wf(),
        ensures
            final(self).wf(),
            exists|now: i64| now >= 0 && (final(self)@, r) == incr_outcome(old(self)@, key@, now),
    {
        let now = now_secs();
        self.incr_val_at(key, now)
    }

    /// Puts `value` at the front of the list under `key`; an absent key gets a
    /// list of that one item.
    pub fn lpush(&mut self, key: String, value: String) -> (r: Result<(), StoreError>)
        requires
            old(self).wf(),
        ensures
            final(self).wf(),
            exists|now: i64|
                now >= 0 && (final(self)@, r) == push_outcome(old(self)@, key@, value@, now),
    {
        let now = now_secs();
        self.lpush_at(key, value, now)
    }

    /// The items `start` to `stop` inclusive of the list under `key`.
    pub fn lrange(&self, key: &str, start: usize, stop: usize) -> (r: Result<
        Vec<String>,
        StoreError,
    >)
        requires
            self.wf(),
        ensures
            exists|now: i64|
                now >= 0 && range_result(self@, key@, start as int, stop as int, now) == match r {
                    Ok(v) => Ok(strings_view(v@)),
                    Err(e) => Err(e),
                },
    {
        let now = now_secs();
        self.lrange_at(key, start, stop, now)
    }

    /// Seconds left before `key` expires: `-1` where it has no expiry, `-2`
    /// where it is absent or expired.
    pub fn get_ttl(&self, key: &str) -> (r: i64)
        ensures
            exists|now: i64| now >= 0 && r == ttl_remaining(self@, key@, now),
    {
        let now = now_secs();
        self.get_ttl_at(key, now)
    }

    /// Gives the live entry under `key` an expiry `ttl_sec` seconds from now:
    /// returns `-2` where there is none, `0` where it had no expiry, `-1` where
    /// an expiry was replaced.
    pub fn set_ttl(&mut self, key: &str, ttl_sec: i64) -> (r: i8)
        requires
            old(self).wf(),
            ttl_sec > 0,
        ensures
            final(self).wf(),
            exists|now: i64|
                now >= 0 && (final(self)@, r as int) == set_ttl_outcome(
                    old(self)@,
                    key@,
                    ttl_sec,
                    now,
                ),
    {
        let now = now_secs();
        self.set_ttl_at(key, ttl_sec, now)
    }
}

} // verus!
