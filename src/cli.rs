//! The command language: a line's words read as one store operation, and the
//! operation run against the store.

use vstd::prelude::*;
use crate::clock::now_secs;
use crate::map_model::{is_key, strings_view, KeyValueStore, Value};
use crate::model::{
    after_insert, incr_outcome, is_live, lookup, push_outcome, range_result, set_ttl_outcome,
    ttl_remaining, type_tag, StoreError, StoreView, ValueView,
};
use crate::numbers::{i64_of, parse_i64, parse_usize, usize_of};

verus! {

/// Why a line was not read as a command; the store is not touched.
#[derive(Debug, Clone, Copy, PartialEq, Eq, Structural)]
pub enum CommandError {
    /// The line has no words.
    Empty,
    /// The command has the wrong number of words.
    Arity,
    /// `SET` with five words whose fourth is not `EX`.
    Syntax,
    /// A word that must be a number is not one.
    NotANumber,
    /// A number of seconds below the least the command accepts.
    SecondsTooSmall,
    /// The first word names no command.
    Unknown,
}

/// One operation on the store.
#[derive(Debug, Clone, PartialEq, Eq)]
pub enum Command {
    SetKey(String, Value, Option<i64>),
    Get(String),
    Del(String),
    Incr(String),
    Ttl(String),
    Expire(String, i64),
    LPush(String, String),
    LRange(String, usize, usize),
    Type(String),
    Dis,
    Exit,
}

pub enum CommandView {
    SetKey(Seq<char>, ValueView, Option<i64>),
    Get(Seq<char>),
    Del(Seq<char>),
    Incr(Seq<char>),
    Ttl(Seq<char>),
    Expire(Seq<char>, i64),
    LPush(Seq<char>, Seq<char>),
    LRange(Seq<char>, usize, usize),
    Type(Seq<char>),
    Dis,
    Exit,
}

impl View for Command {
    type V = CommandView;

    open spec fn view(&self) -> CommandView {
        match self {
            Command::SetKey(k, v, t) => CommandView::SetKey(k@, v@, *t),
            Command::Get(k) => CommandView::Get(k@),
            Command::Del(k) => CommandView::Del(k@),
            Command::Incr(k) => CommandView::Incr(k@),
            Command::Ttl(k) => CommandView::Ttl(k@),
            Command::Expire(k, n) => CommandView::Expire(k@, *n),
            Command::LPush(k, i) => CommandView::LPush(k@, i@),
            Command::LRange(k, a, b) => CommandView::LRange(k@, *a, *b),
            Command::Type(k) => CommandView::Type(k@),
            Command::Dis => CommandView::Dis,
            Command::Exit => CommandView::Exit,
        }
    }
}

/// A value word: an integer where it reads as one, else the text itself.
pub open spec fn value_of(s: Seq<char>) -> ValueView {
    match i64_of(s) {
        Some(v) => ValueView::Integer(v),
        None => ValueView::String(s),
    }
}

/// The command that a line's words name, or why they name none.
pub open spec fn parse_words(w: Seq<Seq<char>>) -> Result<CommandView, CommandError> {
    if w.len() == 0 {
        Err(CommandError::Empty)
    } else if w[0] == "SET"@ {
        if w.len() != 3 && w.len() != 5 {
            Err(CommandError::Arity)
        } else if w.len() == 3 {
            Ok(CommandView::SetKey(w[1], value_of(w[2]), None))
        } else if w[3] != "EX"@ {
            Err(CommandError::Syntax)
        } else {
            match i64_of(w[4]) {
                None => Err(CommandError::NotANumber),
                Some(n) => if n <= 1 {
                    Err(CommandError::SecondsTooSmall)
                } else {
                    Ok(CommandView::SetKey(w[1], value_of(w[2]), Some(n)))
                },
            }
        }
    } else if w[0] == "GET"@ {
        if w.len() != 2 {
            Err(CommandError::Arity)
        } else {
            Ok(CommandView::Get(w[1]))
        }
    } else if w[0] == "DEL"@ {
        if w.len() != 2 {
            Err(CommandError::Arity)
        } else {
            Ok(CommandView::Del(w[1]))
        }
    } else if w[0] == "INCR"@ {
        if w.len() != 2 {
            Err(CommandError::Arity)
        } else {
            Ok(CommandView::Incr(w[1]))
        }
    } else if w[0] == "TTL"@ {
        if w.len() != 2 {
            Err(CommandError::Arity)
        } else {
            Ok(CommandView::Ttl(w[1]))
        }
    } else if w[0] == "EXPIRE"@ {
        if w.len() != 3 {
            Err(CommandError::Arity)
        } else {
            match i64_of(w[2]) {
                None => Err(CommandError::NotANumber),
                Some(n) => if n <= 0 {
                    Err(CommandError::SecondsTooSmall)
                } else {
                    Ok(CommandView::Expire(w[1], n))
                },
            }
        }
    } else if w[0] == "LPUSH"@ {
        if w.len() != 3 {
            Err(CommandError::Arity)
        } else {
            Ok(CommandView::LPush(w[1], w[2]))
        }
    } else if w[0] == "LRANGE"@ {
        if w.len() != 4 {
            Err(CommandError::Arity)
        } else {
            match (usize_of(w[2]), usize_of(w[3])) {
                (Some(a), Some(b)) => Ok(CommandView::LRange(w[1], a, b)),
                _ => Err(CommandError::NotANumber),
            }
        }
    } else if w[0] == "TYPE"@ {
        if w.len() != 2 {
            Err(CommandError::Arity)
        } else {
            Ok(CommandView::Type(w[1]))
        }
    } else if w[0] == "DIS"@ {
        if w.len() != 1 {
            Err(CommandError::Arity)
        } else {
            Ok(CommandView::Dis)
        }
    } else if w[0] == "EXIT"@ {
        if w.len() != 1 {
            Err(CommandError::Arity)
        } else {
            Ok(CommandView::Exit)
        }
    } else {
        Err(CommandError::Unknown)
    }
}

/// The store accepts the command: it sets no key to `Nil`, and every number
/// of seconds in it is positive.
pub open spec fn command_valid(c: CommandView) -> bool {
    match c {
        CommandView::SetKey(_, v, ttl) => !(v is Nil) && (ttl matches Some(n) ==> n > 0),
        CommandView::Expire(_, n) => n > 0,
        _ => true,
    }
}

/// What running a command gives back.
#[derive(Debug, Clone, PartialEq, Eq)]
pub enum Reply {
    /// `SET` done; whether a live entry was replaced.
    Inserted(bool),
    /// The value read by `GET`.
    Found(Value),
    /// `DEL` done; whether a live entry was there.
    Removed(bool),
    /// The value after `INCR`.
    Incremented(i64),
    /// Seconds left, as `TTL` reports them.
    Ttl(i64),
    /// What `EXPIRE` reports.
    Expire(i8),
    /// `LPUSH` done.
    Pushed,
    /// The items that `LRANGE` selected.
    Range(Vec<String>),
    /// The type name that `TYPE` reports.
    Type(&'static str),
    /// `DIS`: show the store.
    Dump,
    /// `EXIT`: stop reading commands.
    Exit,
    /// The store turned the operation down.
    Rejected(StoreError),
}

pub enum ReplyView {
    Inserted(bool),
    Found(ValueView),
    Removed(bool),
    Incremented(i64),
    Ttl(int),
    Expire(int),
    Pushed,
    Range(Seq<Seq<char>>),
    Type(Seq<char>),
    Dump,
    Exit,
    Rejected(StoreError),
}

impl View for Reply {
    type V = ReplyView;

    open spec fn view(&self) -> ReplyView {
        match self {
            Reply::Inserted(b) => ReplyView::Inserted(*b),
            Reply::Found(v) => ReplyView::Found(v@),
            Reply::Removed(b) => ReplyView::Removed(*b),
            Reply::Incremented(v) => ReplyView::Incremented(*v),
            Reply::Ttl(t) => ReplyView::Ttl(*t as int),
            Reply::Expire(t) => ReplyView::Expire(*t as int),
            Reply::Pushed => ReplyView::Pushed,
            Reply::Range(l) => ReplyView::Range(strings_view(l@)),
            Reply::Type(t) => ReplyView::Type(t@),
            Reply::Dump => ReplyView::Dump,
            Reply::Exit => ReplyView::Exit,
            Reply::Rejected(e) => ReplyView::Rejected(*e),
        }
    }
}

/// The store and the reply after running `c` at `now`.
pub open spec fn run_outcome(m: StoreView, c: CommandView, now: i64) -> (StoreView, ReplyView) {
    match c {
        CommandView::SetKey(k, v, ttl) => (
            after_insert(m, k, v, ttl, now),
            ReplyView::Inserted(is_live(m, k, now)),
        ),
        CommandView::Get(k) => (m, ReplyView::Found(lookup(m, k, now))),
        CommandView::Del(k) => (m.remove(k), ReplyView::Removed(is_live(m, k, now))),
        CommandView::Incr(k) => (
            incr_outcome(m, k, now).0,
            match incr_outcome(m, k, now).1 {
                Ok(v) => ReplyView::Incremented(v),
                Err(e) => ReplyView::Rejected(e),
            },
        ),
        CommandView::Ttl(k) => (m, ReplyView::Ttl(ttl_remaining(m, k, now))),
        CommandView::Expire(k, n) => (
            set_ttl_outcome(m, k, n, now).0,
            ReplyView::Expire(set_ttl_outcome(m, k, n, now).1),
        ),
        CommandView::LPush(k, i) => (
            push_outcome(m, k, i, now).0,
            match push_outcome(m, k, i, now).1 {
                Ok(_) => ReplyView::Pushed,
                Err(e) => ReplyView::Rejected(e),
            },
        ),
        CommandView::LRange(k, a, b) => (
            m,
            match range_result(m, k, a as int, b as int, now) {
                Ok(l) => ReplyView::Range(l),
                Err(e) => ReplyView::Rejected(e),
            },
        ),
        CommandView::Type(k) => (m, ReplyView::Type(type_tag(lookup(m, k, now)))),
        CommandView::Dis => (m, ReplyView::Dump),
        CommandView::Exit => (m, ReplyView::Exit),
    }
}

/// The pieces of `s` between single spaces, in order, empty ones included.
pub open spec fn space_pieces(s: Seq<char>) -> Seq<Seq<char>>
    decreases s.len(),
{
    if s.len() == 0 {
        seq![Seq::empty()]
    } else {
        let rest = space_pieces(s.drop_last());
        if s.last() == ' ' {
            rest.push(Seq::empty())
        } else {
            rest.update(rest.len() - 1, rest.last().push(s.last()))
        }
    }
}

/// The pieces that are not empty.
pub open spec fn nonempty_pieces(ps: Seq<Seq<char>>) -> Seq<Seq<char>> {
    ps.filter(|w: Seq<char>| w.len() > 0)
}

/// The words of a line: what stands between spaces, runs of spaces counting
/// as one.
pub open spec fn words_of(line: Seq<char>) -> Seq<Seq<char>> {
    nonempty_pieces(space_pieces(line))
}

/// Relies on `str::split(' ')`: the pieces of `s` between single spaces, in
/// order, with an empty piece before, between or after spaces where nothing
/// stands there.
#[verifier::external_body]
fn split_spaces(s: &str) -> (r: Vec<String>)
    ensures
        strings_view(r@) == space_pieces(s@),
{
    s.split(' ').map(String::from).collect()
}

/// Splits a line into its words.
pub fn split_words(line: &str) -> (r: Vec<String>)
    ensures
        strings_view(r@) == words_of(line@),
{
    let pieces = split_spaces(line);
    let ghost ps = strings_view(pieces@);
    let mut r: Vec<String> = Vec::new();
    let mut i: usize = 0;
    proof {
        reveal(Seq::filter);
        assert(ps.take(0) =~= Seq::<Seq<char>>::empty());
        assert(strings_view(r@) =~= nonempty_pieces(ps.take(0)));
    }
    while i < pieces.len()
        invariant
            ps == strings_view(pieces@),
            i <= pieces.len(),
            strings_view(r@) == nonempty_pieces(ps.take(i as int)),
        decreases pieces.len() - i,
    {
        let ghost before = r@;
        proof {
            reveal(Seq::filter);
            assert(ps.take(i + 1).drop_last() =~= ps.take(i as int));
            assert(ps.take(i + 1).last() == pieces@[i as int]@);
        }
        if !pieces[i].as_str().is_empty() {
            r.push(pieces[i].clone());
            assert(strings_view(r@) =~= strings_view(before).push(ps[i as int]));
        }
        i += 1;
    }
    assert(ps.take(pieces.len() as int) =~= ps);
    r
}

/// A value word read as an integer where it is one, else kept as text.
fn value_from(t: &String) -> (r: Value)
    ensures
        r@ == value_of(t@),
{
    match parse_i64(t.as_str()) {
        Some(v) => Value::Integer(v),
        None => Value::String(t.clone()),
    }
}

/// Reads a line's words as a command.
pub fn parse_command(parts: &Vec<String>) -> (r: Result<Command, CommandError>)
    ensures
        parse_words(strings_view(parts@)) == match r {
            Ok(c) => Ok(c@),
            Err(e) => Err::<CommandView, CommandError>(e),
        },
{
    let ghost w = strings_view(parts@);
    let n = parts.len();
    if n == 0 {
        return Err(CommandError::Empty);
    }
    assert(w[0] == parts@[0]@);
    let head = &parts[0];
    if is_key(head, "SET") {
        if n != 3 && n != 5 {
            return Err(CommandError::Arity);
        }
        assert(w[1] == parts@[1]@ && w[2] == parts@[2]@);
        let value = value_from(&parts[2]);
        if n == 3 {
            return Ok(Command::SetKey(parts[1].clone(), value, None));
        }
        assert(w[3] == parts@[3]@ && w[4] == parts@[4]@);
        if !is_key(&parts[3], "EX") {
            return Err(CommandError::Syntax);
        }
        match parse_i64(parts[4].as_str()) {
            None => Err(CommandError::NotANumber),
            Some(secs) => if secs <= 1 {
                Err(CommandError::SecondsTooSmall)
            } else {
                Ok(Command::SetKey(parts[1].clone(), value, Some(secs)))
            },
        }
    } else if is_key(head, "GET") {
        if n != 2 {
            return Err(CommandError::Arity);
        }
        assert(w[1] == parts@[1]@);
        Ok(Command::Get(parts[1].clone()))
    } else if is_key(head, "DEL") {
        if n != 2 {
            return Err(CommandError::Arity);
        }
        assert(w[1] == parts@[1]@);
        Ok(Command::Del(parts[1].clone()))
    } else if is_key(head, "INCR") {
        if n != 2 {
            return Err(CommandError::Arity);
        }
        assert(w[1] == parts@[1]@);
        Ok(Command::Incr(parts[1].clone()))
    } else if is_key(head, "TTL") {
        if n != 2 {
            return Err(CommandError::Arity);
        }
        assert(w[1] == parts@[1]@);
        Ok(Command::Ttl(parts[1].clone()))
    } else if is_key(head, "EXPIRE") {
        if n != 3 {
            return Err(CommandError::Arity);
        }
        assert(w[1] == parts@[1]@ && w[2] == parts@[2]@);
        match parse_i64(parts[2].as_str()) {
            None => Err(CommandError::NotANumber),
            Some(secs) => if secs <= 0 {
                Err(CommandError::SecondsTooSmall)
            } else {
                Ok(Command::Expire(parts[1].clone(), secs))
            },
        }
    } else if is_key(head, "LPUSH") {
        if n != 3 {
            return Err(CommandError::Arity);
        }
        assert(w[1] == parts@[1]@ && w[2] == parts@[2]@);
        Ok(Command::LPush(parts[1].clone(), parts[2].clone()))
    } else if is_key(head, "LRANGE") {
        if n != 4 {
            return Err(CommandError::Arity);
        }
        assert(w[1] == parts@[1]@ && w[2] == parts@[2]@ && w[3] == parts@[3]@);
        let start = parse_usize(parts[2].as_str());
        let stop = parse_usize(parts[3].as_str());
        match (start, stop) {
            (Some(a), Some(b)) => Ok(Command::LRange(parts[1].clone(), a, b)),
            _ => Err(CommandError::NotANumber),
        }
    } else if is_key(head, "TYPE") {
        if n != 2 {
            return Err(CommandError::Arity);
        }
        assert(w[1] == parts@[1]@);
        Ok(Command::Type(parts[1].clone()))
    } else if is_key(head, "DIS") {
        if n != 1 {
            return Err(CommandError::Arity);
        }
        Ok(Command::Dis)
    } else if is_key(head, "EXIT") {
        if n != 1 {
            return Err(CommandError::Arity);
        }
        Ok(Command::Exit)
    } else {
        Err(CommandError::Unknown)
    }
}

/// Runs `cmd` against the store at `now`.
pub fn execute_at(map: &mut KeyValueStore, cmd: Command, now: i64) -> (r: Reply)
    requires
        old(map).wf(),
        now >= 0,
        command_valid(cmd@),
    ensures
        final(map).wf(),
        (final(map)@, r@) == run_outcome(old(map)@, cmd@, now),
{
    match cmd {
        Command::SetKey(k, v, ttl) => Reply::Inserted(map.insert_at(k, v, ttl, now)),
        Command::Get(k) => Reply::Found(map.get_value_at(k.as_str(), now)),
        Command::Del(k) => Reply::Removed(map.remove_at(k.as_str(), now)),
        Command::Incr(k) => match map.incr_val_at(k.as_str(), now) {
            Ok(v) => Reply::Incremented(v),
            Err(e) => Reply::Rejected(e),
        },
        Command::Ttl(k) => Reply::Ttl(map.get_ttl_at(k.as_str(), now)),
        Command::Expire(k, n) => Reply::Expire(map.set_ttl_at(k.as_str(), n, now)),
        Command::LPush(k, i) => match map.lpush_at(k, i, now) {
            Ok(()) => Reply::Pushed,
            Err(e) => Reply::Rejected(e),
        },
        Command::LRange(k, a, b) => match map.lrange_at(k.as_str(), a, b, now) {
            Ok(l) => Reply::Range(l),
            Err(e) => Reply::Rejected(e),
        },
        Command::Type(k) => Reply::Type(map.get_type_at(k.as_str(), now)),
        Command::Dis => Reply::Dump,
        Command::Exit => Reply::Exit,
    }
}

/// Reads a line's words as a command and runs it at `now`; a line that names
/// no command leaves the store as it was.
pub fn command_handler_at(parts: &Vec<String>, map: &mut KeyValueStore, now: i64) -> (r: Result<
    Reply,
    CommandError,
>)
    requires
        old(map).wf(),
        now >= 0,
    ensures
        final(map).wf(),
        match parse_words(strings_view(parts@)) {
            Err(e) => r == Err::<Reply, CommandError>(e) && final(map)@ == old(map)@,
            Ok(c) => r matches Ok(reply) && (final(map)@, reply@) == run_outcome(old(map)@, c, now),
        },
{
    match parse_command(parts) {
        Err(e) => Err(e),
        Ok(cmd) => Ok(execute_at(map, cmd, now)),
    }
}

/// Reads a line's words as a command and runs it now.
pub fn command_handler(parts: &Vec<String>, map: &mut KeyValueStore) -> (r: Result<
    Reply,
    CommandError,
>)
    requires
        old(map).wf(),
    ensures
        final(map).wf(),
        match parse_words(strings_view(parts@)) {
            Err(e) => r == Err::<Reply, CommandError>(e) && final(map)@ == old(map)@,
            Ok(c) => r matches Ok(reply) && exists|now: i64|
                now >= 0 && (final(map)@, reply@) == run_outcome(old(map)@, c, now),
        },
{
    let now = now_secs();
    command_handler_at(parts, map, now)
}

} // verus!
