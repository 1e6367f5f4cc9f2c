//! Cached entries in a JSON key-value store: how long an entry lives, how its
//! expiry is set, and how a stored entry is read back.

pub mod flow;

use vstd::prelude::*;

verus! {

/// How long a cache entry lives after it is written.
#[derive(Debug, Clone, Copy, PartialEq, Eq, Structural)]
pub enum Ttl {
    /// The given number of seconds.
    Seconds(i64),
    /// Until the given instant, in Unix seconds.
    Until(i64),
    /// Without expiry.
    Forever,
}

/// The command that gives a written key its lifetime.
#[derive(Debug, Clone, Copy, PartialEq, Eq, Structural)]
pub enum ExpiryCommand {
    /// `EXPIRE key seconds`
    Expire(i64),
    /// `EXPIREAT key unix_seconds`
    ExpireAt(i64),
    /// `PERSIST key`
    Persist,
}

/// The expiry command that realises a lifetime.
pub open spec fn expiry_for(ttl: Ttl) -> ExpiryCommand {
    match ttl {
        Ttl::Seconds(seconds) => ExpiryCommand::Expire(seconds),
        Ttl::Until(when) => ExpiryCommand::ExpireAt(when),
        Ttl::Forever => ExpiryCommand::Persist,
    }
}

/// The expiry command to issue after writing an entry with lifetime `ttl`.
pub fn expiry_command(ttl: Ttl) -> (command: ExpiryCommand)
    ensures
        command == expiry_for(ttl),
{
    match ttl {
        Ttl::Seconds(seconds) => ExpiryCommand::Expire(seconds),
        Ttl::Until(when) => ExpiryCommand::ExpireAt(when),
        Ttl::Forever => ExpiryCommand::Persist,
    }
}

/// Whether the time-to-live that the store reports means the entry has to be
/// recomputed: every negative value but -1 (no expiry), that is -2 for a
/// missing or expired key.
pub open spec fn needs_refresh(reported_ttl: int) -> bool {
    reported_ttl < 0 && reported_ttl != -1
}

/// The value at the root of a JSON path query: a query of `$` answers with
/// the array of matches, of which the last one is taken; none when empty.
pub open spec fn json_root<V>(matches: Seq<V>) -> Option<V> {
    if matches.len() == 0 {
        None
    } else {
        Some(matches.last())
    }
}

/// Takes the root value out of the matches of a `$` path query.
pub fn select_json_root<V>(matches: Vec<V>) -> (root: Option<V>)
    ensures
        root == json_root(matches@),
{
    let mut matches = matches;
    matches.pop()
}

/// A value written at the root of an entry and read back with `$` is the
/// value that was written.
pub proof fn law_root_read_returns_written<V>(value: V)
    ensures
        json_root(seq![value]) == Some(value),
{
}

/// Of several matches, the root value read is the one that came last, and
/// the read fails only when nothing matched.
pub proof fn law_root_is_last_match<V>(matches: Seq<V>, value: V)
    ensures
        json_root(matches.push(value)) == Some(value),
        json_root(matches) is None <==> matches.len() == 0,
{
}

/// A lifetime of `s` seconds is given to the key as a relative expiry of
/// exactly `s` seconds; a lifetime that ends at instant `t` as an absolute
/// expiry at `t`; a lifetime without end by clearing any expiry. Distinct
/// lifetimes give distinct commands.
pub proof fn law_expiry_realises_lifetime(ttl: Ttl, other: Ttl, s: i64, t: i64)
    ensures
        expiry_for(Ttl::Seconds(s)) == ExpiryCommand::Expire(s),
        expiry_for(Ttl::Until(t)) == ExpiryCommand::ExpireAt(t),
        expiry_for(Ttl::Forever) == ExpiryCommand::Persist,
        expiry_for(ttl) == expiry_for(other) ==> ttl == other,
{
}

} // verus!
