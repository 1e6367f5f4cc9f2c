//! The cache protocol as a state machine. The caller performs each action
//! against the store (or recomputes the value) and feeds back what happened;
//! the machine decides the next action and the outcome.

use vstd::prelude::*;
use crate::cache::{
    ExpiryCommand, Ttl, expiry_command, expiry_for, json_root, needs_refresh, select_json_root,
};

verus! {

/// Where a cache operation stands.
#[derive(Debug, Clone, Copy, PartialEq, Eq, Structural)]
pub enum CachePhase {
    /// Waiting for the remaining lifetime of the key.
    AwaitingTtl,
    /// Waiting for the stored entry.
    AwaitingEntry,
    /// Waiting for the value to be recomputed.
    AwaitingRefresh,
    /// Waiting for the value to be written; it is given this lifetime.
    AwaitingStore(Ttl),
    /// Waiting for the written key to be given this lifetime.
    AwaitingExpiry(Ttl),
    /// The operation has its outcome.
    Finished,
}

/// What the caller is asked to do next.
#[derive(Debug, Clone, Copy, PartialEq, Eq, Structural)]
pub enum CacheAction {
    /// Ask the store for the key's remaining lifetime (`TTL key`).
    QueryTtl,
    /// Read the entry at path `$` (`JSON.GET key $`).
    ReadEntry,
    /// Recompute the value from its source.
    Refresh,
    /// Write the value at path `$` (`JSON.SET key $ value`).
    StoreEntry,
    /// Give the key its lifetime.
    ApplyExpiry(ExpiryCommand),
}

/// What happened when the caller performed the last action.
pub enum CacheEvent<V> {
    /// The store reported this remaining lifetime in seconds.
    TtlReported(i64),
    /// The store answered the `$` query; these are the decoded matches.
    EntryRead(Vec<V>),
    /// The value was recomputed; it is to be written with this lifetime,
    /// taken when the write begins.
    Refreshed(Ttl),
    /// The value was written.
    Stored,
    /// The store answered the expiry command: `true` when it changed the
    /// key's lifetime, `false` when it did not (the key is still written).
    ExpiryReplied(bool),
    /// The store failed.
    StoreFailed,
    /// Recomputing the value failed.
    RefreshFailed,
    /// The entry could not be encoded or decoded as JSON.
    JsonFailed,
}

/// Why a cache operation failed.
#[derive(Debug, Clone, Copy, PartialEq, Eq, Structural)]
pub enum CacheFailure {
    /// Reading the key's lifetime failed.
    TtlQuery,
    /// Reading the entry failed.
    EntryRead,
    /// The entry read was not valid JSON of the value's shape.
    EntryDecode,
    /// The entry held no value at its root.
    MissingRoot,
    /// Recomputing the value failed.
    Refresh,
    /// The value could not be encoded as JSON.
    EntryEncode,
    /// Writing the entry failed.
    EntryStore,
    /// Setting the lifetime in seconds failed.
    ExpirySeconds,
    /// Setting the absolute expiry failed.
    ExpiryInstant,
    /// Clearing the lifetime failed.
    ExpiryClear,
}

/// How a cache operation ended well.
pub enum CacheOutcome<V> {
    /// The value read from the store.
    FromCache(V),
    /// The value the caller holds (recomputed or given) was written.
    Written,
}

/// The machine's answer to an event.
pub enum CacheStep<V> {
    /// Perform this action and report back.
    Perform(CacheAction),
    /// The operation is over.
    Finish(Result<CacheOutcome<V>, CacheFailure>),
}

/// A cache operation in progress on one entry.
pub struct CacheFlow {
    pub phase: CachePhase,
}

/// Whether the machine in `phase` expects `event`: each phase accepts the
/// report of its own action and the failures that action can meet.
pub open spec fn accepts<V>(phase: CachePhase, event: CacheEvent<V>) -> bool {
    match phase {
        CachePhase::AwaitingTtl => event is TtlReported || event is StoreFailed,
        CachePhase::AwaitingEntry => event is EntryRead || event is StoreFailed || event is JsonFailed,
        CachePhase::AwaitingRefresh => event is Refreshed || event is RefreshFailed,
        CachePhase::AwaitingStore(_) => event is Stored || event is StoreFailed || event is JsonFailed,
        CachePhase::AwaitingExpiry(_) => event is ExpiryReplied || event is StoreFailed,
        CachePhase::Finished => false,
    }
}

/// The failure reported when setting the expiry `command` fails.
pub open spec fn expiry_failure(command: ExpiryCommand) -> CacheFailure {
    match command {
        ExpiryCommand::Expire(_) => CacheFailure::ExpirySeconds,
        ExpiryCommand::ExpireAt(_) => CacheFailure::ExpiryInstant,
        ExpiryCommand::Persist => CacheFailure::ExpiryClear,
    }
}

/// The phase after `event` in `phase`.
pub open spec fn next_phase<V>(phase: CachePhase, event: CacheEvent<V>) -> CachePhase {
    match (phase, event) {
        (CachePhase::AwaitingTtl, CacheEvent::TtlReported(t)) => if needs_refresh(t as int) {
            CachePhase::AwaitingRefresh
        } else {
            CachePhase::AwaitingEntry
        },
        (CachePhase::AwaitingRefresh, CacheEvent::Refreshed(ttl)) => CachePhase::AwaitingStore(ttl),
        (CachePhase::AwaitingStore(ttl), CacheEvent::Stored) => CachePhase::AwaitingExpiry(ttl),
        _ => CachePhase::Finished,
    }
}

/// The machine's answer to `event` in `phase`.
pub open spec fn step_result<V>(phase: CachePhase, event: CacheEvent<V>) -> CacheStep<V> {
    match (phase, event) {
        (CachePhase::AwaitingTtl, CacheEvent::TtlReported(t)) => if needs_refresh(t as int) {
            CacheStep::Perform(CacheAction::Refresh)
        } else {
            CacheStep::Perform(CacheAction::ReadEntry)
        },
        (CachePhase::AwaitingTtl, _) => CacheStep::Finish(Err(CacheFailure::TtlQuery)),
        (CachePhase::AwaitingEntry, CacheEvent::EntryRead(matches)) => match json_root(matches@) {
            Some(v) => CacheStep::Finish(Ok(CacheOutcome::FromCache(v))),
            None => CacheStep::Finish(Err(CacheFailure::MissingRoot)),
        },
        (CachePhase::AwaitingEntry, CacheEvent::JsonFailed) => CacheStep::Finish(
            Err(CacheFailure::EntryDecode),
        ),
        (CachePhase::AwaitingEntry, _) => CacheStep::Finish(Err(CacheFailure::EntryRead)),
        (CachePhase::AwaitingRefresh, CacheEvent::Refreshed(_)) => CacheStep::Perform(
            CacheAction::StoreEntry,
        ),
        (CachePhase::AwaitingRefresh, _) => CacheStep::Finish(Err(CacheFailure::Refresh)),
        (CachePhase::AwaitingStore(ttl), CacheEvent::Stored) => CacheStep::Perform(
            CacheAction::ApplyExpiry(expiry_for(ttl)),
        ),
        (CachePhase::AwaitingStore(_), CacheEvent::JsonFailed) => CacheStep::Finish(
            Err(CacheFailure::EntryEncode),
        ),
        (CachePhase::AwaitingStore(_), _) => CacheStep::Finish(Err(CacheFailure::EntryStore)),
        (CachePhase::AwaitingExpiry(_), CacheEvent::ExpiryReplied(_)) => CacheStep::Finish(
            Ok(CacheOutcome::Written),
        ),
        (CachePhase::AwaitingExpiry(ttl), _) => CacheStep::Finish(
            Err(expiry_failure(expiry_for(ttl))),
        ),
        (CachePhase::Finished, _) => CacheStep::Finish(Err(CacheFailure::TtlQuery)),
    }
}

impl CacheFlow {
    /// Reads an entry: asks for its lifetime first, and recomputes and
    /// rewrites it when it is missing or expired.
    pub fn get() -> (started: (CacheFlow, CacheAction))
        ensures
            started.0.phase == CachePhase::AwaitingTtl,
            started.1 == CacheAction::QueryTtl,
    {
        (CacheFlow { phase: CachePhase::AwaitingTtl }, CacheAction::QueryTtl)
    }

    /// Recomputes an entry and writes it with the lifetime reported with the
    /// recomputed value.
    pub fn refresh() -> (started: (CacheFlow, CacheAction))
        ensures
            started.0.phase == CachePhase::AwaitingRefresh,
            started.1 == CacheAction::Refresh,
    {
        (CacheFlow { phase: CachePhase::AwaitingRefresh }, CacheAction::Refresh)
    }

    /// Writes a given value with the lifetime `ttl`.
    pub fn set(ttl: Ttl) -> (started: (CacheFlow, CacheAction))
        ensures
            started.0.phase == CachePhase::AwaitingStore(ttl),
            started.1 == CacheAction::StoreEntry,
    {
        (CacheFlow { phase: CachePhase::AwaitingStore(ttl) }, CacheAction::StoreEntry)
    }

    /// Takes in what happened and answers with the next action or the outcome.
    pub fn step<V>(&mut self, event: CacheEvent<V>) -> (answer: CacheStep<V>)
        requires
            accepts(old(self).phase, event),
        ensures
            final(self).phase == next_phase(old(self).phase, event),
            answer == step_result(old(self).phase, event),
            (old(self).phase is AwaitingExpiry && event is ExpiryReplied) ==> answer matches
                CacheStep::Finish(Ok(CacheOutcome::Written)),
    {
        match self.phase {
            CachePhase::AwaitingTtl => match event {
                CacheEvent::TtlReported(t) => {
                    if t < 0 && t != -1 {
                        self.phase = CachePhase::AwaitingRefresh;
                        CacheStep::Perform(CacheAction::Refresh)
                    } else {
                        self.phase = CachePhase::AwaitingEntry;
                        CacheStep::Perform(CacheAction::ReadEntry)
                    }
                },
                _ => {
                    self.phase = CachePhase::Finished;
                    CacheStep::Finish(Err(CacheFailure::TtlQuery))
                },
            },
            CachePhase::AwaitingEntry => {
                self.phase = CachePhase::Finished;
                match event {
                    CacheEvent::EntryRead(matches) => {
                        match select_json_root(matches) {
                            Some(v) => CacheStep::Finish(Ok(CacheOutcome::FromCache(v))),
                            None => CacheStep::Finish(Err(CacheFailure::MissingRoot)),
                        }
                    },
                    CacheEvent::JsonFailed => CacheStep::Finish(Err(CacheFailure::EntryDecode)),
                    _ => CacheStep::Finish(Err(CacheFailure::EntryRead)),
                }
            },
            CachePhase::AwaitingRefresh => match event {
                CacheEvent::Refreshed(ttl) => {
                    self.phase = CachePhase::AwaitingStore(ttl);
                    CacheStep::Perform(CacheAction::StoreEntry)
                },
                _ => {
                    self.phase = CachePhase::Finished;
                    CacheStep::Finish(Err(CacheFailure::Refresh))
                },
            },
            CachePhase::AwaitingStore(ttl) => match event {
                CacheEvent::Stored => {
                    self.phase = CachePhase::AwaitingExpiry(ttl);
                    CacheStep::Perform(CacheAction::ApplyExpiry(expiry_command(ttl)))
                },
                CacheEvent::JsonFailed => {
                    self.phase = CachePhase::Finished;
                    CacheStep::Finish(Err(CacheFailure::EntryEncode))
                },
                _ => {
                    self.phase = CachePhase::Finished;
                    CacheStep::Finish(Err(CacheFailure::EntryStore))
                },
            },
            CachePhase::AwaitingExpiry(ttl) => {
                self.phase = CachePhase::Finished;
                match event {
                    CacheEvent::ExpiryReplied(_) => CacheStep::Finish(Ok(CacheOutcome::Written)),
                    _ => {
                        let failure = match expiry_command(ttl) {
                            ExpiryCommand::Expire(_) => CacheFailure::ExpirySeconds,
                            ExpiryCommand::ExpireAt(_) => CacheFailure::ExpiryInstant,
                            ExpiryCommand::Persist => CacheFailure::ExpiryClear,
                        };
                        CacheStep::Finish(Err(failure))
                    },
                }
            },
            CachePhase::Finished => {
                CacheStep::Finish(Err(CacheFailure::TtlQuery))
            },
        }
    }
}

/// A read asks for the key's lifetime first; it recomputes the entry exactly
/// when the store reports a missing or expired key (a negative lifetime other
/// than -1), and otherwise reads the stored entry.
pub proof fn law_get_refreshes_only_missing_entries<V>(reported: i64)
    ensures
        step_result::<V>(CachePhase::AwaitingTtl, CacheEvent::TtlReported(reported))
            == (if reported <= -2 {
            CacheStep::<V>::Perform(CacheAction::Refresh)
        } else {
            CacheStep::<V>::Perform(CacheAction::ReadEntry)
        }),
        next_phase::<V>(CachePhase::AwaitingTtl, CacheEvent::TtlReported(reported))
            == (if reported <= -2 {
            CachePhase::AwaitingRefresh
        } else {
            CachePhase::AwaitingEntry
        }),
{
}

/// Reading a live entry that holds a written value gives back that value:
/// the lifetime check leads to a read, and the read's single root match is
/// the outcome.
pub proof fn law_read_gives_back_written<V>(reported: i64, value: V, matches: Vec<V>)
    requires
        reported >= -1,
        matches@ == seq![value],
    ensures
        step_result::<V>(CachePhase::AwaitingTtl, CacheEvent::TtlReported(reported))
            == CacheStep::<V>::Perform(CacheAction::ReadEntry),
        step_result(CachePhase::AwaitingEntry, CacheEvent::EntryRead(matches))
            == CacheStep::Finish(Ok(CacheOutcome::FromCache(value))),
{
}

/// A recomputed value is written before its key is given a lifetime; the
/// lifetime is the one taken when the write begins, and the operation
/// succeeds once the store has answered the expiry command, whether or not
/// the command changed the key's lifetime.
pub proof fn law_refresh_writes_then_expires<V>(ttl: Ttl, changed: bool)
    ensures
        step_result::<V>(CachePhase::AwaitingRefresh, CacheEvent::Refreshed(ttl))
            == CacheStep::<V>::Perform(CacheAction::StoreEntry),
        next_phase::<V>(CachePhase::AwaitingRefresh, CacheEvent::Refreshed(ttl))
            == CachePhase::AwaitingStore(ttl),
        step_result::<V>(CachePhase::AwaitingStore(ttl), CacheEvent::Stored)
            == CacheStep::<V>::Perform(CacheAction::ApplyExpiry(expiry_for(ttl))),
        next_phase::<V>(CachePhase::AwaitingStore(ttl), CacheEvent::Stored)
            == CachePhase::AwaitingExpiry(ttl),
        step_result::<V>(CachePhase::AwaitingExpiry(ttl), CacheEvent::ExpiryReplied(changed))
            == CacheStep::<V>::Finish(Ok(CacheOutcome::Written)),
        next_phase::<V>(CachePhase::AwaitingExpiry(ttl), CacheEvent::ExpiryReplied(changed))
            == CachePhase::Finished,
{
}

/// Every failure ends the operation with an error, and an ended operation
/// takes no further event.
pub proof fn law_failures_end_the_operation<V>(phase: CachePhase, event: CacheEvent<V>)
    requires
        accepts(phase, event),
        event is StoreFailed || event is RefreshFailed || event is JsonFailed,
    ensures
        next_phase(phase, event) == CachePhase::Finished,
        step_result(phase, event) matches CacheStep::Finish(Err(_)),
        !accepts(CachePhase::Finished, event),
{
}

/// An operation succeeds with a stored value only by reading the entry, and
/// reports a write only after the key's lifetime was set.
pub proof fn law_success_sources<V>(phase: CachePhase, event: CacheEvent<V>)
    requires
        accepts(phase, event),
    ensures
        step_result(phase, event) matches CacheStep::Finish(Ok(CacheOutcome::FromCache(_)))
            ==> phase == CachePhase::AwaitingEntry && event is EntryRead,
        step_result(phase, event) matches CacheStep::Finish(Ok(CacheOutcome::Written))
            ==> phase is AwaitingExpiry && event is ExpiryReplied,
{
}

/// When giving the key its lifetime fails, the failure names the command
/// that failed: a relative expiry, an absolute expiry, or clearing the
/// expiry.
pub proof fn law_expiry_failures_name_the_command<V>(s: i64, t: i64)
    ensures
        step_result::<V>(CachePhase::AwaitingExpiry(Ttl::Seconds(s)), CacheEvent::StoreFailed)
            == CacheStep::<V>::Finish(Err(CacheFailure::ExpirySeconds)),
        step_result::<V>(CachePhase::AwaitingExpiry(Ttl::Until(t)), CacheEvent::StoreFailed)
            == CacheStep::<V>::Finish(Err(CacheFailure::ExpiryInstant)),
        step_result::<V>(CachePhase::AwaitingExpiry(Ttl::Forever), CacheEvent::StoreFailed)
            == CacheStep::<V>::Finish(Err(CacheFailure::ExpiryClear)),
{
}

/// Whether performing `action` can report `event`: each action reports its
/// own result or the failures it can meet.
pub open spec fn produces<V>(action: CacheAction, event: CacheEvent<V>) -> bool {
    match action {
        CacheAction::QueryTtl => event is TtlReported || event is StoreFailed,
        CacheAction::ReadEntry => event is EntryRead || event is StoreFailed || event is JsonFailed,
        CacheAction::Refresh => event is Refreshed || event is RefreshFailed,
        CacheAction::StoreEntry => event is Stored || event is StoreFailed || event is JsonFailed,
        CacheAction::ApplyExpiry(_) => event is ExpiryReplied || event is StoreFailed,
    }
}

/// A caller that reports for each action one of the events that action can
/// produce always meets `step`'s precondition: every operation starts in a
/// phase that accepts what its first action produces, and after every action
/// the machine asks for, the next phase accepts what that action produces.
pub proof fn law_actions_lead_to_accepted_events<V>(
    phase: CachePhase,
    event: CacheEvent<V>,
    report: CacheEvent<V>,
    ttl: Ttl,
)
    ensures
        produces(CacheAction::QueryTtl, report) ==> accepts(CachePhase::AwaitingTtl, report),
        produces(CacheAction::Refresh, report) ==> accepts(CachePhase::AwaitingRefresh, report),
        produces(CacheAction::StoreEntry, report) ==> accepts(CachePhase::AwaitingStore(ttl), report),
        accepts(phase, event) ==> (step_result(phase, event) matches CacheStep::Perform(action)
            ==> (produces(action, report) ==> accepts(next_phase(phase, event), report))),
{
}

} // verus!
