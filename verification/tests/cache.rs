use ushio::cache::flow::{CacheAction, CacheEvent, CacheFailure, CacheFlow, CacheOutcome, CachePhase, CacheStep};
use ushio::cache::{expiry_command, select_json_root, ExpiryCommand, Ttl};

fn perform<V>(step: CacheStep<V>) -> CacheAction {
    match step {
        CacheStep::Perform(action) => action,
        CacheStep::Finish(_) => panic!("flow finished early"),
    }
}

fn finish<V>(step: CacheStep<V>) -> Result<CacheOutcome<V>, CacheFailure> {
    match step {
        CacheStep::Finish(result) => result,
        CacheStep::Perform(action) => panic!("flow asked for {action:?}"),
    }
}

#[test]
fn expiry_commands_follow_lifetimes() {
    assert_eq!(expiry_command(Ttl::Seconds(300)), ExpiryCommand::Expire(300));
    assert_eq!(expiry_command(Ttl::Until(1782694800)), ExpiryCommand::ExpireAt(1782694800));
    assert_eq!(expiry_command(Ttl::Forever), ExpiryCommand::Persist);
}

#[test]
fn json_root_is_last_match() {
    assert_eq!(select_json_root(vec![7]), Some(7));
    assert_eq!(select_json_root(vec![1, 2, 3]), Some(3));
    assert_eq!(select_json_root::<u8>(vec![]), None);
}

#[test]
fn live_entry_is_read_from_cache() {
    for reported in [0i64, 42, -1] {
        let (mut flow, first) = CacheFlow::get();
        assert_eq!(first, CacheAction::QueryTtl);
        assert_eq!(perform(flow.step::<u32>(CacheEvent::TtlReported(reported))), CacheAction::ReadEntry);
        match finish(flow.step(CacheEvent::EntryRead(vec![99u32]))) {
            Ok(CacheOutcome::FromCache(v)) => assert_eq!(v, 99),
            _ => panic!("expected the cached value"),
        }
        assert_eq!(flow.phase, CachePhase::Finished);
    }
}

#[test]
fn missing_entry_is_refreshed_and_written() {
    let (mut flow, _) = CacheFlow::get();
    assert_eq!(perform(flow.step::<u32>(CacheEvent::TtlReported(-2))), CacheAction::Refresh);
    assert_eq!(perform(flow.step::<u32>(CacheEvent::Refreshed(Ttl::Seconds(300)))), CacheAction::StoreEntry);
    assert_eq!(flow.phase, CachePhase::AwaitingStore(Ttl::Seconds(300)));
    assert_eq!(
        perform(flow.step::<u32>(CacheEvent::Stored)),
        CacheAction::ApplyExpiry(ExpiryCommand::Expire(300))
    );
    assert!(matches!(finish(flow.step::<u32>(CacheEvent::ExpiryReplied(true))), Ok(CacheOutcome::Written)));
}

#[test]
fn unchanged_expiry_still_counts_as_written() {
    let (mut flow, _) = CacheFlow::set(Ttl::Until(1782694800));
    flow.step::<u32>(CacheEvent::Stored);
    assert!(matches!(finish(flow.step::<u32>(CacheEvent::ExpiryReplied(false))), Ok(CacheOutcome::Written)));
}

#[test]
fn refresh_and_set_flows() {
    let (mut flow, first) = CacheFlow::refresh();
    assert_eq!(first, CacheAction::Refresh);
    assert_eq!(perform(flow.step::<u32>(CacheEvent::Refreshed(Ttl::Until(1782694800)))), CacheAction::StoreEntry);
    assert_eq!(
        perform(flow.step::<u32>(CacheEvent::Stored)),
        CacheAction::ApplyExpiry(ExpiryCommand::ExpireAt(1782694800))
    );
    let (mut flow, first) = CacheFlow::set(Ttl::Forever);
    assert_eq!(first, CacheAction::StoreEntry);
    assert_eq!(
        perform(flow.step::<u32>(CacheEvent::Stored)),
        CacheAction::ApplyExpiry(ExpiryCommand::Persist)
    );
    assert!(matches!(finish(flow.step::<u32>(CacheEvent::ExpiryReplied(true))), Ok(CacheOutcome::Written)));
}

#[test]
fn failures_by_phase() {
    let (mut flow, _) = CacheFlow::get();
    assert_eq!(finish(flow.step::<u32>(CacheEvent::StoreFailed)).err(), Some(CacheFailure::TtlQuery));

    let (mut flow, _) = CacheFlow::get();
    flow.step::<u32>(CacheEvent::TtlReported(5));
    assert_eq!(finish(flow.step::<u32>(CacheEvent::StoreFailed)).err(), Some(CacheFailure::EntryRead));

    let (mut flow, _) = CacheFlow::get();
    flow.step::<u32>(CacheEvent::TtlReported(5));
    assert_eq!(finish(flow.step::<u32>(CacheEvent::JsonFailed)).err(), Some(CacheFailure::EntryDecode));

    let (mut flow, _) = CacheFlow::get();
    flow.step::<u32>(CacheEvent::TtlReported(5));
    assert_eq!(finish(flow.step::<u32>(CacheEvent::EntryRead(vec![]))).err(), Some(CacheFailure::MissingRoot));

    let (mut flow, _) = CacheFlow::refresh();
    assert_eq!(finish(flow.step::<u32>(CacheEvent::RefreshFailed)).err(), Some(CacheFailure::Refresh));

    let (mut flow, _) = CacheFlow::set(Ttl::Seconds(1));
    assert_eq!(finish(flow.step::<u32>(CacheEvent::JsonFailed)).err(), Some(CacheFailure::EntryEncode));

    let (mut flow, _) = CacheFlow::set(Ttl::Seconds(1));
    assert_eq!(finish(flow.step::<u32>(CacheEvent::StoreFailed)).err(), Some(CacheFailure::EntryStore));

    for (ttl, failure) in [
        (Ttl::Seconds(1), CacheFailure::ExpirySeconds),
        (Ttl::Until(10), CacheFailure::ExpiryInstant),
        (Ttl::Forever, CacheFailure::ExpiryClear),
    ] {
        let (mut flow, _) = CacheFlow::set(ttl);
        flow.step::<u32>(CacheEvent::Stored);
        assert_eq!(finish(flow.step::<u32>(CacheEvent::StoreFailed)).err(), Some(failure));
        assert_eq!(flow.phase, CachePhase::Finished);
    }
}
