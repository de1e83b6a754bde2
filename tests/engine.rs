use rsmc::engine::{
    local_event, DownloadError, DownloadEvent, ItemAction, ItemEvent, ItemPhase, ItemState, LocalFile, Pool,
    RunOutcome,
};
use rsmc::integrity::{check, IntegrityCheckError};
use rsmc::layout::CanonicalKind;
use rsmc::planner::Item;

fn item(sha: Option<&str>) -> Item {
    Item {
        kind: CanonicalKind::Library,
        url: "https://example/a.jar".to_string(),
        path: "a.jar".to_string(),
        known_size: Some(4),
        known_sha: sha.map(|s| s.to_string()),
    }
}

const ABC_SHA: &str = "a9993e364706816aba3e25717850c26c9cd0d89d";

#[test]
fn matching_local_file_finishes_without_request() {
    let it = item(Some(ABC_SHA));
    let mut state = ItemState::for_item(&it);
    let mut actions = Vec::new();
    actions.push(state.step(ItemEvent::Dispatched { cancelled: false }));
    actions.push(state.step(local_event(check(b"abc", ABC_SHA))));
    assert_eq!(actions, vec![ItemAction::StartAndCheck, ItemAction::Finish]);
    assert!(!actions.contains(&ItemAction::Request) && !actions.contains(&ItemAction::StartAndRequest));
    assert!(matches!(actions[0].event(&it), Some(DownloadEvent::Start { .. })));
    assert!(matches!(actions[1].event(&it), Some(DownloadEvent::Finish { .. })));
    assert_eq!(state.phase, ItemPhase::Finished);
    assert_eq!(state.step(ItemEvent::StreamEnded), ItemAction::Ignore);
}

#[test]
fn mismatching_local_file_is_downloaded_again() {
    let it = item(Some(ABC_SHA));
    let mut state = ItemState::for_item(&it);
    assert_eq!(state.step(ItemEvent::Dispatched { cancelled: false }), ItemAction::StartAndCheck);
    assert_eq!(state.step(local_event(check(b"xyz", ABC_SHA))), ItemAction::Request);
    assert_eq!(state.step(ItemEvent::Responded { content_length: Some(10) }), ItemAction::OpenAndStream);
    assert_eq!(state.step(ItemEvent::ChunkReceived { len: 6, cancelled: false }), ItemAction::WriteChunk { size: 6, progress: 6, total: Some(10) });
    let last = state.step(ItemEvent::ChunkReceived { len: 4, cancelled: false });
    assert_eq!(last, ItemAction::WriteChunk { size: 4, progress: 10, total: Some(10) });
    match last.event(&it) {
        Some(DownloadEvent::Chunk { path, size, total, progress }) => {
            assert_eq!((path.as_str(), size, total, progress), ("a.jar", 4, Some(10), 10));
        }
        _ => panic!("a chunk event"),
    }
    assert_eq!(state.step(ItemEvent::StreamEnded), ItemAction::Finish);
    assert_eq!(state.written, 10);
    assert_eq!(state.total, Some(10));
}

#[test]
fn missing_content_length_falls_back_to_known_size() {
    let mut state = ItemState::for_item(&item(None));
    assert_eq!(state.step(ItemEvent::Dispatched { cancelled: false }), ItemAction::StartAndRequest);
    state.step(ItemEvent::Responded { content_length: None });
    assert_eq!(state.total, Some(4));
    let mut missing = ItemState::for_item(&item(Some(ABC_SHA)));
    missing.step(ItemEvent::Dispatched { cancelled: false });
    assert_eq!(missing.step(ItemEvent::LocalChecked(LocalFile::Missing)), ItemAction::Request);
}

#[test]
fn cancellation_after_first_chunk_stops_the_item() {
    let it = item(None);
    let mut state = ItemState::for_item(&it);
    state.step(ItemEvent::Dispatched { cancelled: false });
    state.step(ItemEvent::Responded { content_length: Some(8) });
    assert_eq!(state.step(ItemEvent::ChunkReceived { len: 4, cancelled: false }), ItemAction::WriteChunk { size: 4, progress: 4, total: Some(8) });
    let cancelled = state.step(ItemEvent::ChunkReceived { len: 4, cancelled: true });
    assert_eq!(cancelled, ItemAction::Fail(DownloadError::Cancelled));
    assert!(matches!(cancelled.event(&it), Some(DownloadEvent::Error { error: DownloadError::Cancelled, .. })));
    assert_eq!(state.step(ItemEvent::ChunkReceived { len: 4, cancelled: false }), ItemAction::Ignore);
    assert_eq!(state.step(ItemEvent::StreamEnded), ItemAction::Ignore);
    assert_eq!(state.written, 4);
}

#[test]
fn cancellation_before_start_emits_nothing() {
    let it = item(None);
    let mut state = ItemState::for_item(&it);
    let a = state.step(ItemEvent::Dispatched { cancelled: true });
    assert_eq!(a, ItemAction::Abort(DownloadError::Cancelled));
    assert!(a.event(&it).is_none());
}

#[test]
fn local_check_failures() {
    assert_eq!(local_event(Err(IntegrityCheckError::ParseInt)), ItemEvent::Failed(DownloadError::Integrity));
    assert_eq!(local_event(Err(IntegrityCheckError::Io)), ItemEvent::Failed(DownloadError::Io));
    let mut state = ItemState::for_item(&item(Some("zz")));
    state.step(ItemEvent::Dispatched { cancelled: false });
    assert_eq!(state.step(local_event(check(b"abc", "zz"))), ItemAction::Fail(DownloadError::Integrity));
    let mut net = ItemState::for_item(&item(None));
    net.step(ItemEvent::Dispatched { cancelled: false });
    assert_eq!(net.step(ItemEvent::Failed(DownloadError::Network)), ItemAction::Fail(DownloadError::Network));
    let mut closed = ItemState::for_item(&item(None));
    closed.step(ItemEvent::Dispatched { cancelled: false });
    closed.step(ItemEvent::Responded { content_length: None });
    assert_eq!(closed.step(ItemEvent::Failed(DownloadError::ChannelClosed)), ItemAction::Fail(DownloadError::ChannelClosed));
}

#[test]
fn pool_bounds_workers_and_keeps_first_error() {
    let mut pool = Pool::new(3, 2);
    assert_eq!(pool.next_item(), Some(0));
    assert_eq!(pool.next_item(), Some(1));
    assert_eq!(pool.next_item(), None);
    pool.complete(Ok(()));
    assert_eq!(pool.outcome(), None);
    assert_eq!(pool.next_item(), Some(2));
    pool.complete(Err(DownloadError::Network));
    pool.complete(Err(DownloadError::Io));
    assert_eq!(pool.outcome(), Some(RunOutcome::Error(DownloadError::Network)));
    let mut ok = Pool::new(1, 4);
    assert_eq!(ok.next_item(), Some(0));
    assert_eq!(ok.next_item(), None);
    ok.complete(Ok(()));
    assert_eq!(ok.outcome(), Some(RunOutcome::Done));
    assert_eq!(Pool::new(0, 1).outcome(), Some(RunOutcome::Done));
}
