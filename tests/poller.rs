use microsoft_speech::{
    Async, AsyncHandle, AsyncResultHandle, AsyncStart, AsyncWait, CompletionState, HandleRole,
    RecognitionResult, SpxError, SPXERR_TIMEOUT, SPX_NOERROR,
};

struct ScriptedStart {
    status: usize,
    handle: u64,
    calls: usize,
    sessions: Vec<u64>,
}

impl AsyncStart for ScriptedStart {
    fn async_start(&mut self, session: u64, hasync: &mut u64) -> usize {
        self.calls += 1;
        self.sessions.push(session);
        *hasync = self.handle;
        self.status
    }
}

struct ScriptedWait {
    statuses: Vec<usize>,
    result_handle: u64,
    calls: usize,
    seen_handles: Vec<u64>,
    seen_timeouts: Vec<u32>,
}

impl ScriptedWait {
    fn new(statuses: Vec<usize>) -> ScriptedWait {
        ScriptedWait { statuses, result_handle: 0, calls: 0, seen_handles: vec![], seen_timeouts: vec![] }
    }
}

impl AsyncWait for ScriptedWait {
    fn async_wait(&mut self, hasync: u64, timeout: u32, result_handle: &mut u64) -> usize {
        let status = self.statuses[self.calls];
        self.calls += 1;
        self.seen_handles.push(hasync);
        self.seen_timeouts.push(timeout);
        if status == SPX_NOERROR {
            *result_handle = self.result_handle;
        }
        status
    }
}

fn start_ok(handle: u64) -> ScriptedStart {
    ScriptedStart { status: SPX_NOERROR, handle, calls: 0, sessions: vec![] }
}

#[test]
fn initiator_failure_ends_without_waiting() {
    let mut poller = AsyncHandle::create(11, HandleRole::RecognizerAsync);
    let mut start = ScriptedStart { status: 5, handle: 0, calls: 0, sessions: vec![] };
    let mut wait = ScriptedWait::new(vec![SPX_NOERROR]);
    assert_eq!(poller.poll(&mut start, &mut wait), Async::Ready(Err(SpxError::General(5))));
    assert_eq!(wait.calls, 0);
    assert_eq!(start.calls, 1);
    assert_eq!(poller.async_handle(), None);
    assert_eq!(poller.state(), CompletionState::Ready(Err(SpxError::General(5))));
}

#[test]
fn three_timeouts_then_success() {
    let mut poller = AsyncHandle::create(11, HandleRole::RecognizerAsync);
    let mut start = start_ok(77);
    let mut wait = ScriptedWait::new(vec![SPXERR_TIMEOUT, SPXERR_TIMEOUT, SPXERR_TIMEOUT, SPX_NOERROR]);
    let mut suspensions = 0;
    let outcome = loop {
        match poller.poll(&mut start, &mut wait) {
            Async::NotReady => suspensions += 1,
            Async::Ready(r) => break r,
        }
    };
    assert_eq!(outcome, Ok(()));
    assert_eq!(wait.calls, 4);
    assert_eq!(suspensions, 3);
    assert_eq!(start.calls, 1);
    assert_eq!(start.sessions, vec![11]);
    assert_eq!(wait.seen_handles, vec![77, 77, 77, 77]);
    assert_eq!(wait.seen_timeouts, vec![0, 0, 0, 0]);
}

#[test]
fn pending_until_success_status() {
    for n in 0..6 {
        let mut poller = AsyncHandle::create(1, HandleRole::RecognizerAsync);
        let mut start = start_ok(9);
        let mut statuses = vec![SPXERR_TIMEOUT; n];
        statuses.push(SPX_NOERROR);
        let mut wait = ScriptedWait::new(statuses);
        for _ in 0..n {
            assert_eq!(poller.poll(&mut start, &mut wait), Async::NotReady);
            assert_eq!(poller.state(), CompletionState::Pending);
        }
        assert_eq!(poller.poll(&mut start, &mut wait), Async::Ready(Ok(())));
        assert_eq!(wait.calls, n + 1);
    }
}

#[test]
fn ready_poller_repeats_its_outcome() {
    let mut poller = AsyncHandle::create(1, HandleRole::RecognizerAsync);
    let mut start = start_ok(9);
    let mut wait = ScriptedWait::new(vec![SPXERR_TIMEOUT, 42]);
    assert_eq!(poller.poll(&mut start, &mut wait), Async::NotReady);
    assert_eq!(poller.poll(&mut start, &mut wait), Async::Ready(Err(SpxError::General(42))));
    for _ in 0..10 {
        assert_eq!(poller.poll(&mut start, &mut wait), Async::Ready(Err(SpxError::General(42))));
    }
    assert_eq!(wait.calls, 2);
    assert_eq!(start.calls, 1);
}

#[test]
fn failure_status_ends_at_once() {
    for status in [1usize, 5, 7, 0x8000_0001, usize::MAX] {
        let mut poller = AsyncHandle::create(1, HandleRole::RecognizerAsync);
        let mut start = start_ok(9);
        let mut wait = ScriptedWait::new(vec![status, SPX_NOERROR]);
        assert_eq!(poller.poll(&mut start, &mut wait), Async::Ready(Err(SpxError::General(status))));
        assert_eq!(poller.poll(&mut start, &mut wait), Async::Ready(Err(SpxError::General(status))));
        assert_eq!(wait.calls, 1);
    }
}

#[test]
fn poller_is_lazy_and_uses_action_cadence() {
    let poller = AsyncHandle::create(3, HandleRole::RecognizerAsync);
    assert_eq!(poller.state(), CompletionState::Uninitialized);
    assert_eq!(poller.async_handle(), None);
    assert_eq!(poller.poll_interval_ms(), 30);
    let extractor = AsyncResultHandle::create(3, HandleRole::RecognizerAsync, HandleRole::RecognitionResult);
    assert_eq!(extractor.poll_interval_ms(), 100);
}

#[test]
fn extractor_success_releases_result_once() {
    let mut x = AsyncResultHandle::create(1, HandleRole::RecognizerAsync, HandleRole::RecognitionResult);
    let mut start = start_ok(9);
    let mut wait = ScriptedWait::new(vec![SPXERR_TIMEOUT, SPX_NOERROR]);
    wait.result_handle = 555;
    assert!(matches!(x.poll_handle(&mut start, &mut wait), Async::NotReady));
    let h = match x.poll_handle(&mut start, &mut wait) {
        Async::Ready(Ok(h)) => h,
        _ => panic!("expected a result handle"),
    };
    assert_eq!(h.get(), 555);
    assert_eq!(h.role(), HandleRole::RecognitionResult);
    assert!(x.is_extracted());
    // The extractor owes no release of its own: the one release is of the
    // shared handle, which holds 555.
    assert_eq!(x.release_unconsumed(), None);
    assert_eq!(x.shared_result().map(|s| s.get()), Some(555));
    let mut releases: Vec<u64> = Vec::new();
    if let Some(r) = x.release_unconsumed() {
        releases.push(r);
    }
    let mut owned = microsoft_speech::SmartHandle::create(h.get(), h.role());
    if let Some(r) = owned.release() {
        releases.push(r);
    }
    if let Some(r) = owned.release() {
        releases.push(r);
    }
    assert_eq!(releases, vec![555]);
}

#[test]
fn extractor_repeats_success() {
    let mut x = AsyncResultHandle::create(1, HandleRole::RecognizerAsync, HandleRole::RecognitionResult);
    let mut start = start_ok(9);
    let mut wait = ScriptedWait::new(vec![SPX_NOERROR]);
    wait.result_handle = 321;
    let first = match x.poll_handle(&mut start, &mut wait) {
        Async::Ready(Ok(h)) => h,
        _ => panic!("expected a result handle"),
    };
    for _ in 0..3 {
        match x.poll_handle(&mut start, &mut wait) {
            Async::Ready(Ok(h)) => assert!(std::sync::Arc::ptr_eq(&h, &first)),
            _ => panic!("expected the same result handle"),
        }
        match x.poll::<RecognitionResult, _, _>(&mut start, &mut wait) {
            Async::Ready(Ok(r)) => assert_eq!(r.get_handle(), 321),
            _ => panic!("expected a result"),
        }
    }
    assert_eq!(wait.calls, 1);
    assert_eq!(start.calls, 1);
}

#[test]
fn take_result_hands_out_written_handle() {
    let mut x = AsyncResultHandle::create(1, HandleRole::RecognizerAsync, HandleRole::RecognitionResult);
    let mut start = start_ok(9);
    let mut wait = ScriptedWait::new(vec![SPXERR_TIMEOUT]);
    assert!(matches!(x.poll_handle(&mut start, &mut wait), Async::NotReady));
    let mut wait = ScriptedWait::new(vec![SPX_NOERROR]);
    wait.result_handle = 77;
    match x.poll_handle(&mut start, &mut wait) {
        Async::Ready(Ok(h)) => assert_eq!(h.get(), 77),
        _ => panic!("expected a result handle"),
    }
}

#[test]
fn extractor_builds_result_value() {
    let mut x = AsyncResultHandle::create(1, HandleRole::RecognizerAsync, HandleRole::RecognitionResult);
    let mut start = start_ok(9);
    let mut wait = ScriptedWait::new(vec![SPX_NOERROR]);
    wait.result_handle = 808;
    match x.poll::<RecognitionResult, _, _>(&mut start, &mut wait) {
        Async::Ready(Ok(r)) => assert_eq!(r.get_handle(), 808),
        _ => panic!("expected a result"),
    }
    assert_eq!(x.release_unconsumed(), None);
}

#[test]
fn extractor_dropped_early_releases_populated_handle() {
    let mut x = AsyncResultHandle::create(1, HandleRole::RecognizerAsync, HandleRole::RecognitionResult);
    assert_eq!(x.release_unconsumed(), None);
    let mut start = start_ok(9);
    let mut wait = ScriptedWait::new(vec![SPXERR_TIMEOUT]);
    assert!(matches!(x.poll_handle(&mut start, &mut wait), Async::NotReady));
    assert_eq!(x.release_unconsumed(), None);

    let mut y = AsyncResultHandle::create(1, HandleRole::RecognizerAsync, HandleRole::RecognitionResult);
    let mut wait = ScriptedWait::new(vec![31]);
    wait.result_handle = 0;
    assert!(matches!(y.poll_handle(&mut start, &mut wait), Async::Ready(Err(SpxError::General(31)))));
    assert_eq!(y.release_unconsumed(), None);
}

struct WritesThenTimesOut {
    calls: usize,
}

impl AsyncWait for WritesThenTimesOut {
    fn async_wait(&mut self, _hasync: u64, _timeout: u32, result_handle: &mut u64) -> usize {
        self.calls += 1;
        *result_handle = 4242;
        SPXERR_TIMEOUT
    }
}

#[test]
fn extractor_releases_unconsumed_handle_once() {
    let mut x = AsyncResultHandle::create(1, HandleRole::RecognizerAsync, HandleRole::RecognitionResult);
    let mut start = start_ok(9);
    let mut wait = WritesThenTimesOut { calls: 0 };
    assert!(matches!(x.poll_handle(&mut start, &mut wait), Async::NotReady));
    assert_eq!(x.release_unconsumed(), Some(4242));
    assert_eq!(x.release_unconsumed(), None);
}

#[test]
fn extractor_timeouts_then_success() {
    let mut x = AsyncResultHandle::create(2, HandleRole::RecognizerAsync, HandleRole::RecognitionResult);
    let mut start = start_ok(9);
    let mut wait = ScriptedWait::new(vec![SPXERR_TIMEOUT, SPXERR_TIMEOUT, SPX_NOERROR]);
    wait.result_handle = 64;
    assert!(matches!(x.poll::<RecognitionResult, _, _>(&mut start, &mut wait), Async::NotReady));
    assert!(matches!(x.poll::<RecognitionResult, _, _>(&mut start, &mut wait), Async::NotReady));
    match x.poll::<RecognitionResult, _, _>(&mut start, &mut wait) {
        Async::Ready(Ok(r)) => assert_eq!(r.get_handle(), 64),
        _ => panic!("expected a result"),
    }
    assert_eq!(wait.calls, 3);
    assert_eq!(wait.seen_handles, vec![9, 9, 9]);
    assert_eq!(wait.seen_timeouts, vec![0, 0, 0]);
    assert_eq!(start.sessions, vec![2]);
}

#[test]
fn extractor_failure_status_is_terminal() {
    let mut x = AsyncResultHandle::create(2, HandleRole::RecognizerAsync, HandleRole::RecognitionResult);
    let mut start = start_ok(9);
    let mut wait = ScriptedWait::new(vec![SPXERR_TIMEOUT, 13, SPX_NOERROR]);
    assert!(matches!(x.poll::<RecognitionResult, _, _>(&mut start, &mut wait), Async::NotReady));
    for _ in 0..3 {
        assert!(matches!(
            x.poll::<RecognitionResult, _, _>(&mut start, &mut wait),
            Async::Ready(Err(SpxError::General(13)))
        ));
    }
    assert_eq!(wait.calls, 2);
    assert_eq!(x.release_unconsumed(), None);
}
