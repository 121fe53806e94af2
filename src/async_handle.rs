//! The completion poller: drives a native asynchronous action to completion
//! by repeated zero-timeout wait calls, one per cadence tick.
use vstd::prelude::*;

use crate::error::{SpxError, SPXERR_TIMEOUT, SPXHANDLE_INVALID, SPX_NOERROR};
use crate::handle::{HandleRole, SmartHandle};
use std::sync::Arc;

verus! {

/// Interval between two wait calls of a lightweight action (start, stop).
pub const ACTION_POLL_INTERVAL_MS: u64 = 30;

/// Interval between two wait calls of an action that yields a result.
pub const RESULT_POLL_INTERVAL_MS: u64 = 100;

/// Outcome of one drive: done with a value, or suspended until the next tick.
#[derive(Debug, PartialEq, Eq)]
pub enum Async<T> {
    Ready(T),
    NotReady,
}

/// Where a poller stands.
#[derive(Debug, Clone, Copy, PartialEq, Eq)]
pub enum CompletionState {
    /// The native action has not been initiated yet.
    Uninitialized,
    /// The native action runs; completion is found by waiting on it.
    Pending,
    /// Finished, with success or the status that ended it.
    Ready(Result<(), SpxError>),
}

/// Starts the native action: writes the new async-action handle and returns
/// the native status.
pub trait AsyncStart {
    fn async_start(&mut self, session: u64, hasync: &mut u64) -> usize;
}

/// Waits on a native async-action handle for at most `timeout` milliseconds
/// and returns the native status. A variant that yields a result writes the
/// result handle into `result_handle`; one that yields none leaves it.
pub trait AsyncWait {
    fn async_wait(&mut self, hasync: u64, timeout: u32, result_handle: &mut u64) -> usize;
}

/// The state once the initiator has returned `status`.
pub open spec fn after_start(status: usize) -> CompletionState {
    if status == SPX_NOERROR {
        CompletionState::Pending
    } else {
        CompletionState::Ready(Err(SpxError::General(status)))
    }
}

/// The state once a wait call has returned `status` in state `s`. Only a
/// pending action is waited on: any other state is left as it is.
pub open spec fn after_wait(s: CompletionState, status: usize) -> CompletionState {
    match s {
        CompletionState::Pending => {
            if status == SPXERR_TIMEOUT {
                CompletionState::Pending
            } else if status == SPX_NOERROR {
                CompletionState::Ready(Ok(()))
            } else {
                CompletionState::Ready(Err(SpxError::General(status)))
            }
        },
        _ => s,
    }
}

/// The state reached from `s` when the native layer answers the wait calls
/// with `statuses`, in order.
pub open spec fn run_waits(s: CompletionState, statuses: Seq<usize>) -> CompletionState
    decreases statuses.len(),
{
    if statuses.len() == 0 {
        s
    } else {
        run_waits(after_wait(s, statuses[0]), statuses.drop_first())
    }
}

/// How many of `statuses` the poller consumes from `s`: it waits only while
/// the action is pending.
pub open spec fn waits_made(s: CompletionState, statuses: Seq<usize>) -> nat
    decreases statuses.len(),
{
    if statuses.len() == 0 || !(s is Pending) {
        0
    } else {
        1 + waits_made(after_wait(s, statuses[0]), statuses.drop_first())
    }
}

/// `n` timeout statuses.
pub open spec fn timeouts(n: nat) -> Seq<usize> {
    Seq::new(n, |i: int| SPXERR_TIMEOUT)
}

/// The poller of one native action, started lazily on the first drive.
pub struct BaseAsyncHandle {
    init_handle: u64,
    poll_interval_ms: u64,
    async_role: HandleRole,
    state: CompletionState,
    handle: Option<SmartHandle>,
    start_status: Ghost<Option<usize>>,
    waits: Ghost<Seq<usize>>,
    start_calls: Ghost<Seq<u64>>,
    wait_calls: Ghost<Seq<(u64, u32)>>,
}

impl BaseAsyncHandle {
    pub closed spec fn state_of(&self) -> CompletionState {
        self.state
    }

    /// The status the initiator returned, once it has been called.
    pub closed spec fn start_status(&self) -> Option<usize> {
        self.start_status@
    }

    /// The statuses that the wait calls have returned so far, in order.
    pub closed spec fn waits(&self) -> Seq<usize> {
        self.waits@
    }

    pub closed spec fn init_handle_of(&self) -> u64 {
        self.init_handle
    }

    /// The session handles the initiator has been called with, in order.
    pub closed spec fn start_calls(&self) -> Seq<u64> {
        self.start_calls@
    }

    /// The (async-action handle, timeout) pairs the wait calls were made with,
    /// in order.
    pub closed spec fn wait_calls(&self) -> Seq<(u64, u32)> {
        self.wait_calls@
    }

    /// The initiator was called at most once, with the session handle, and
    /// every wait call was made on the async-action handle with a zero timeout.
    pub open spec fn calls_recorded(&self) -> bool {
        &&& self.start_calls() == (if self.start_status() is Some {
            seq![self.init_handle_of()]
        } else {
            Seq::<u64>::empty()
        })
        &&& self.wait_calls().len() == self.waits().len()
        &&& forall|i: int|
            0 <= i < self.wait_calls().len() ==> (self.action_handle() matches Some(h)
                && #[trigger] self.wait_calls()[i] == (h.value(), 0u32))
    }

    pub closed spec fn poll_interval_of(&self) -> u64 {
        self.poll_interval_ms
    }

    /// The async-action handle held, if the action was initiated.
    pub closed spec fn action_handle(&self) -> Option<SmartHandle> {
        self.handle
    }

    /// The state is what the initiator's status and the wait statuses lead to,
    /// and no wait was made once the action was finished.
    pub closed spec fn wf(&self) -> bool {
        &&& self.calls_recorded()
        &&& match self.start_status@ {
            None => {
                &&& self.state is Uninitialized
                &&& self.handle is None
                &&& self.waits@.len() == 0
            },
            Some(st) => {
                &&& !(self.state is Uninitialized)
                &&& self.state == run_waits(after_start(st), self.waits@)
                &&& waits_made(after_start(st), self.waits@) == self.waits@.len()
                &&& (self.handle is Some <==> st == SPX_NOERROR)
                &&& (self.handle matches Some(h) ==> h.role_of() == self.async_role)
            },
        }
    }

    /// A poller of the action that `init_handle` (the session) starts. Nothing
    /// is called until the first drive.
    pub fn create(init_handle: u64, async_role: HandleRole, poll_interval_ms: u64) -> (r:
        BaseAsyncHandle)
        ensures
            r.wf(),
            r.state_of() is Uninitialized,
            r.start_status() is None,
            r.waits().len() == 0,
            r.start_calls().len() == 0,
            r.wait_calls().len() == 0,
            r.action_handle() is None,
            r.async_role_of() == async_role,
            r.init_handle_of() == init_handle,
            r.poll_interval_of() == poll_interval_ms,
    {
        BaseAsyncHandle {
            init_handle,
            poll_interval_ms,
            async_role,
            state: CompletionState::Uninitialized,
            handle: None,
            start_status: Ghost(None),
            waits: Ghost(Seq::empty()),
            start_calls: Ghost(Seq::empty()),
            wait_calls: Ghost(Seq::empty()),
        }
    }

    pub fn state(&self) -> (r: CompletionState)
        ensures
            r == self.state_of(),
    {
        self.state
    }

    /// The handle of the session that initiates the action.
    pub fn init_handle(&self) -> (r: u64)
        ensures
            r == self.init_handle_of(),
    {
        self.init_handle
    }

    /// Milliseconds between two drives.
    pub fn poll_interval_ms(&self) -> (r: u64)
        ensures
            r == self.poll_interval_of(),
    {
        self.poll_interval_ms
    }

    /// The raw async-action handle, once the action has been initiated.
    pub fn async_handle(&self) -> (r: Option<u64>)
        ensures
            match self.action_handle() {
                Some(h) => r == Some(h.value()),
                None => r is None,
            },
    {
        match &self.handle {
            Some(h) => Some(h.get()),
            None => None,
        }
    }

    pub closed spec fn async_role_of(&self) -> HandleRole {
        self.async_role
    }

    /// The role of the async-action handle, which picks its release call.
    pub fn async_role(&self) -> (r: HandleRole)
        ensures
            r == self.async_role_of(),
    {
        self.async_role
    }

    /// Called when the poller goes away, finished or not: the async-action
    /// handle whose release call is now due, if the action was initiated and
    /// the call was not handed out before.
    pub fn release_action(&mut self) -> (r: Option<u64>)
        requires
            old(self).wf(),
        ensures
            final(self).wf(),
            final(self).state_of() == old(self).state_of(),
            final(self).waits() == old(self).waits(),
            match old(self).action_handle() {
                Some(h) => {
                    &&& (!h.is_released() ==> r == Some(h.value()))
                    &&& (h.is_released() ==> r is None)
                    &&& final(self).action_handle() matches Some(h2) && h2.is_released()
                        && h2.value() == h.value()
                },
                None => r is None && final(self).action_handle() is None,
            },
    {
        match &mut self.handle {
            Some(h) => h.release(),
            None => None,
        }
    }

    /// Records what the initiator returned: the action is pending with the new
    /// handle on success, and finished with the initiator's error otherwise.
    pub fn on_started(&mut self, status: usize, hasync: u64)
        requires
            old(self).wf(),
            old(self).state_of() is Uninitialized,
        ensures
            final(self).wf(),
            final(self).state_of() == after_start(status),
            final(self).start_status() == Some(status),
            final(self).waits() == old(self).waits(),
            final(self).init_handle_of() == old(self).init_handle_of(),
            final(self).poll_interval_of() == old(self).poll_interval_of(),
            status == SPX_NOERROR ==> (final(self).action_handle() matches Some(h) && h.value()
                == hasync && !h.is_released() && h.role_of() == old(self).async_role_of()),
            status != SPX_NOERROR ==> final(self).action_handle() is None,
            final(self).async_role_of() == old(self).async_role_of(),
    {
        proof {
            assert(self.start_status@ is None);
        }
        if status == SPX_NOERROR {
            self.handle = Some(SmartHandle::create(hasync, self.async_role));
            self.state = CompletionState::Pending;
        } else {
            self.state = CompletionState::Ready(Err(SpxError::General(status)));
        }
        self.start_status = Ghost(Some(status));
        let ghost session = self.init_handle;
        self.start_calls = Ghost(Seq::empty().push(session));
    }

    /// Records what a wait call returned: a timeout leaves the action pending
    /// (the caller suspends until the next tick), any other status finishes it.
    pub fn on_wait_status(&mut self, status: usize) -> (r: Async<Result<(), SpxError>>)
        requires
            old(self).wf(),
            old(self).state_of() is Pending,
        ensures
            final(self).wf(),
            final(self).state_of() == after_wait(old(self).state_of(), status),
            final(self).waits() == old(self).waits().push(status),
            final(self).start_status() == old(self).start_status(),
            final(self).init_handle_of() == old(self).init_handle_of(),
            final(self).poll_interval_of() == old(self).poll_interval_of(),
            final(self).action_handle() == old(self).action_handle(),
            r is NotReady <==> status == SPXERR_TIMEOUT,
            final(self).state_of() matches CompletionState::Ready(o) ==> r == Async::Ready(o),
    {
        let ghost st = self.start_status@.unwrap();
        proof {
            lemma_run_waits_push(after_start(st), self.waits@, status);
            lemma_waits_made_push(after_start(st), self.waits@, status);
        }
        self.waits = Ghost(self.waits@.push(status));
        let ghost h = self.handle.unwrap().value();
        self.wait_calls = Ghost(self.wait_calls@.push((h, 0u32)));
        proof {
            assert forall|i: int| 0 <= i < self.wait_calls@.len() implies (self.handle matches Some(
                h2,
            ) && #[trigger] self.wait_calls@[i] == (h2.value(), 0u32)) by {
                if i < self.wait_calls@.len() - 1 {
                    assert(old(self).wait_calls@[i] == self.wait_calls@[i]);
                }
            }
        }
        if status == SPXERR_TIMEOUT {
            Async::NotReady
        } else if status == SPX_NOERROR {
            self.state = CompletionState::Ready(Ok(()));
            Async::Ready(Ok(()))
        } else {
            self.state = CompletionState::Ready(Err(SpxError::General(status)));
            Async::Ready(Err(SpxError::General(status)))
        }
    }

    /// The arguments of the next wait call of a pending action: its
    /// async-action handle and a zero (non-blocking) timeout.
    pub fn wait_args(&self) -> (r: (u64, u32))
        requires
            self.wf(),
            self.state_of() is Pending,
        ensures
            self.action_handle() matches Some(h) && r == (h.value(), 0u32),
    {
        match &self.handle {
            Some(h) => (h.get(), 0),
            None => (SPXHANDLE_INVALID, 0),
        }
    }

    /// One drive, made on a cadence tick. A finished poller returns its outcome
    /// again and calls nothing. Otherwise it initiates the action if that has
    /// not been done, and then, if the action is pending, makes one
    /// zero-timeout wait call. The initiator is given the session handle, the
    /// wait call the arguments of `wait_args` and `result_handle`.
    pub fn poll<S: AsyncStart, W: AsyncWait>(
        &mut self,
        start: &mut S,
        wait: &mut W,
        result_handle: &mut u64,
    ) -> (r: Async<Result<(), SpxError>>)
        requires
            old(self).wf(),
        ensures
            final(self).wf(),
            final(self).calls_recorded(),
            final(self).init_handle_of() == old(self).init_handle_of(),
            final(self).poll_interval_of() == old(self).poll_interval_of(),
            old(self).state_of() matches CompletionState::Ready(o) ==> {
                &&& r == Async::Ready(o)
                &&& *final(self) == *old(self)
                &&& *final(result_handle) == *old(result_handle)
                &&& *final(start) == *old(start)
                &&& *final(wait) == *old(wait)
            },
            !(old(self).state_of() is Uninitialized) ==> *final(start) == *old(start),
            final(self).async_role_of() == old(self).async_role_of(),
            final(self).start_status() is Some && final(self).start_status() != Some(SPX_NOERROR)
                ==> final(self).action_handle() is None,
            old(self).start_status() is Some ==> final(self).start_status() == old(
                self,
            ).start_status(),
            old(self).start_status() is Some ==> final(self).action_handle() == old(
                self,
            ).action_handle(),
            old(self).waits().len() <= final(self).waits().len() <= old(self).waits().len() + 1,
            final(self).waits().subrange(0, old(self).waits().len() as int) == old(self).waits(),
            old(self).state_of() is Uninitialized ==> final(self).start_status() is Some,
            !(old(self).state_of() is Ready) && final(self).start_status() == Some(SPX_NOERROR)
                ==> final(self).waits().len() == old(self).waits().len() + 1,
            final(self).start_status() != Some(SPX_NOERROR) ==> final(self).waits() == old(
                self,
            ).waits(),
            r is NotReady <==> final(self).state_of() is Pending,
            final(self).state_of() matches CompletionState::Ready(o) ==> r == Async::Ready(o),
            r matches Async::Ready(o) ==> final(self).state_of() == CompletionState::Ready(o),
    {
        if let CompletionState::Ready(o) = self.state {
            return Async::Ready(o);
        }
        if let CompletionState::Uninitialized = self.state {
            let mut hasync: u64 = SPXHANDLE_INVALID;
            let status = start.async_start(self.init_handle(), &mut hasync);
            self.on_started(status, hasync);
            if let CompletionState::Ready(o) = self.state {
                assert(self.waits() =~= self.waits().subrange(0, self.waits().len() as int));
                return Async::Ready(o);
            }
        }
        let (hasync, timeout) = self.wait_args();
        let ghost before = self.waits@;
        let status = wait.async_wait(hasync, timeout, result_handle);
        let r = self.on_wait_status(status);
        assert(self.waits().subrange(0, before.len() as int) =~= before);
        r
    }
}


/// A lightweight native action (start or stop) that yields no value.
pub struct AsyncHandle {
    base: BaseAsyncHandle,
}

impl AsyncHandle {
    pub closed spec fn poller(&self) -> BaseAsyncHandle {
        self.base
    }

    pub open spec fn wf(&self) -> bool {
        self.poller().wf()
    }

    /// A poller of the action that `init_fn` starts on the session
    /// `init_handle`, polled at the lightweight cadence.
    pub fn create(init_handle: u64, async_role: HandleRole) -> (r: AsyncHandle)
        ensures
            r.wf(),
            r.poller().state_of() is Uninitialized,
            r.poller().start_status() is None,
            r.poller().waits().len() == 0,
            r.poller().action_handle() is None,
            r.poller().async_role_of() == async_role,
            r.poller().init_handle_of() == init_handle,
            r.poller().poll_interval_of() == ACTION_POLL_INTERVAL_MS,
    {
        AsyncHandle { base: BaseAsyncHandle::create(init_handle, async_role, ACTION_POLL_INTERVAL_MS) }
    }

    pub fn state(&self) -> (r: CompletionState)
        ensures
            r == self.poller().state_of(),
    {
        self.base.state()
    }

    pub fn poll_interval_ms(&self) -> (r: u64)
        ensures
            r == self.poller().poll_interval_of(),
    {
        self.base.poll_interval_ms()
    }

    pub fn async_handle(&self) -> (r: Option<u64>)
        ensures
            match self.poller().action_handle() {
                Some(h) => r == Some(h.value()),
                None => r is None,
            },
    {
        self.base.async_handle()
    }

    pub fn async_role(&self) -> (r: HandleRole)
        ensures
            r == self.poller().async_role_of(),
    {
        self.base.async_role()
    }

    /// The async-action handle whose release call is due when the action is
    /// dropped (see `BaseAsyncHandle::release_action`).
    pub fn release_action(&mut self) -> (r: Option<u64>)
        requires
            old(self).wf(),
        ensures
            final(self).wf(),
            final(self).poller().state_of() == old(self).poller().state_of(),
            match old(self).poller().action_handle() {
                Some(h) => (!h.is_released() ==> r == Some(h.value())) && (h.is_released() ==> r is None),
                None => r is None,
            },
    {
        self.base.release_action()
    }

    /// One drive of the action (see `BaseAsyncHandle::poll`).
    pub fn poll<S: AsyncStart, W: AsyncWait>(&mut self, start: &mut S, wait: &mut W) -> (r: Async<
        Result<(), SpxError>,
    >)
        requires
            old(self).wf(),
        ensures
            final(self).wf(),
            final(self).poller().wf(),
            final(self).poller().calls_recorded(),
            old(self).poller().state_of() matches CompletionState::Ready(o) ==> {
                &&& r == Async::Ready(o)
                &&& final(self).poller() == old(self).poller()
                &&& *final(start) == *old(start)
                &&& *final(wait) == *old(wait)
            },
            !(old(self).poller().state_of() is Uninitialized) ==> *final(start) == *old(start),
            final(self).poller().init_handle_of() == old(self).poller().init_handle_of(),
            final(self).poller().async_role_of() == old(self).poller().async_role_of(),
            final(self).poller().poll_interval_of() == old(self).poller().poll_interval_of(),
            final(self).poller().start_status() is Some && final(self).poller().start_status() != Some(
                SPX_NOERROR,
            ) ==> final(self).poller().action_handle() is None,
            old(self).poller().waits().len() <= final(self).poller().waits().len()
                <= old(self).poller().waits().len() + 1,
            final(self).poller().waits().subrange(0, old(self).poller().waits().len() as int)
                == old(self).poller().waits(),
            old(self).poller().state_of() is Uninitialized ==> final(self).poller().start_status() is Some,
            old(self).poller().start_status() is Some ==> final(self).poller().start_status() == old(
                self,
            ).poller().start_status(),
            !(old(self).poller().state_of() is Ready) && final(self).poller().start_status() == Some(
                SPX_NOERROR,
            ) ==> final(self).poller().waits().len() == old(self).poller().waits().len() + 1,
            final(self).poller().start_status() != Some(SPX_NOERROR) ==> final(self).poller().waits()
                == old(self).poller().waits(),
            r is NotReady <==> final(self).poller().state_of() is Pending,
            final(self).poller().state_of() matches CompletionState::Ready(o) ==> r == Async::Ready(o),
            r matches Async::Ready(o) ==> final(self).poller().state_of() == CompletionState::Ready(o),
    {
        let mut unused: u64 = SPXHANDLE_INVALID;
        self.base.poll(start, wait, &mut unused)
    }
}

/// A value built from a shared result handle; building may fail even though
/// the native action succeeded.
pub trait FromHandle: Sized {
    /// Whether a value can be built from this result handle.
    spec fn accepts_handle(handle: SmartHandle) -> bool;

    /// The error when it cannot.
    spec fn rejection(handle: SmartHandle) -> SpxError;

    /// The result handle a value was built from.
    spec fn built_from(&self) -> SmartHandle;

    fn from_handle(handle: Arc<SmartHandle>) -> (r: Result<Self, SpxError>)
        ensures
            Self::accepts_handle(*handle) ==> (r matches Ok(v) && v.built_from() == *handle),
            !Self::accepts_handle(*handle) ==> r == Err::<Self, SpxError>(Self::rejection(*handle)),
    ;
}

/// A native action that, on success, has populated a result handle. The
/// handle the wait call wrote is kept in a slot; on success it moves into one
/// shared owned handle, which every later poll hands out again. A handle
/// populated but never moved is due for release when the extractor goes away.
pub struct AsyncResultHandle {
    base: BaseAsyncHandle,
    slot: u64,
    result: Option<Arc<SmartHandle>>,
    result_role: HandleRole,
}

impl AsyncResultHandle {
    pub closed spec fn poller(&self) -> BaseAsyncHandle {
        self.base
    }

    /// The last value a wait call wrote for the result handle.
    pub closed spec fn slot(&self) -> u64 {
        self.slot
    }

    /// The owned result handle, once the action has succeeded.
    pub closed spec fn result_of(&self) -> Option<SmartHandle> {
        match self.result {
            Some(h) => Some(*h),
            None => None,
        }
    }

    pub closed spec fn result_role_of(&self) -> HandleRole {
        self.result_role
    }

    /// The result is owned exactly when the action has succeeded, and it is
    /// the handle the last wait call wrote.
    pub closed spec fn wf(&self) -> bool {
        &&& self.base.wf()
        &&& (self.result is Some <==> self.base.state_of() == CompletionState::Ready(Ok(())))
        &&& (self.result matches Some(h) ==> h.value() == self.slot && h.role_of() == self.result_role)
    }

    /// The handle whose release call the extractor owes if it goes away now:
    /// a populated slot whose handle was never moved into the owned result.
    pub open spec fn release_due(&self) -> Option<u64> {
        if self.result_of() is None && self.slot() != SPXHANDLE_INVALID {
            Some(self.slot())
        } else {
            None
        }
    }

    /// A poller of the action that the session `init_handle` starts, polled at
    /// the result cadence, whose result handles have the role `result_role`.
    pub fn create(init_handle: u64, async_role: HandleRole, result_role: HandleRole) -> (r:
        AsyncResultHandle)
        ensures
            r.wf(),
            r.poller().state_of() is Uninitialized,
            r.poller().start_status() is None,
            r.poller().waits().len() == 0,
            r.poller().action_handle() is None,
            r.poller().async_role_of() == async_role,
            r.poller().init_handle_of() == init_handle,
            r.poller().poll_interval_of() == RESULT_POLL_INTERVAL_MS,
            r.slot() == SPXHANDLE_INVALID,
            r.result_of() is None,
            r.release_due() is None,
            r.result_role_of() == result_role,
    {
        AsyncResultHandle {
            base: BaseAsyncHandle::create(init_handle, async_role, RESULT_POLL_INTERVAL_MS),
            slot: SPXHANDLE_INVALID,
            result: None,
            result_role,
        }
    }

    pub fn state(&self) -> (r: CompletionState)
        ensures
            r == self.poller().state_of(),
    {
        self.base.state()
    }

    pub fn poll_interval_ms(&self) -> (r: u64)
        ensures
            r == self.poller().poll_interval_of(),
    {
        self.base.poll_interval_ms()
    }

    pub fn async_role(&self) -> (r: HandleRole)
        ensures
            r == self.poller().async_role_of(),
    {
        self.base.async_role()
    }

    pub fn result_role(&self) -> (r: HandleRole)
        ensures
            r == self.result_role_of(),
    {
        self.result_role
    }

    /// The async-action handle whose release call is due when the extractor
    /// is dropped (see `BaseAsyncHandle::release_action`).
    pub fn release_action(&mut self) -> (r: Option<u64>)
        requires
            old(self).wf(),
        ensures
            final(self).wf(),
            final(self).slot() == old(self).slot(),
            final(self).result_of() == old(self).result_of(),
            final(self).result_role_of() == old(self).result_role_of(),
            final(self).poller().state_of() == old(self).poller().state_of(),
            match old(self).poller().action_handle() {
                Some(h) => (!h.is_released() ==> r == Some(h.value())) && (h.is_released() ==> r is None),
                None => r is None,
            },
    {
        self.base.release_action()
    }

    /// Whether the result handle has been moved into its shared owner.
    pub fn is_extracted(&self) -> (r: bool)
        ensures
            r == (self.result_of() is Some),
    {
        self.result.is_some()
    }

    /// Another share of the owned result handle, once there is one.
    pub fn shared_result(&self) -> (r: Option<Arc<SmartHandle>>)
        ensures
            match r {
                Some(h) => self.result_of() == Some(*h),
                None => self.result_of() is None,
            },
    {
        match &self.result {
            Some(h) => Some(h.clone()),
            None => None,
        }
    }

    /// Takes what one drive of the poller gave: its outcome, and the value
    /// that the wait call wrote for the result handle (or the slot's value if
    /// no wait call was made). On success the written handle moves into the
    /// shared owned result, once; later successes hand out the same one.
    pub fn take_result(&mut self, outcome: Async<Result<(), SpxError>>, written: u64) -> (r: Async<
        Result<Arc<SmartHandle>, SpxError>,
    >)
        requires
            old(self).poller().wf(),
            outcome is NotReady <==> old(self).poller().state_of() is Pending,
            outcome matches Async::Ready(o) ==> old(self).poller().state_of() == CompletionState::Ready(o),
            old(self).result_of() matches Some(h) ==> {
                &&& h.value() == old(self).slot()
                &&& h.role_of() == old(self).result_role_of()
                &&& written == old(self).slot()
                &&& old(self).poller().state_of() == CompletionState::Ready(Ok(()))
            },
        ensures
            final(self).wf(),
            final(self).poller() == old(self).poller(),
            final(self).result_role_of() == old(self).result_role_of(),
            final(self).slot() == written,
            r is NotReady <==> outcome is NotReady,
            outcome matches Async::Ready(Err(e)) ==> (r matches Async::Ready(Err(e2)) && e2 == e),
            old(self).poller().state_of() == CompletionState::Ready(Ok(())) ==> {
                &&& r matches Async::Ready(Ok(h)) && {
                    &&& h.value() == written
                    &&& h.role_of() == old(self).result_role_of()
                    &&& final(self).result_of() == Some(*h)
                    &&& (old(self).result_of() is None ==> !h.is_released())
                }
                &&& final(self).release_due() is None
            },
            old(self).result_of() is Some ==> final(self).result_of() == old(self).result_of(),
    {
        self.slot = written;
        match outcome {
            Async::NotReady => Async::NotReady,
            Async::Ready(Err(e)) => Async::Ready(Err(e)),
            Async::Ready(Ok(u)) => {
                assert(u == ());
                match &self.result {
                    Some(h) => Async::Ready(Ok(h.clone())),
                    None => {
                        let h = Arc::new(SmartHandle::create(written, self.result_role));
                        self.result = Some(h.clone());
                        Async::Ready(Ok(h))
                    },
                }
            },
        }
    }

    /// One drive (see `BaseAsyncHandle::poll`); the wait call writes into the
    /// slot. On success the shared result handle is handed out, then and on
    /// every later drive.
    pub fn poll_handle<S: AsyncStart, W: AsyncWait>(&mut self, start: &mut S, wait: &mut W) -> (r:
        Async<Result<Arc<SmartHandle>, SpxError>>)
        requires
            old(self).wf(),
        ensures
            final(self).wf(),
            final(self).poller().wf(),
            final(self).poller().calls_recorded(),
            old(self).poller().state_of() is Uninitialized ==> final(self).poller().start_status() is Some,
            old(self).poller().start_status() is Some ==> final(self).poller().start_status() == old(
                self,
            ).poller().start_status(),
            !(old(self).poller().state_of() is Ready) && final(self).poller().start_status() == Some(
                SPX_NOERROR,
            ) ==> final(self).poller().waits().len() == old(self).poller().waits().len() + 1,
            final(self).poller().start_status() != Some(SPX_NOERROR) ==> final(self).poller().waits()
                == old(self).poller().waits(),
            final(self).poller().waits().subrange(0, old(self).poller().waits().len() as int)
                == old(self).poller().waits(),
            final(self).poller().init_handle_of() == old(self).poller().init_handle_of(),
            final(self).poller().async_role_of() == old(self).poller().async_role_of(),
            final(self).poller().poll_interval_of() == old(self).poller().poll_interval_of(),
            final(self).result_role_of() == old(self).result_role_of(),
            !(old(self).poller().state_of() is Uninitialized) ==> *final(start) == *old(start),
            old(self).poller().state_of() is Ready ==> {
                &&& final(self).poller() == old(self).poller()
                &&& final(self).slot() == old(self).slot()
                &&& final(self).result_of() == old(self).result_of()
                &&& *final(wait) == *old(wait)
            },
            r is NotReady <==> final(self).poller().state_of() is Pending,
            final(self).poller().state_of() matches CompletionState::Ready(Err(e)) ==> (r matches Async::Ready(Err(e2)) && e2 == e),
            final(self).poller().state_of() == CompletionState::Ready(Ok(())) ==> final(self).release_due() is None,
            final(self).poller().state_of() == CompletionState::Ready(Ok(())) ==> (r matches Async::Ready(Ok(h)) && {
                &&& final(self).result_of() == Some(*h)
                &&& h.value() == final(self).slot()
                &&& h.role_of() == old(self).result_role_of()
                &&& (old(self).result_of() is None ==> !h.is_released())
            }),
    {
        let mut written: u64 = self.slot;
        let outcome = self.base.poll(start, wait, &mut written);
        self.take_result(outcome, written)
    }

    /// One drive that, on success, builds the caller's value from a share of
    /// the result handle. A failure to build it is the drive's error.
    pub fn poll<V: FromHandle, S: AsyncStart, W: AsyncWait>(
        &mut self,
        start: &mut S,
        wait: &mut W,
    ) -> (r: Async<Result<V, SpxError>>)
        requires
            old(self).wf(),
        ensures
            final(self).wf(),
            final(self).poller().wf(),
            final(self).poller().calls_recorded(),
            old(self).poller().state_of() is Uninitialized ==> final(self).poller().start_status() is Some,
            old(self).poller().start_status() is Some ==> final(self).poller().start_status() == old(
                self,
            ).poller().start_status(),
            !(old(self).poller().state_of() is Ready) && final(self).poller().start_status() == Some(
                SPX_NOERROR,
            ) ==> final(self).poller().waits().len() == old(self).poller().waits().len() + 1,
            final(self).poller().start_status() != Some(SPX_NOERROR) ==> final(self).poller().waits()
                == old(self).poller().waits(),
            final(self).poller().waits().subrange(0, old(self).poller().waits().len() as int)
                == old(self).poller().waits(),
            final(self).poller().init_handle_of() == old(self).poller().init_handle_of(),
            final(self).poller().async_role_of() == old(self).poller().async_role_of(),
            final(self).poller().poll_interval_of() == old(self).poller().poll_interval_of(),
            final(self).result_role_of() == old(self).result_role_of(),
            !(old(self).poller().state_of() is Uninitialized) ==> *final(start) == *old(start),
            old(self).poller().state_of() is Ready ==> {
                &&& final(self).poller() == old(self).poller()
                &&& final(self).slot() == old(self).slot()
                &&& final(self).result_of() == old(self).result_of()
                &&& *final(wait) == *old(wait)
            },
            r is NotReady <==> final(self).poller().state_of() is Pending,
            final(self).poller().state_of() matches CompletionState::Ready(Err(e)) ==> (r matches Async::Ready(Err(e2)) && e2 == e),
            final(self).poller().state_of() == CompletionState::Ready(Ok(())) ==> final(self).release_due() is None,
            final(self).poller().state_of() == CompletionState::Ready(Ok(())) ==> {
                &&& final(self).result_of() is Some
                &&& final(self).result_of().unwrap().value() == final(self).slot()
                &&& final(self).result_of().unwrap().role_of() == old(self).result_role_of()
                &&& (V::accepts_handle(final(self).result_of().unwrap()) ==> (r matches Async::Ready(
                    Ok(v),
                ) && v.built_from() == final(self).result_of().unwrap()))
                &&& (!V::accepts_handle(final(self).result_of().unwrap()) ==> r == Async::Ready(
                    Err::<V, SpxError>(V::rejection(final(self).result_of().unwrap())),
                ))
            },
    {
        match self.poll_handle(start, wait) {
            Async::NotReady => Async::NotReady,
            Async::Ready(Err(e)) => Async::Ready(Err(e)),
            Async::Ready(Ok(h)) => Async::Ready(V::from_handle(h)),
        }
    }

    /// Called when the extractor goes away: the populated result handle that
    /// was never moved out, whose release call is now due. Nothing is due a
    /// second time.
    pub fn release_unconsumed(&mut self) -> (r: Option<u64>)
        requires
            old(self).wf(),
        ensures
            final(self).wf(),
            r == old(self).release_due(),
            final(self).release_due() is None,
            final(self).poller() == old(self).poller(),
            final(self).result_of() == old(self).result_of(),
            final(self).result_role_of() == old(self).result_role_of(),
    {
        if self.result.is_none() && self.slot != SPXHANDLE_INVALID {
            let h = self.slot;
            self.slot = SPXHANDLE_INVALID;
            Some(h)
        } else {
            None
        }
    }
}

/// A poller's state is what the initiator's status and the wait statuses it
/// has seen lead to, and every wait it made was made while the action was
/// pending.
pub proof fn lemma_state_follows_statuses(p: BaseAsyncHandle)
    requires
        p.wf(),
    ensures
        match p.start_status() {
            None => p.state_of() is Uninitialized && p.waits().len() == 0,
            Some(st) => {
                &&& p.state_of() == run_waits(after_start(st), p.waits())
                &&& waits_made(after_start(st), p.waits()) == p.waits().len()
            },
        },
{
}

/// A well-formed poller has recorded its calls: the initiator at most once,
/// with the session handle, and every wait on the action handle with a zero
/// timeout.
pub proof fn lemma_poller_records_calls(p: BaseAsyncHandle)
    requires
        p.wf(),
    ensures
        p.calls_recorded(),
{
}

/// What a well-formed extractor's invariant gives its callers: its poller is
/// well-formed, it owns a result exactly when the poller succeeded, and that
/// result is the handle in the slot, with the result role.
pub proof fn lemma_extractor_facts(x: AsyncResultHandle)
    requires
        x.wf(),
    ensures
        x.poller().wf(),
        x.result_of() is Some <==> x.poller().state_of() == CompletionState::Ready(Ok(())),
        x.result_of() matches Some(h) ==> h.value() == x.slot() && h.role_of() == x.result_role_of(),
{
}

/// An extractor holds its result exactly when the statuses it has seen lead
/// to success: the result handle is taken after the success status and never
/// before it.
pub proof fn lemma_result_follows_statuses(x: AsyncResultHandle)
    requires
        x.wf(),
    ensures
        x.poller().start_status() matches Some(st) ==> (x.result_of() is Some <==> run_waits(
            after_start(st),
            x.poller().waits(),
        ) == CompletionState::Ready(Ok(()))),
        x.poller().start_status() is None ==> x.result_of() is None,
{
    lemma_state_follows_statuses(x.poller());
}

/// An extractor whose action started and saw `n` timeouts and then success
/// has succeeded and owns its result; after fewer statuses it was pending.
pub proof fn lemma_extractor_timeouts_then_success(x: AsyncResultHandle, n: nat)
    requires
        x.wf(),
        x.poller().start_status() == Some(SPX_NOERROR),
        x.poller().waits() == timeouts(n).push(SPX_NOERROR),
    ensures
        x.poller().state_of() == CompletionState::Ready(Ok(())),
        x.result_of() is Some,
        x.poller().wait_calls().len() == n + 1,
{
    lemma_extractor_facts(x);
    lemma_state_follows_statuses(x.poller());
    lemma_timeouts_then_success(n, Seq::empty());
    assert(timeouts(n).push(SPX_NOERROR) + Seq::<usize>::empty() =~= timeouts(n).push(SPX_NOERROR));
}

/// An extractor whose action started and saw `n` timeouts and then a failure
/// status has failed with that status and owns no result.
pub proof fn lemma_extractor_failure_is_terminal(x: AsyncResultHandle, n: nat, hr: usize)
    requires
        x.wf(),
        x.poller().start_status() == Some(SPX_NOERROR),
        x.poller().waits() == timeouts(n).push(hr),
        hr != SPXERR_TIMEOUT,
        hr != SPX_NOERROR,
    ensures
        x.poller().state_of() == CompletionState::Ready(Err(SpxError::General(hr))),
        x.result_of() is None,
{
    lemma_extractor_facts(x);
    lemma_state_follows_statuses(x.poller());
    lemma_timeouts_keep_pending(n);
    lemma_run_waits_append(CompletionState::Pending, timeouts(n), seq![hr]);
    assert(timeouts(n).push(hr) =~= timeouts(n) + seq![hr]);
    lemma_failure_is_terminal(hr, Seq::empty());
    assert(seq![hr] + Seq::<usize>::empty() =~= seq![hr]);
}

/// The release calls still owed for a result: one by the extractor if it
/// holds a populated handle that was never moved, one by the owned result
/// handle if that has not been released.
pub open spec fn result_releases_owed(x: AsyncResultHandle) -> nat {
    (if x.release_due() is Some { 1nat } else { 0nat }) + match x.result_of() {
        Some(h) => if h.is_released() { 0nat } else { 1nat },
        None => 0nat,
    }
}

/// An extractor that has succeeded owes exactly one release call for its
/// result, and it is of the handle the wait call wrote: the extractor itself
/// owes none, since that handle moved into the owned result.
pub proof fn lemma_success_releases_result_once(x: AsyncResultHandle)
    requires
        x.wf(),
        x.poller().state_of() == CompletionState::Ready(Ok(())),
        x.result_of() matches Some(h) && !h.is_released(),
    ensures
        x.release_due() is None,
        x.result_of() matches Some(h) && h.value() == x.slot(),
        result_releases_owed(x) == 1,
{
}

proof fn lemma_run_waits_push(s: CompletionState, statuses: Seq<usize>, status: usize)
    ensures
        run_waits(s, statuses.push(status)) == after_wait(run_waits(s, statuses), status),
    decreases statuses.len(),
{
    let pushed = statuses.push(status);
    assert(pushed[0] == if statuses.len() > 0 { statuses[0] } else { status });
    if statuses.len() > 0 {
        assert(pushed.drop_first() =~= statuses.drop_first().push(status));
        lemma_run_waits_push(after_wait(s, statuses[0]), statuses.drop_first(), status);
    } else {
        assert(pushed.drop_first() =~= Seq::<usize>::empty());
        assert(run_waits(after_wait(s, status), pushed.drop_first()) == after_wait(s, status));
    }
}

proof fn lemma_waits_made_push(s: CompletionState, statuses: Seq<usize>, status: usize)
    requires
        waits_made(s, statuses) == statuses.len(),
        run_waits(s, statuses) is Pending,
    ensures
        waits_made(s, statuses.push(status)) == statuses.len() + 1,
    decreases statuses.len(),
{
    let pushed = statuses.push(status);
    assert(pushed[0] == if statuses.len() > 0 { statuses[0] } else { status });
    if statuses.len() > 0 {
        assert(pushed.drop_first() =~= statuses.drop_first().push(status));
        lemma_waits_made_push(after_wait(s, statuses[0]), statuses.drop_first(), status);
    } else {
        assert(pushed.drop_first() =~= Seq::<usize>::empty());
        assert(waits_made(after_wait(s, status), pushed.drop_first()) == 0);
    }
}

/// Running the wait statuses `a` and then `b` is running `a + b`, and the
/// waits made add up.
pub proof fn lemma_run_waits_append(s: CompletionState, a: Seq<usize>, b: Seq<usize>)
    ensures
        run_waits(s, a + b) == run_waits(run_waits(s, a), b),
        waits_made(s, a + b) == waits_made(s, a) + waits_made(run_waits(s, a), b),
    decreases a.len(),
{
    if a.len() > 0 {
        assert((a + b).drop_first() =~= a.drop_first() + b);
        assert((a + b)[0] == a[0]);
        lemma_run_waits_append(after_wait(s, a[0]), a.drop_first(), b);
        if !(s is Pending) {
            lemma_not_pending_is_stable(s, a);
        }
    } else {
        assert(a + b =~= b);
    }
}

/// A poller that is not pending makes no wait call and keeps its state,
/// whatever the native layer would answer.
pub proof fn lemma_not_pending_is_stable(s: CompletionState, statuses: Seq<usize>)
    requires
        !(s is Pending),
    ensures
        run_waits(s, statuses) == s,
        waits_made(s, statuses) == 0,
    decreases statuses.len(),
{
    if statuses.len() > 0 {
        lemma_not_pending_is_stable(after_wait(s, statuses[0]), statuses.drop_first());
    }
}

/// Once a poller is ready, any number of further drives return the same
/// outcome and make no wait call.
pub proof fn lemma_ready_is_idempotent(o: Result<(), SpxError>, statuses: Seq<usize>)
    ensures
        run_waits(CompletionState::Ready(o), statuses) == CompletionState::Ready(o),
        waits_made(CompletionState::Ready(o), statuses) == 0,
{
    lemma_not_pending_is_stable(CompletionState::Ready(o), statuses);
}

/// Timeouts keep a pending action pending, one wait call each.
pub proof fn lemma_timeouts_keep_pending(n: nat)
    ensures
        run_waits(CompletionState::Pending, timeouts(n)) == CompletionState::Pending,
        waits_made(CompletionState::Pending, timeouts(n)) == n,
    decreases n,
{
    if n > 0 {
        assert(timeouts(n).drop_first() =~= timeouts((n - 1) as nat));
        lemma_timeouts_keep_pending((n - 1) as nat);
    }
}

/// When the native layer answers `n` timeouts and then success (and anything
/// after that), the poller makes exactly `n + 1` wait calls, stays pending
/// through every timeout, and is ready with success after the last call.
pub proof fn lemma_timeouts_then_success(n: nat, rest: Seq<usize>)
    ensures
        run_waits(CompletionState::Pending, timeouts(n).push(SPX_NOERROR) + rest)
            == CompletionState::Ready(Ok(())),
        waits_made(CompletionState::Pending, timeouts(n).push(SPX_NOERROR) + rest) == n + 1,
        forall|k: nat|
            k <= n ==> #[trigger] run_waits(CompletionState::Pending, timeouts(k))
                == CompletionState::Pending,
{
    let t = timeouts(n);
    let done = seq![SPX_NOERROR];
    assert(t.push(SPX_NOERROR) + rest =~= t + (done + rest));
    lemma_timeouts_keep_pending(n);
    lemma_run_waits_append(CompletionState::Pending, t, done + rest);
    assert((done + rest)[0] == SPX_NOERROR);
    assert((done + rest).drop_first() =~= rest);
    lemma_ready_is_idempotent(Ok(()), rest);
    assert forall|k: nat| k <= n implies #[trigger] run_waits(CompletionState::Pending, timeouts(k))
        == CompletionState::Pending by {
        lemma_timeouts_keep_pending(k);
    }
}

/// A wait status that is neither a timeout nor success ends a pending action
/// at once with that status, and no further wait call is made.
pub proof fn lemma_failure_is_terminal(status: usize, rest: Seq<usize>)
    requires
        status != SPXERR_TIMEOUT,
        status != SPX_NOERROR,
    ensures
        run_waits(CompletionState::Pending, seq![status] + rest)
            == CompletionState::Ready(Err(SpxError::General(status))),
        waits_made(CompletionState::Pending, seq![status] + rest) == 1,
{
    let all = seq![status] + rest;
    assert(all[0] == status);
    assert(all.drop_first() =~= rest);
    lemma_ready_is_idempotent(Err(SpxError::General(status)), rest);
}

/// An initiator that fails ends the action with its status before any wait
/// call.
pub proof fn lemma_start_failure_is_terminal(status: usize, statuses: Seq<usize>)
    requires
        status != SPX_NOERROR,
    ensures
        after_start(status) == CompletionState::Ready(Err(SpxError::General(status))),
        run_waits(after_start(status), statuses) == after_start(status),
        waits_made(after_start(status), statuses) == 0,
{
    lemma_ready_is_idempotent(Err(SpxError::General(status)), statuses);
}

} // verus!
