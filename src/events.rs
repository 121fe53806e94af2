//! Events a recognizer session emits, built from the handles a native
//! callback passes.
use vstd::prelude::*;

use crate::channel::{accepts, Dispatched, EventBridge};
use crate::error::{populate, SpxError, SPX_NOERROR};
use crate::handle::{HandleRole, SmartHandle};
use crate::result::{cancellation_reason_code, CancellationReason, RecognitionResult};
use crate::strings::{is_buffer_text, string_from_buffer};
use std::sync::Arc;

verus! {

/// Most characters of a session id (a UUID).
pub const SESSION_ID_SIZE: usize = 36;

/// What a native callback hands over: the event handle and, for events that
/// carry a result, the status and value of the native call that reads the
/// event's result handle.
#[derive(Debug, Clone, Copy, PartialEq, Eq, Structural)]
pub struct NativeEvent {
    pub handle: u64,
    pub result_status: usize,
    pub result_handle: u64,
}

/// An event type that can be built from what a native callback hands over.
pub trait EventFactory: Sized {
    /// The event handle the value owns.
    spec fn event_handle(&self) -> u64;

    /// The result handle the value shares, for events that carry a result.
    spec fn carried_result(&self) -> Option<u64>;

    fn create(event: NativeEvent) -> (r: Result<Self, SpxError>)
        ensures
            r matches Ok(e) ==> e.event_handle() == event.handle,
            r matches Ok(e) ==> (e.carried_result() is Some ==> e.carried_result() == Some(
                event.result_handle,
            )),
    ;

    /// The raw result handle the event carries, if it carries one.
    fn result_handle(&self) -> (r: Option<u64>)
        ensures
            r == self.carried_result(),
    ;

    /// The raw event handle, for its release call.
    fn handle(&self) -> (r: u64)
        ensures
            r == self.event_handle(),
    ;
}

/// The owner of one event handle.
pub struct Event {
    handle: SmartHandle,
}

impl Event {
    pub closed spec fn handle_of(&self) -> SmartHandle {
        self.handle
    }

    /// The raw event handle, for further native calls.
    pub fn get_handle(&self) -> (r: u64)
        ensures
            r == self.event_handle(),
            r == self.handle_of().value(),
    {
        self.handle.get()
    }
}

impl EventFactory for Event {
    closed spec fn carried_result(&self) -> Option<u64> {
        None
    }

    fn result_handle(&self) -> Option<u64> {
        None
    }

    closed spec fn event_handle(&self) -> u64 {
        self.handle.value()
    }

    fn create(event: NativeEvent) -> (r: Result<Event, SpxError>) {
        Ok(Event { handle: SmartHandle::create(event.handle, HandleRole::Event) })
    }

    fn handle(&self) -> (r: u64) {
        self.handle.get()
    }
}

/// An event of a session's lifecycle.
pub struct SessionEvent {
    base: Event,
}

impl SessionEvent {
    pub closed spec fn event(&self) -> Event {
        self.base
    }

    pub fn get_handle(&self) -> (r: u64)
        ensures
            r == self.event_handle(),
            r == self.event().handle_of().value(),
    {
        self.base.get_handle()
    }

    /// The session id, from the buffer the native session-id getter filled.
    pub fn session_id(&self, status: usize, buffer: &Vec<u8>) -> (r: Result<String, SpxError>)
        ensures
            is_buffer_text(status, buffer@, r),
    {
        string_from_buffer(status, buffer)
    }
}

impl EventFactory for SessionEvent {
    closed spec fn carried_result(&self) -> Option<u64> {
        None
    }

    fn result_handle(&self) -> Option<u64> {
        None
    }

    closed spec fn event_handle(&self) -> u64 {
        self.base.handle.value()
    }

    fn create(event: NativeEvent) -> (r: Result<SessionEvent, SpxError>) {
        match Event::create(event) {
            Ok(base) => Ok(SessionEvent { base }),
            Err(e) => Err(e),
        }
    }

    fn handle(&self) -> (r: u64) {
        self.base.handle.get()
    }
}

/// An event of the recognition in a session.
pub struct RecognitionEvent {
    base: SessionEvent,
}

impl RecognitionEvent {
    pub closed spec fn session_event(&self) -> SessionEvent {
        self.base
    }

    pub fn get_handle(&self) -> (r: u64)
        ensures
            r == self.event_handle(),
            r == self.session_event().event().handle_of().value(),
    {
        self.base.get_handle()
    }

    pub fn session_id(&self, status: usize, buffer: &Vec<u8>) -> (r: Result<String, SpxError>)
        ensures
            is_buffer_text(status, buffer@, r),
    {
        self.base.session_id(status, buffer)
    }

    /// The offset of the event, from the value the native offset getter wrote.
    pub fn offset(&self, status: usize, value: u64) -> (r: Result<u64, SpxError>)
        ensures
            status == SPX_NOERROR ==> r == Ok::<u64, SpxError>(value),
            status != SPX_NOERROR ==> r == Err::<u64, SpxError>(SpxError::General(status)),
    {
        populate(status, value)
    }
}

impl EventFactory for RecognitionEvent {
    closed spec fn carried_result(&self) -> Option<u64> {
        None
    }

    fn result_handle(&self) -> Option<u64> {
        None
    }

    closed spec fn event_handle(&self) -> u64 {
        self.base.base.handle.value()
    }

    fn create(event: NativeEvent) -> (r: Result<RecognitionEvent, SpxError>) {
        match SessionEvent::create(event) {
            Ok(base) => Ok(RecognitionEvent { base }),
            Err(e) => Err(e),
        }
    }

    fn handle(&self) -> (r: u64) {
        self.base.base.handle.get()
    }
}

/// A recognition event that carries a result; the result handle is shared
/// with every result read from the event.
pub struct BaseRecognitionResultEvent {
    base: RecognitionEvent,
    result_handle: Arc<SmartHandle>,
}

impl BaseRecognitionResultEvent {
    pub closed spec fn recognition_event(&self) -> RecognitionEvent {
        self.base
    }

    pub closed spec fn result_handle_of(&self) -> SmartHandle {
        *self.result_handle
    }

    /// The shared owner of the result handle that the native result getter
    /// wrote, or that getter's error.
    pub fn get_result_handle(status: usize, handle: u64) -> (r: Result<Arc<SmartHandle>, SpxError>)
        ensures
            status != SPX_NOERROR ==> r == Err::<Arc<SmartHandle>, SpxError>(
                SpxError::General(status),
            ),
            status == SPX_NOERROR ==> (r matches Ok(h) && h.value() == handle && h.role_of()
                == HandleRole::RecognitionResult && !h.is_released()),
    {
        match populate(status, handle) {
            Ok(h) => Ok(Arc::new(SmartHandle::create(h, HandleRole::RecognitionResult))),
            Err(e) => Err(e),
        }
    }

    pub fn get_handle(&self) -> (r: u64)
        ensures
            r == self.event_handle(),
            r == self.recognition_event().session_event().event().handle_of().value(),
    {
        self.base.get_handle()
    }

    pub fn session_id(&self, status: usize, buffer: &Vec<u8>) -> (r: Result<String, SpxError>)
        ensures
            is_buffer_text(status, buffer@, r),
    {
        self.base.session_id(status, buffer)
    }

    pub fn offset(&self, status: usize, value: u64) -> (r: Result<u64, SpxError>)
        ensures
            status == SPX_NOERROR ==> r == Ok::<u64, SpxError>(value),
            status != SPX_NOERROR ==> r == Err::<u64, SpxError>(SpxError::General(status)),
    {
        self.base.offset(status, value)
    }
}

impl EventFactory for BaseRecognitionResultEvent {
    closed spec fn carried_result(&self) -> Option<u64> {
        Some(self.result_handle.value())
    }

    fn result_handle(&self) -> Option<u64> {
        Some(self.result_handle.get())
    }

    closed spec fn event_handle(&self) -> u64 {
        self.base.base.base.handle.value()
    }

    /// Fails when the native call that reads the result handle failed.
    fn create(event: NativeEvent) -> (r: Result<BaseRecognitionResultEvent, SpxError>) {
        let base = match RecognitionEvent::create(event) {
            Ok(b) => b,
            Err(e) => return Err(e),
        };
        match BaseRecognitionResultEvent::get_result_handle(event.result_status, event.result_handle) {
            Ok(result_handle) => Ok(BaseRecognitionResultEvent { base, result_handle }),
            Err(e) => Err(e),
        }
    }

    fn handle(&self) -> (r: u64) {
        self.base.base.base.handle.get()
    }
}

/// An event that carries a recognition result (recognizing, recognized).
pub struct RecognitionResultEvent {
    base: BaseRecognitionResultEvent,
}

impl RecognitionResultEvent {
    pub closed spec fn result_event(&self) -> BaseRecognitionResultEvent {
        self.base
    }

    /// The result the event carries; it shares the event's result handle.
    pub fn result(&self) -> (r: Result<RecognitionResult, SpxError>)
        ensures
            r matches Ok(res) && res.handle_of() == self.result_event().result_handle_of(),
    {
        RecognitionResult::create(self.base.result_handle.clone())
    }

    pub fn get_handle(&self) -> (r: u64)
        ensures
            r == self.event_handle(),
            r == self.result_event().recognition_event().session_event().event().handle_of().value(),
    {
        self.base.get_handle()
    }

    pub fn session_id(&self, status: usize, buffer: &Vec<u8>) -> (r: Result<String, SpxError>)
        ensures
            is_buffer_text(status, buffer@, r),
    {
        self.base.session_id(status, buffer)
    }

    pub fn offset(&self, status: usize, value: u64) -> (r: Result<u64, SpxError>)
        ensures
            status == SPX_NOERROR ==> r == Ok::<u64, SpxError>(value),
            status != SPX_NOERROR ==> r == Err::<u64, SpxError>(SpxError::General(status)),
    {
        self.base.offset(status, value)
    }
}

impl EventFactory for RecognitionResultEvent {
    closed spec fn carried_result(&self) -> Option<u64> {
        Some(self.base.result_handle.value())
    }

    fn result_handle(&self) -> Option<u64> {
        Some(self.base.result_handle.get())
    }

    closed spec fn event_handle(&self) -> u64 {
        self.base.base.base.base.handle.value()
    }

    fn create(event: NativeEvent) -> (r: Result<RecognitionResultEvent, SpxError>) {
        match BaseRecognitionResultEvent::create(event) {
            Ok(base) => Ok(RecognitionResultEvent { base }),
            Err(e) => Err(e),
        }
    }

    fn handle(&self) -> (r: u64) {
        self.base.base.base.base.handle.get()
    }
}

/// An event that says that a recognition was canceled.
pub struct RecognitionCanceledEvent {
    base: BaseRecognitionResultEvent,
}

impl RecognitionCanceledEvent {
    pub closed spec fn result_event(&self) -> BaseRecognitionResultEvent {
        self.base
    }

    pub fn get_handle(&self) -> (r: u64)
        ensures
            r == self.event_handle(),
            r == self.result_event().recognition_event().session_event().event().handle_of().value(),
    {
        self.base.get_handle()
    }

    /// The raw result handle, for the native call that reads the reason.
    pub fn get_result_handle(&self) -> (r: u64)
        ensures
            r == self.result_event().result_handle_of().value(),
    {
        self.base.result_handle.get()
    }

    /// The cancellation reason, from the code the native getter wrote. A code
    /// that names no reason is reported as a general error carrying that code.
    pub fn reason(&self, status: usize, code: u32) -> (r: Result<CancellationReason, SpxError>)
        ensures
            status != SPX_NOERROR ==> r == Err::<CancellationReason, SpxError>(
                SpxError::General(status),
            ),
            status == SPX_NOERROR && (code == 1 || code == 2) ==> (r matches Ok(reason)
                && cancellation_reason_code(reason) == code),
            status == SPX_NOERROR && code != 1 && code != 2 ==> r == Err::<CancellationReason, SpxError>(
                SpxError::General(code as usize),
            ),
    {
        match populate(status, code) {
            Ok(c) => match CancellationReason::from_u32(c) {
                Some(reason) => Ok(reason),
                None => Err(SpxError::General(c as usize)),
            },
            Err(e) => Err(e),
        }
    }
}

impl EventFactory for RecognitionCanceledEvent {
    closed spec fn carried_result(&self) -> Option<u64> {
        Some(self.base.result_handle.value())
    }

    fn result_handle(&self) -> Option<u64> {
        Some(self.base.result_handle.get())
    }

    closed spec fn event_handle(&self) -> u64 {
        self.base.base.base.base.handle.value()
    }

    fn create(event: NativeEvent) -> (r: Result<RecognitionCanceledEvent, SpxError>) {
        match BaseRecognitionResultEvent::create(event) {
            Ok(base) => Ok(RecognitionCanceledEvent { base }),
            Err(e) => Err(e),
        }
    }

    fn handle(&self) -> (r: u64) {
        self.base.base.base.base.handle.get()
    }
}

/// What the native callback of one event class does: build the event from
/// what the native layer handed over and deliver it without waiting. An
/// event that cannot be built is dropped; one that finds the channel full or
/// no channel registered comes back, so that its handle can be released.
pub fn dispatch_event<T: EventFactory>(bridge: &mut EventBridge<T>, event: NativeEvent) -> (r:
    Dispatched<T>)
    requires
        old(bridge).wf(),
    ensures
        final(bridge).wf(),
        r.outcome is DroppedInvalid ==> final(bridge).current() == old(bridge).current()
            && r.refused is None,
        r.outcome is Delivered ==> {
            &&& r.refused is None
            &&& old(bridge).current() is Some
            &&& accepts(old(bridge).current().unwrap())
            &&& final(bridge).current() is Some
            &&& final(bridge).current().unwrap().capacity == old(bridge).current().unwrap().capacity
            &&& final(bridge).current().unwrap().open == old(bridge).current().unwrap().open
            &&& final(bridge).current().unwrap().items.len() == old(bridge).current().unwrap().items.len() + 1
            &&& final(bridge).current().unwrap().items.drop_last() == old(bridge).current().unwrap().items
            &&& final(bridge).current().unwrap().items.last().event_handle() == event.handle
        },
        r.outcome is DroppedFull ==> {
            &&& old(bridge).current() is Some
            &&& !accepts(old(bridge).current().unwrap())
            &&& final(bridge).current() == old(bridge).current()
            &&& r.refused is Some
            &&& r.refused.unwrap().event_handle() == event.handle
        },
        r.outcome is DroppedClosed ==> {
            &&& old(bridge).current() is None
            &&& final(bridge).current() is None
            &&& r.refused is Some
            &&& r.refused.unwrap().event_handle() == event.handle
        },
        old(bridge).current() is Some && accepts(old(bridge).current().unwrap()) ==> (r.outcome is Delivered
            || r.outcome is DroppedInvalid),
        old(bridge).current() is Some && !accepts(old(bridge).current().unwrap()) ==> (r.outcome is DroppedFull
            || r.outcome is DroppedInvalid),
        old(bridge).current() is None ==> (r.outcome is DroppedClosed || r.outcome is DroppedInvalid),
{
    let built = T::create(event);
    let r = bridge.dispatch(built);
    proof {
        if r.outcome is Delivered {
            assert(bridge.current().unwrap().items.drop_last() =~= old(bridge).current().unwrap().items);
        }
    }
    r
}

} // verus!
