//! The speech recognizer: a session handle from which start, stop and
//! one-shot recognition actions are polled.
use vstd::prelude::*;

use crate::async_handle::{AsyncHandle, AsyncResultHandle, ACTION_POLL_INTERVAL_MS, RESULT_POLL_INTERVAL_MS};
use crate::config::created_handle;
use crate::error::{SpxError, SPX_NOERROR, SPXHANDLE_INVALID};
use crate::handle::{HandleRole, SmartHandle};

verus! {

/// A recognizer session. Pollers made from it only read its handle; the
/// recognizer alone releases it.
pub struct SpeechRecognizer {
    handle: SmartHandle,
}

impl SpeechRecognizer {
    pub closed spec fn handle_of(&self) -> SmartHandle {
        self.handle
    }

    /// The recognizer whose handle the native constructor wrote.
    pub fn create(status: usize, handle: u64) -> (r: Result<SpeechRecognizer, SpxError>)
        ensures
            status != SPX_NOERROR ==> r == Err::<SpeechRecognizer, SpxError>(
                SpxError::General(status),
            ),
            status == SPX_NOERROR ==> (r matches Ok(s) && s.handle_of().value() == handle
                && s.handle_of().role_of() == HandleRole::Recognizer),
    {
        match created_handle(status, handle, HandleRole::Recognizer) {
            Ok(h) => Ok(SpeechRecognizer { handle: h }),
            Err(e) => Err(e),
        }
    }

    /// The audio configuration handle the native constructor is given: the
    /// configuration's, or the invalid handle for the default input.
    pub fn audio_config_handle(audio: Option<u64>) -> (r: u64)
        ensures
            r == match audio {
                Some(h) => h,
                None => SPXHANDLE_INVALID,
            },
    {
        match audio {
            Some(h) => h,
            None => SPXHANDLE_INVALID,
        }
    }

    pub fn get_handle(&self) -> (r: u64)
        ensures
            r == self.handle_of().value(),
    {
        self.handle.get()
    }

    /// The action that starts continuous recognition on this session.
    pub fn start_continuous_recognition(&self) -> (r: AsyncHandle)
        ensures
            r.wf(),
            r.poller().state_of() is Uninitialized,
            r.poller().init_handle_of() == self.handle_of().value(),
            r.poller().waits().len() == 0,
            r.poller().async_role_of() == HandleRole::RecognizerAsync,
            r.poller().poll_interval_of() == ACTION_POLL_INTERVAL_MS,
    {
        AsyncHandle::create(self.handle.get(), HandleRole::RecognizerAsync)
    }

    /// The action that stops continuous recognition on this session.
    pub fn stop_continuous_recognition(&self) -> (r: AsyncHandle)
        ensures
            r.wf(),
            r.poller().state_of() is Uninitialized,
            r.poller().init_handle_of() == self.handle_of().value(),
            r.poller().waits().len() == 0,
            r.poller().async_role_of() == HandleRole::RecognizerAsync,
            r.poller().poll_interval_of() == ACTION_POLL_INTERVAL_MS,
    {
        AsyncHandle::create(self.handle.get(), HandleRole::RecognizerAsync)
    }

    /// The action that recognizes one phrase and yields its result.
    pub fn recognize_once_async(&self) -> (r: AsyncResultHandle)
        ensures
            r.wf(),
            r.poller().state_of() is Uninitialized,
            r.poller().init_handle_of() == self.handle_of().value(),
            r.poller().poll_interval_of() == RESULT_POLL_INTERVAL_MS,
            r.poller().waits().len() == 0,
            r.poller().async_role_of() == HandleRole::RecognizerAsync,
            r.result_role_of() == HandleRole::RecognitionResult,
            r.result_of() is None,
            r.release_due() is None,
    {
        AsyncResultHandle::create(
            self.handle.get(),
            HandleRole::RecognizerAsync,
            HandleRole::RecognitionResult,
        )
    }
}

} // verus!
