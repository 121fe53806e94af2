//! The speech synthesizer and its results.
use vstd::prelude::*;

use crate::async_handle::{AsyncResultHandle, FromHandle, RESULT_POLL_INTERVAL_MS};
use crate::config::{created_handle, FfiObject};
use crate::error::{populate, SpxError, SPX_NOERROR};
use crate::handle::{HandleRole, SmartHandle};
use crate::strings::{check_c_text, first_nul_at, nul_free};
use vstd::string::StringSliceAdditionalSpecFns;
use std::sync::Arc;

verus! {

/// A synthesizer session, shared by the speak actions made from it.
pub struct SpeechSynthesizer {
    handle: Arc<SmartHandle>,
}

impl SpeechSynthesizer {
    pub closed spec fn handle_of(&self) -> SmartHandle {
        *self.handle
    }

    /// The synthesizer whose handle the native constructor wrote.
    pub fn create(status: usize, handle: u64) -> (r: Result<SpeechSynthesizer, SpxError>)
        ensures
            status != SPX_NOERROR ==> r == Err::<SpeechSynthesizer, SpxError>(
                SpxError::General(status),
            ),
            status == SPX_NOERROR ==> (r matches Ok(s) && s.handle_of().value() == handle
                && s.handle_of().role_of() == HandleRole::Synthesizer),
    {
        match created_handle(status, handle, HandleRole::Synthesizer) {
            Ok(h) => Ok(SpeechSynthesizer { handle: Arc::new(h) }),
            Err(e) => Err(e),
        }
    }

    pub fn get_handle(&self) -> (r: u64)
        ensures
            r == self.handle_of().value(),
    {
        self.handle.get()
    }

    /// The action that speaks a text (or SSML document) and yields the
    /// synthesis result; the initiator passes the text. A text that holds a
    /// NUL byte cannot be handed to the native layer and fails first.
    pub fn speak_async(&self, text: &str) -> (r: Result<AsyncResultHandle, SpxError>)
        ensures
            forall|p: int| #[trigger] first_nul_at(text.spec_bytes(), p) ==> r
                == Err::<AsyncResultHandle, SpxError>(SpxError::StrNulError(p as usize)),
            nul_free(text.spec_bytes()) ==> (r matches Ok(x) && {
                &&& x.wf()
                &&& x.poller().state_of() is Uninitialized
                &&& x.poller().waits().len() == 0
                &&& x.poller().init_handle_of() == self.handle_of().value()
                &&& x.poller().async_role_of() == HandleRole::SynthesizerAsync
                &&& x.poller().poll_interval_of() == RESULT_POLL_INTERVAL_MS
                &&& x.result_role_of() == HandleRole::SynthesisResult
                &&& x.result_of() is None
                &&& x.release_due() is None
            }),
    {
        match check_c_text(text) {
            Ok(()) => Ok(
                AsyncResultHandle::create(
                    self.handle.get(),
                    HandleRole::SynthesizerAsync,
                    HandleRole::SynthesisResult,
                ),
            ),
            Err(e) => Err(e),
        }
    }
}

/// The result of one synthesis.
pub struct SpeechSynthesisResult {
    handle: Arc<SmartHandle>,
}

impl SpeechSynthesisResult {
    pub closed spec fn handle_of(&self) -> SmartHandle {
        *self.handle
    }

    pub fn get_handle(&self) -> (r: u64)
        ensures
            r == self.handle_of().value(),
    {
        self.handle.get()
    }

    /// The length of the audio, from the value the native getter wrote.
    pub fn audio_length(&self, status: usize, len: u32) -> (r: Result<u32, SpxError>)
        ensures
            status == SPX_NOERROR ==> r == Ok::<u32, SpxError>(len),
            status != SPX_NOERROR ==> r == Err::<u32, SpxError>(SpxError::General(status)),
    {
        populate(status, len)
    }

    /// The audio, from the buffer the native getter filled with `filled` bytes.
    pub fn audio_data(&self, status: usize, buffer: FfiObject, filled: u32) -> (r: Result<
        Vec<u8>,
        SpxError,
    >)
        requires
            status == SPX_NOERROR ==> filled <= buffer.buffer@.len(),
        ensures
            status != SPX_NOERROR ==> r == Err::<Vec<u8>, SpxError>(SpxError::General(status)),
            status == SPX_NOERROR ==> (r matches Ok(v) && v@ == buffer.buffer@.take(filled as int)),
    {
        if status != SPX_NOERROR {
            return Err(SpxError::General(status));
        }
        Ok(buffer.into_vec(filled as usize))
    }
}

impl FromHandle for SpeechSynthesisResult {
    /// Every result handle is accepted.
    open spec fn accepts_handle(handle: SmartHandle) -> bool {
        true
    }

    /// Never given: no handle is rejected.
    open spec fn rejection(handle: SmartHandle) -> SpxError {
        SpxError::InvalidCString
    }

    closed spec fn built_from(&self) -> SmartHandle {
        *self.handle
    }

    fn from_handle(handle: Arc<SmartHandle>) -> (r: Result<SpeechSynthesisResult, SpxError>) {
        Ok(SpeechSynthesisResult { handle })
    }
}

} // verus!
