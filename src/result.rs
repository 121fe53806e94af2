//! Recognition results and the reason codes the native layer reports.
use vstd::prelude::*;

use crate::async_handle::FromHandle;
use crate::error::{populate, SpxError, SPX_NOERROR};
use crate::handle::SmartHandle;
use crate::strings::{is_buffer_text, string_from_buffer};
use std::sync::Arc;

verus! {

/// Most characters of a result id.
pub const MAX_RESULT_ID_CHAR_COUNT: usize = 128;

/// Most characters of a result text.
pub const MAX_TEXT_CHAR_COUNT: usize = 1024;

/// Why a result was produced.
#[derive(Debug, Clone, Copy, PartialEq, Eq, Structural)]
pub enum ResultReason {
    /// Speech could not be recognized.
    NoMatch,
    /// The recognition was canceled.
    Canceled,
    /// The result holds hypothesis text.
    RecognizingSpeech,
    /// The result holds final text; recognition of this phrase is complete.
    RecognizedSpeech,
    /// The result holds hypothesis text and intent.
    RecognizingIntent,
    /// The result holds final text and intent.
    RecognizedIntent,
    /// The result holds hypothesis text and its translations.
    TranslatingSpeech,
    /// The result holds final text and its translations.
    TranslatedSpeech,
    /// The result holds a non-empty part of the synthesized audio.
    SynthesizingAudio,
    /// The synthesized audio of this phrase is complete.
    SynthesizingAudioCompleted,
}

/// The native code of each result reason.
pub open spec fn result_reason_code(r: ResultReason) -> u32 {
    match r {
        ResultReason::NoMatch => 0,
        ResultReason::Canceled => 1,
        ResultReason::RecognizingSpeech => 2,
        ResultReason::RecognizedSpeech => 3,
        ResultReason::RecognizingIntent => 4,
        ResultReason::RecognizedIntent => 5,
        ResultReason::TranslatingSpeech => 6,
        ResultReason::TranslatedSpeech => 7,
        ResultReason::SynthesizingAudio => 8,
        ResultReason::SynthesizingAudioCompleted => 9,
    }
}

impl ResultReason {
    /// The reason with native code `code`, if there is one.
    pub fn from_u32(code: u32) -> (r: Option<ResultReason>)
        ensures
            match r {
                Some(reason) => result_reason_code(reason) == code,
                None => code > 9,
            },
    {
        match code {
            0 => Some(ResultReason::NoMatch),
            1 => Some(ResultReason::Canceled),
            2 => Some(ResultReason::RecognizingSpeech),
            3 => Some(ResultReason::RecognizedSpeech),
            4 => Some(ResultReason::RecognizingIntent),
            5 => Some(ResultReason::RecognizedIntent),
            6 => Some(ResultReason::TranslatingSpeech),
            7 => Some(ResultReason::TranslatedSpeech),
            8 => Some(ResultReason::SynthesizingAudio),
            9 => Some(ResultReason::SynthesizingAudioCompleted),
            _ => None,
        }
    }

    /// The native code of this reason.
    pub fn code(&self) -> (r: u32)
        ensures
            r == result_reason_code(*self),
    {
        match self {
            ResultReason::NoMatch => 0,
            ResultReason::Canceled => 1,
            ResultReason::RecognizingSpeech => 2,
            ResultReason::RecognizedSpeech => 3,
            ResultReason::RecognizingIntent => 4,
            ResultReason::RecognizedIntent => 5,
            ResultReason::TranslatingSpeech => 6,
            ResultReason::TranslatedSpeech => 7,
            ResultReason::SynthesizingAudio => 8,
            ResultReason::SynthesizingAudioCompleted => 9,
        }
    }
}

/// Why a recognition was canceled.
#[derive(Debug, Clone, Copy, PartialEq, Eq, Structural)]
pub enum CancellationReason {
    Error,
    EndOfStream,
}

/// The native code of each cancellation reason.
pub open spec fn cancellation_reason_code(r: CancellationReason) -> u32 {
    match r {
        CancellationReason::Error => 1,
        CancellationReason::EndOfStream => 2,
    }
}

impl CancellationReason {
    /// The reason with native code `code`, if there is one.
    pub fn from_u32(code: u32) -> (r: Option<CancellationReason>)
        ensures
            match r {
                Some(reason) => cancellation_reason_code(reason) == code,
                None => code != 1 && code != 2,
            },
    {
        match code {
            1 => Some(CancellationReason::Error),
            2 => Some(CancellationReason::EndOfStream),
            _ => None,
        }
    }
}

/// The result of one recognition, read through a result handle that may be
/// shared with the events that carried it.
pub struct RecognitionResult {
    handle: Arc<SmartHandle>,
}

impl RecognitionResult {
    pub closed spec fn handle_of(&self) -> SmartHandle {
        *self.handle
    }

    /// A result read through `handle`.
    pub fn create(handle: Arc<SmartHandle>) -> (r: Result<RecognitionResult, SpxError>)
        ensures
            r matches Ok(res) && res.handle_of() == *handle,
    {
        Ok(RecognitionResult { handle })
    }

    /// The raw result handle, for further native calls.
    pub fn get_handle(&self) -> (r: u64)
        ensures
            r == self.handle_of().value(),
    {
        self.handle.get()
    }

    /// The result id, from the buffer the native id getter filled.
    pub fn id(&self, status: usize, buffer: &Vec<u8>) -> (r: Result<String, SpxError>)
        ensures
            is_buffer_text(status, buffer@, r),
    {
        string_from_buffer(status, buffer)
    }

    /// The recognized text, from the buffer the native text getter filled.
    pub fn text(&self, status: usize, buffer: &Vec<u8>) -> (r: Result<String, SpxError>)
        ensures
            is_buffer_text(status, buffer@, r),
    {
        string_from_buffer(status, buffer)
    }

    /// The reason, from the code the native reason getter wrote. A code that
    /// names no reason is reported as a general error carrying that code.
    pub fn reason(&self, status: usize, code: u32) -> (r: Result<ResultReason, SpxError>)
        ensures
            status != SPX_NOERROR ==> r == Err::<ResultReason, SpxError>(SpxError::General(status)),
            status == SPX_NOERROR && code <= 9 ==> (r matches Ok(reason) && result_reason_code(reason)
                == code),
            status == SPX_NOERROR && code > 9 ==> r == Err::<ResultReason, SpxError>(
                SpxError::General(code as usize),
            ),
    {
        match populate(status, code) {
            Ok(c) => match ResultReason::from_u32(c) {
                Some(reason) => Ok(reason),
                None => Err(SpxError::General(c as usize)),
            },
            Err(e) => Err(e),
        }
    }

    /// The offset, in ticks, from the value the native offset getter wrote.
    pub fn offset(&self, status: usize, value: u64) -> (r: Result<u64, SpxError>)
        ensures
            status == SPX_NOERROR ==> r == Ok::<u64, SpxError>(value),
            status != SPX_NOERROR ==> r == Err::<u64, SpxError>(SpxError::General(status)),
    {
        populate(status, value)
    }

    /// The duration in milliseconds, from the value the native getter wrote.
    pub fn duration(&self, status: usize, value: u64) -> (r: Result<u64, SpxError>)
        ensures
            status == SPX_NOERROR ==> r == Ok::<u64, SpxError>(value),
            status != SPX_NOERROR ==> r == Err::<u64, SpxError>(SpxError::General(status)),
    {
        populate(status, value)
    }
}

impl FromHandle for RecognitionResult {
    /// Every result handle is accepted.
    open spec fn accepts_handle(handle: SmartHandle) -> bool {
        true
    }

    /// Never given: no handle is rejected.
    open spec fn rejection(handle: SmartHandle) -> SpxError {
        SpxError::InvalidCString
    }

    closed spec fn built_from(&self) -> SmartHandle {
        *self.handle
    }

    fn from_handle(handle: Arc<SmartHandle>) -> (r: Result<RecognitionResult, SpxError>) {
        RecognitionResult::create(handle)
    }
}

} // verus!
