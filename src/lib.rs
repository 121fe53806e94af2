//! Verified core of a speech-service binding: owned native handles, the
//! completion poller that turns non-blocking wait calls into a single
//! completion signal, the result extractor built on it, and the bounded
//! event channels fed from native callbacks.
pub mod async_handle;
pub mod channel;
pub mod config;
pub mod error;
pub mod events;
pub mod handle;
pub mod recognizer;
pub mod result;
pub mod strings;
pub mod synthesizer;

pub use async_handle::{
    Async, AsyncHandle, AsyncResultHandle, AsyncStart, AsyncWait, BaseAsyncHandle,
    CompletionState, FromHandle,
};
pub use channel::{
    Dispatched, DispatchOutcome, EventBridge, EventChannel, TryRecv, TrySendError,
};
pub use config::{
    AudioConfig, AudioInputStream, AudioStreamFormat, FfiObject, PropertyBag, PropertyId,
    PullAudioInputStreamCallback, PushAudioInputStream, SpeechConfig,
};
pub use error::{convert_err, SpxError, SPXERR_TIMEOUT, SPXHANDLE_INVALID, SPX_NOERROR};
pub use events::{
    BaseRecognitionResultEvent, Event, EventFactory, NativeEvent, RecognitionCanceledEvent,
    RecognitionEvent, RecognitionResultEvent, SessionEvent,
};
pub use handle::{HandleRole, SmartHandle};
pub use recognizer::SpeechRecognizer;
pub use result::{CancellationReason, RecognitionResult, ResultReason};
pub use synthesizer::{SpeechSynthesisResult, SpeechSynthesizer};
