//! Configuration, property and audio objects: each owns one native handle
//! that a native constructor wrote.
use vstd::prelude::*;

use crate::error::{SpxError, SPX_NOERROR};
use crate::handle::{HandleRole, SmartHandle};

verus! {

/// The owned handle that a native constructor wrote, or its error.
pub fn created_handle(status: usize, handle: u64, role: HandleRole) -> (r: Result<SmartHandle, SpxError>)
    ensures
        status != SPX_NOERROR ==> r == Err::<SmartHandle, SpxError>(SpxError::General(status)),
        status == SPX_NOERROR ==> (r matches Ok(h) && h.value() == handle && h.role_of() == role
            && !h.is_released()),
{
    if status != SPX_NOERROR {
        Err(SpxError::General(status))
    } else {
        Ok(SmartHandle::create(handle, role))
    }
}

/// The properties that can be read or set in a property bag.
#[derive(Debug, Clone, Copy, PartialEq, Eq, Structural)]
pub enum PropertyId {
    SpeechServiceConnectionKey,
    SpeechServiceConnectionEndpoint,
    SpeechServiceConnectionRegion,
    SpeechServiceAuthorizationToken,
    SpeechServiceAuthorizationType,
    SpeechServiceConnectionEndpointId,
    SpeechServiceConnectionTranslationToLanguages,
    SpeechServiceConnectionTranslationVoice,
    SpeechServiceConnectionTranslationFeatures,
    SpeechServiceConnectionIntentRegion,
    SpeechServiceConnectionRecoMode,
    SpeechServiceConnectionRecoLanguage,
    SpeechSessionId,
    SpeechServiceResponseRequestDetailedResultTrueFalse,
    SpeechServiceResponseRequestProfanityFilterTrueFalse,
    SpeechServiceResponseJsonResult,
    SpeechServiceResponseJsonErrorDetails,
    CancellationDetailsReason,
    CancellationDetailsReasonText,
    CancellationDetailsReasonDetailedText,
    LanguageUnderstandingServiceResponseJsonResult,
}

/// The native id of each property.
pub open spec fn property_code(id: PropertyId) -> i32 {
    match id {
        PropertyId::SpeechServiceConnectionKey => 1000,
        PropertyId::SpeechServiceConnectionEndpoint => 1001,
        PropertyId::SpeechServiceConnectionRegion => 1002,
        PropertyId::SpeechServiceAuthorizationToken => 1003,
        PropertyId::SpeechServiceAuthorizationType => 1004,
        PropertyId::SpeechServiceConnectionEndpointId => 1005,
        PropertyId::SpeechServiceConnectionTranslationToLanguages => 2000,
        PropertyId::SpeechServiceConnectionTranslationVoice => 2001,
        PropertyId::SpeechServiceConnectionTranslationFeatures => 2002,
        PropertyId::SpeechServiceConnectionIntentRegion => 2003,
        PropertyId::SpeechServiceConnectionRecoMode => 3000,
        PropertyId::SpeechServiceConnectionRecoLanguage => 3001,
        PropertyId::SpeechSessionId => 3002,
        PropertyId::SpeechServiceResponseRequestDetailedResultTrueFalse => 4000,
        PropertyId::SpeechServiceResponseRequestProfanityFilterTrueFalse => 4001,
        PropertyId::SpeechServiceResponseJsonResult => 5000,
        PropertyId::SpeechServiceResponseJsonErrorDetails => 5001,
        PropertyId::CancellationDetailsReason => 6000,
        PropertyId::CancellationDetailsReasonText => 6001,
        PropertyId::CancellationDetailsReasonDetailedText => 6002,
        PropertyId::LanguageUnderstandingServiceResponseJsonResult => 7000,
    }
}

impl PropertyId {
    /// The native id of this property.
    pub fn code(&self) -> (r: i32)
        ensures
            r == property_code(*self),
    {
        match self {
            PropertyId::SpeechServiceConnectionKey => 1000,
            PropertyId::SpeechServiceConnectionEndpoint => 1001,
            PropertyId::SpeechServiceConnectionRegion => 1002,
            PropertyId::SpeechServiceAuthorizationToken => 1003,
            PropertyId::SpeechServiceAuthorizationType => 1004,
            PropertyId::SpeechServiceConnectionEndpointId => 1005,
            PropertyId::SpeechServiceConnectionTranslationToLanguages => 2000,
            PropertyId::SpeechServiceConnectionTranslationVoice => 2001,
            PropertyId::SpeechServiceConnectionTranslationFeatures => 2002,
            PropertyId::SpeechServiceConnectionIntentRegion => 2003,
            PropertyId::SpeechServiceConnectionRecoMode => 3000,
            PropertyId::SpeechServiceConnectionRecoLanguage => 3001,
            PropertyId::SpeechSessionId => 3002,
            PropertyId::SpeechServiceResponseRequestDetailedResultTrueFalse => 4000,
            PropertyId::SpeechServiceResponseRequestProfanityFilterTrueFalse => 4001,
            PropertyId::SpeechServiceResponseJsonResult => 5000,
            PropertyId::SpeechServiceResponseJsonErrorDetails => 5001,
            PropertyId::CancellationDetailsReason => 6000,
            PropertyId::CancellationDetailsReasonText => 6001,
            PropertyId::CancellationDetailsReasonDetailedText => 6002,
            PropertyId::LanguageUnderstandingServiceResponseJsonResult => 7000,
        }
    }
}

/// A native property bag.
#[derive(Debug)]
pub struct PropertyBag {
    handle: SmartHandle,
}

impl PropertyBag {
    pub closed spec fn handle_of(&self) -> SmartHandle {
        self.handle
    }

    /// The bag whose handle the native property-bag getter wrote.
    pub fn create(status: usize, handle: u64) -> (r: Result<PropertyBag, SpxError>)
        ensures
            status != SPX_NOERROR ==> r is Err && r == Err::<PropertyBag, SpxError>(
                SpxError::General(status),
            ),
            status == SPX_NOERROR ==> (r matches Ok(b) && b.handle_of().value() == handle
                && b.handle_of().role_of() == HandleRole::PropertyBag),
    {
        match created_handle(status, handle, HandleRole::PropertyBag) {
            Ok(h) => Ok(PropertyBag { handle: h }),
            Err(e) => Err(e),
        }
    }

    pub fn get_handle(&self) -> (r: u64)
        ensures
            r == self.handle_of().value(),
    {
        self.handle.get()
    }
}

/// The configuration of a speech service subscription, with its properties.
#[derive(Debug)]
pub struct SpeechConfig {
    handle: SmartHandle,
    props: PropertyBag,
}

impl SpeechConfig {
    pub closed spec fn handle_of(&self) -> SmartHandle {
        self.handle
    }

    pub closed spec fn props_of(&self) -> PropertyBag {
        self.props
    }

    /// The configuration whose handle the native constructor wrote, with the
    /// property bag read from it.
    pub fn create(status: usize, handle: u64, props: Result<PropertyBag, SpxError>) -> (r: Result<
        SpeechConfig,
        SpxError,
    >)
        ensures
            status != SPX_NOERROR ==> r == Err::<SpeechConfig, SpxError>(SpxError::General(status)),
            status == SPX_NOERROR ==> match props {
                Ok(p) => r matches Ok(c) && c.handle_of().value() == handle && c.handle_of().role_of()
                    == HandleRole::SpeechConfig && c.props_of() == p,
                Err(e) => r == Err::<SpeechConfig, SpxError>(e),
            },
    {
        match created_handle(status, handle, HandleRole::SpeechConfig) {
            Ok(h) => match props {
                Ok(p) => Ok(SpeechConfig { handle: h, props: p }),
                Err(e) => Err(e),
            },
            Err(e) => Err(e),
        }
    }

    pub fn get_handle(&self) -> (r: u64)
        ensures
            r == self.handle_of().value(),
    {
        self.handle.get()
    }

    pub fn properties(&self) -> (r: &PropertyBag)
        ensures
            *r == self.props_of(),
    {
        &self.props
    }
}

/// Default bits per sample of a PCM wave format.
pub const DEFAULT_BITS_PER_SAMPLE: u8 = 16;

/// Default number of channels of a PCM wave format.
pub const DEFAULT_CHANNELS: u8 = 1;

/// The format of an audio stream.
#[derive(Debug)]
pub struct AudioStreamFormat {
    handle: SmartHandle,
}

impl AudioStreamFormat {
    pub closed spec fn handle_of(&self) -> SmartHandle {
        self.handle
    }

    /// The format whose handle a native format constructor wrote.
    pub fn create(status: usize, handle: u64) -> (r: Result<AudioStreamFormat, SpxError>)
        ensures
            status != SPX_NOERROR ==> r == Err::<AudioStreamFormat, SpxError>(
                SpxError::General(status),
            ),
            status == SPX_NOERROR ==> (r matches Ok(f) && f.handle_of().value() == handle
                && f.handle_of().role_of() == HandleRole::AudioStreamFormat),
    {
        match created_handle(status, handle, HandleRole::AudioStreamFormat) {
            Ok(h) => Ok(AudioStreamFormat { handle: h }),
            Err(e) => Err(e),
        }
    }

    /// The arguments of a PCM wave format: the sample rate as given, 16 bits
    /// per sample and one channel unless the caller names others.
    pub fn wave_format_pcm_args(
        samples_per_second: u32,
        bits_per_sample: Option<u8>,
        channels: Option<u8>,
    ) -> (r: (u32, u8, u8))
        ensures
            r.0 == samples_per_second,
            r.1 == match bits_per_sample {
                Some(b) => b,
                None => DEFAULT_BITS_PER_SAMPLE,
            },
            r.2 == match channels {
                Some(c) => c,
                None => DEFAULT_CHANNELS,
            },
    {
        let bits = match bits_per_sample {
            Some(b) => b,
            None => DEFAULT_BITS_PER_SAMPLE,
        };
        let ch = match channels {
            Some(c) => c,
            None => DEFAULT_CHANNELS,
        };
        (samples_per_second, bits, ch)
    }

    pub fn get_handle(&self) -> (r: u64)
        ensures
            r == self.handle_of().value(),
    {
        self.handle.get()
    }
}

/// An audio input stream known to the native layer.
pub trait AudioInputStream {
    fn get_handle(&self) -> u64;
}

/// The reading side of a pull stream, implemented by the application: the
/// native layer asks it for audio.
pub trait PullAudioInputStreamCallback {
    /// Fills the start of `data_buffer` and returns how many bytes it wrote.
    fn read(&mut self, data_buffer: &mut [u8]) -> usize;

    fn close(&mut self);
}

/// An audio input stream that the application writes into.
#[derive(Debug)]
pub struct PushAudioInputStream {
    handle: SmartHandle,
    format: AudioStreamFormat,
}

impl PushAudioInputStream {
    pub closed spec fn handle_of(&self) -> SmartHandle {
        self.handle
    }

    pub closed spec fn format_of(&self) -> AudioStreamFormat {
        self.format
    }

    /// The stream whose handle the native constructor wrote for `format`.
    pub fn create(status: usize, handle: u64, format: AudioStreamFormat) -> (r: Result<
        PushAudioInputStream,
        SpxError,
    >)
        ensures
            status != SPX_NOERROR ==> r == Err::<PushAudioInputStream, SpxError>(
                SpxError::General(status),
            ),
            status == SPX_NOERROR ==> (r matches Ok(s) && s.handle_of().value() == handle
                && s.handle_of().role_of() == HandleRole::AudioStream && s.format_of() == format),
    {
        match created_handle(status, handle, HandleRole::AudioStream) {
            Ok(h) => Ok(PushAudioInputStream { handle: h, format }),
            Err(e) => Err(e),
        }
    }

    pub fn format(&self) -> (r: &AudioStreamFormat)
        ensures
            *r == self.format_of(),
    {
        &self.format
    }
}

impl AudioInputStream for PushAudioInputStream {
    fn get_handle(&self) -> u64 {
        self.handle.get()
    }
}

/// The audio input of a recognizer.
#[derive(Debug)]
pub struct AudioConfig {
    handle: SmartHandle,
}

impl AudioConfig {
    pub closed spec fn handle_of(&self) -> SmartHandle {
        self.handle
    }

    /// The audio configuration whose handle a native constructor wrote.
    pub fn create(status: usize, handle: u64) -> (r: Result<AudioConfig, SpxError>)
        ensures
            status != SPX_NOERROR ==> r == Err::<AudioConfig, SpxError>(SpxError::General(status)),
            status == SPX_NOERROR ==> (r matches Ok(c) && c.handle_of().value() == handle
                && c.handle_of().role_of() == HandleRole::AudioConfig),
    {
        match created_handle(status, handle, HandleRole::AudioConfig) {
            Ok(h) => Ok(AudioConfig { handle: h }),
            Err(e) => Err(e),
        }
    }

    pub fn get_handle(&self) -> (r: u64)
        ensures
            r == self.handle_of().value(),
    {
        self.handle.get()
    }
}

/// A byte buffer handed to native calls that fill it.
pub struct FfiObject {
    pub buffer: Vec<u8>,
    pub size: usize,
}

impl FfiObject {
    /// A zeroed buffer of `size` bytes.
    pub fn new(size: usize) -> (r: FfiObject)
        requires
            size > 0,
        ensures
            r.size == size,
            r.buffer@ == Seq::new(size as nat, |i: int| 0u8),
    {
        FfiObject::_from_vec(vec![0u8; size], size)
    }

    /// A buffer of `size` bytes for a native call to fill. Safe code cannot
    /// hand out memory it has not written, so the bytes start at zero here too.
    pub fn new_uninitialized(size: usize) -> (r: FfiObject)
        requires
            size > 0,
        ensures
            r.size == size,
            r.buffer@.len() == size,
    {
        FfiObject::new(size)
    }

    /// The first `length` bytes, once a native call has filled them.
    pub fn into_vec(self, length: usize) -> (r: Vec<u8>)
        requires
            length <= self.buffer@.len(),
        ensures
            r@ == self.buffer@.take(length as int),
    {
        let mut v = self.buffer;
        v.truncate(length);
        v
    }

    pub fn _from_vec(v: Vec<u8>, size: usize) -> (r: FfiObject)
        requires
            size > 0,
        ensures
            r.size == size,
            r.buffer == v,
    {
        FfiObject { buffer: v, size }
    }
}

} // verus!
