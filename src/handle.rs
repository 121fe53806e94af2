//! Owned native handles.
use vstd::prelude::*;

verus! {

/// What a native handle refers to. Each role has its own release call, and
/// handles of different roles are never interchangeable.
#[derive(Debug, Clone, Copy, PartialEq, Eq, Structural)]
pub enum HandleRole {
    Recognizer,
    RecognizerAsync,
    RecognitionResult,
    Event,
    Synthesizer,
    SynthesizerAsync,
    SynthesisResult,
    AudioConfig,
    AudioStream,
    AudioStreamFormat,
    SpeechConfig,
    PropertyBag,
}

/// One native handle of a given role, together with whether its release call
/// has been made. The release call is handed out at most once.
#[derive(Debug)]
pub struct SmartHandle {
    internal: u64,
    role: HandleRole,
    released: bool,
}

impl SmartHandle {
    pub closed spec fn value(&self) -> u64 {
        self.internal
    }

    pub closed spec fn role_of(&self) -> HandleRole {
        self.role
    }

    pub closed spec fn is_released(&self) -> bool {
        self.released
    }

    /// Takes ownership of a handle that a native call has just written.
    pub fn create(handle: u64, role: HandleRole) -> (r: SmartHandle)
        ensures
            r.value() == handle,
            r.role_of() == role,
            !r.is_released(),
    {
        SmartHandle { internal: handle, role, released: false }
    }

    /// The raw value, to pass into further native calls; ownership stays here.
    pub fn get(&self) -> (r: u64)
        ensures
            r == self.value(),
    {
        self.internal
    }

    pub fn role(&self) -> (r: HandleRole)
        ensures
            r == self.role_of(),
    {
        self.role
    }

    /// The handle whose release call is now due, if it has not been handed out
    /// before. After this the handle counts as released.
    pub fn release(&mut self) -> (r: Option<u64>)
        ensures
            !old(self).is_released() ==> r == Some(old(self).value()),
            old(self).is_released() ==> r is None,
            final(self).is_released(),
            final(self).value() == old(self).value(),
            final(self).role_of() == old(self).role_of(),
    {
        if self.released {
            None
        } else {
            self.released = true;
            Some(self.internal)
        }
    }
}

} // verus!
