use microsoft_speech::config::created_handle;
use microsoft_speech::strings::{check_c_text, string_from_buffer};
use microsoft_speech::{
    convert_err, AudioConfig, AudioStreamFormat, CancellationReason, FfiObject, HandleRole,
    PropertyBag, PropertyId, ResultReason, SmartHandle, SpeechConfig, SpeechRecognizer,
    SpeechSynthesizer, SpxError, CompletionState,
};

#[test]
fn status_conversion() {
    assert_eq!(convert_err(0), Ok(()));
    assert_eq!(convert_err(6), Err(SpxError::General(6)));
    assert_eq!(convert_err(0x15), Err(SpxError::General(0x15)));
}

#[test]
fn buffer_text_before_first_nul() {
    assert_eq!(string_from_buffer(0, &b"hello\0world\0".to_vec()), Ok("hello".to_string()));
    assert_eq!(string_from_buffer(0, &b"\0".to_vec()), Ok(String::new()));
}

#[test]
fn buffer_text_decodes_utf8() {
    let bytes = vec![0x68, 0xC3, 0xA9, 0x6C, 0x6C, 0x6F, 0];
    assert_eq!(string_from_buffer(0, &bytes), Ok("h\u{e9}llo".to_string()));
}

#[test]
fn buffer_text_errors() {
    assert_eq!(string_from_buffer(9, &b"ok\0".to_vec()), Err(SpxError::General(9)));
    assert_eq!(string_from_buffer(0, &b"no terminator".to_vec()), Err(SpxError::InvalidCString));
    assert_eq!(string_from_buffer(0, &vec![]), Err(SpxError::InvalidCString));
    assert_eq!(string_from_buffer(0, &vec![0xFF, 0xFE, 0]), Err(SpxError::FromUtf8Error));
}

#[test]
fn result_reason_codes() {
    assert_eq!(ResultReason::from_u32(0), Some(ResultReason::NoMatch));
    assert_eq!(ResultReason::from_u32(3), Some(ResultReason::RecognizedSpeech));
    assert_eq!(ResultReason::from_u32(9), Some(ResultReason::SynthesizingAudioCompleted));
    assert_eq!(ResultReason::from_u32(10), None);
    assert_eq!(ResultReason::TranslatedSpeech.code(), 7);
    assert_eq!(CancellationReason::from_u32(0), None);
    assert_eq!(CancellationReason::from_u32(2), Some(CancellationReason::EndOfStream));
}

#[test]
fn property_codes() {
    assert_eq!(PropertyId::SpeechServiceConnectionKey.code(), 1000);
    assert_eq!(PropertyId::SpeechServiceConnectionRecoLanguage.code(), 3001);
    assert_eq!(PropertyId::CancellationDetailsReasonDetailedText.code(), 6002);
    assert_eq!(PropertyId::LanguageUnderstandingServiceResponseJsonResult.code(), 7000);
}

#[test]
fn smart_handle_releases_once() {
    let mut h = SmartHandle::create(12, HandleRole::Event);
    assert_eq!(h.get(), 12);
    assert_eq!(h.role(), HandleRole::Event);
    assert_eq!(h.release(), Some(12));
    assert_eq!(h.release(), None);
    assert_eq!(h.get(), 12);
}

#[test]
fn created_handles_follow_status() {
    assert!(matches!(created_handle(4, 1, HandleRole::AudioConfig), Err(SpxError::General(4))));
    assert_eq!(created_handle(0, 1, HandleRole::AudioConfig).map(|h| h.get()).ok(), Some(1));
    assert_eq!(AudioConfig::create(0, 8).map(|c| c.get_handle()).ok(), Some(8));
    assert!(matches!(AudioConfig::create(2, 8), Err(SpxError::General(2))));
    assert_eq!(AudioStreamFormat::create(0, 9).map(|c| c.get_handle()).ok(), Some(9));
    assert_eq!(PropertyBag::create(0, 10).map(|c| c.get_handle()).ok(), Some(10));
}

#[test]
fn speech_config_needs_its_properties() {
    let cfg = SpeechConfig::create(0, 3, PropertyBag::create(0, 4)).ok().expect("config");
    assert_eq!(cfg.get_handle(), 3);
    assert_eq!(cfg.properties().get_handle(), 4);
    assert!(matches!(SpeechConfig::create(0, 3, PropertyBag::create(7, 4)), Err(SpxError::General(7))));
    assert!(matches!(SpeechConfig::create(1, 3, PropertyBag::create(0, 4)), Err(SpxError::General(1))));
}

#[test]
fn wave_format_defaults() {
    assert_eq!(AudioStreamFormat::wave_format_pcm_args(16000, None, None), (16000, 16, 1));
    assert_eq!(AudioStreamFormat::wave_format_pcm_args(8000, Some(8), Some(2)), (8000, 8, 2));
}

#[test]
fn ffi_buffer() {
    let b = FfiObject::new(4);
    assert_eq!(b.size, 4);
    assert_eq!(b.buffer, vec![0, 0, 0, 0]);
    let mut c = FfiObject::new_uninitialized(3);
    c.buffer[0] = 7;
    c.buffer[1] = 8;
    assert_eq!(c.into_vec(2), vec![7, 8]);
}

#[test]
fn recognizer_actions_start_lazily() {
    let reco = SpeechRecognizer::create(0, 40).ok().expect("recognizer");
    assert_eq!(reco.get_handle(), 40);
    let start = reco.start_continuous_recognition();
    assert_eq!(start.state(), CompletionState::Uninitialized);
    let once = reco.recognize_once_async();
    assert_eq!(once.state(), CompletionState::Uninitialized);
    assert!(matches!(SpeechRecognizer::create(3, 40), Err(SpxError::General(3))));
    assert_eq!(SpeechRecognizer::audio_config_handle(None), 0);
    assert_eq!(SpeechRecognizer::audio_config_handle(Some(5)), 5);
}

#[test]
fn synthesizer_speak_action() {
    let synth = SpeechSynthesizer::create(0, 50).ok().expect("synthesizer");
    assert_eq!(synth.get_handle(), 50);
    let speak = synth.speak_async("hello").ok().expect("speak action");
    assert_eq!(speak.state(), CompletionState::Uninitialized);
    assert_eq!(speak.poll_interval_ms(), 100);
    assert!(matches!(synth.speak_async("he\0llo"), Err(SpxError::StrNulError(2))));
}

#[test]
fn c_text_rejects_nul() {
    assert_eq!(check_c_text("en-US"), Ok(()));
    assert_eq!(check_c_text(""), Ok(()));
    assert_eq!(check_c_text("ab\0cd\0"), Err(SpxError::StrNulError(2)));
    assert_eq!(check_c_text("\u{e9}\0"), Err(SpxError::StrNulError(2)));
}

#[test]
fn result_reason_from_native() {
    let r = microsoft_speech::RecognitionResult::create(std::sync::Arc::new(SmartHandle::create(3, HandleRole::RecognitionResult)))
        .ok()
        .expect("result");
    assert_eq!(r.reason(0, 3), Ok(ResultReason::RecognizedSpeech));
    assert_eq!(r.reason(0, 42), Err(SpxError::General(42)));
    assert_eq!(r.reason(5, 3), Err(SpxError::General(5)));
}
