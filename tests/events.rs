use microsoft_speech::channel::{channel_capacity, deliver};
use microsoft_speech::events::dispatch_event;
use microsoft_speech::{
    DispatchOutcome, EventBridge, EventChannel, EventFactory, NativeEvent, RecognitionCanceledEvent,
    RecognitionResultEvent, SessionEvent, SpxError, TryRecv, TrySendError, CancellationReason,
};

#[test]
fn overflow_drops_one_and_keeps_order() {
    let k = 3;
    let mut ch: EventChannel<u32> = EventChannel::new(k);
    let mut outcomes = Vec::new();
    for e in 1..=(k as u32 + 1) {
        outcomes.push(deliver(&mut ch, Ok(e)).outcome);
    }
    let dropped = outcomes.iter().filter(|o| **o != DispatchOutcome::Delivered).count();
    assert_eq!(dropped, 1);
    assert_eq!(outcomes[3], DispatchOutcome::DroppedFull);
    assert_eq!(ch.try_recv(), TryRecv::Item(1));
    assert_eq!(ch.try_recv(), TryRecv::Item(2));
    assert_eq!(ch.try_recv(), TryRecv::Item(3));
    assert_eq!(ch.try_recv(), TryRecv::Empty);
}

#[test]
fn zero_capacity_drops_everything() {
    let mut ch: EventChannel<u32> = EventChannel::new(0);
    assert_eq!(ch.try_send(1), Err(TrySendError::Full(1)));
    assert_eq!(ch.try_recv(), TryRecv::Empty);
}

#[test]
fn closed_channel_accepts_nothing() {
    let mut ch: EventChannel<u32> = EventChannel::new(2);
    assert_eq!(ch.try_send(1), Ok(()));
    ch.close();
    assert!(!ch.is_open());
    assert_eq!(ch.try_send(2), Err(TrySendError::Disconnected(2)));
    assert_eq!(ch.try_recv(), TryRecv::Item(1));
    assert_eq!(ch.try_recv(), TryRecv::Closed);
}

#[test]
fn reregistering_closes_old_channel() {
    let mut bridge: EventBridge<u32> = EventBridge::new();
    assert!(!bridge.is_connected());
    assert!(bridge.register(5).is_none());
    let mut old = bridge.register(5).expect("previous channel");
    assert!(!old.is_open());
    assert_eq!(bridge.dispatch(Ok(7)).outcome, DispatchOutcome::Delivered);
    assert_eq!(old.try_recv(), TryRecv::Closed);
    assert_eq!(bridge.try_recv(), TryRecv::Item(7));
}

#[test]
fn old_channel_keeps_events_sent_before_replacement() {
    let mut bridge: EventBridge<u32> = EventBridge::new();
    bridge.register(2);
    assert_eq!(bridge.dispatch(Ok(1)).outcome, DispatchOutcome::Delivered);
    let mut old = bridge.register(2).expect("previous channel");
    assert_eq!(old.try_recv(), TryRecv::Item(1));
    assert_eq!(old.try_recv(), TryRecv::Closed);
    assert_eq!(bridge.try_recv(), TryRecv::Empty);
}

#[test]
fn deregistering_ends_the_stream() {
    let mut bridge: EventBridge<u32> = EventBridge::new();
    assert!(bridge.deregister().is_none());
    bridge.register(1);
    assert!(bridge.is_connected());
    let mut old = bridge.deregister().expect("registered channel");
    assert_eq!(old.try_recv(), TryRecv::Closed);
    let d = bridge.dispatch(Ok(3));
    assert_eq!(d.outcome, DispatchOutcome::DroppedClosed);
    assert_eq!(d.refused, Some(3));
    assert_eq!(bridge.try_recv(), TryRecv::Closed);
}

#[test]
fn invalid_event_is_dropped() {
    let mut bridge: EventBridge<u32> = EventBridge::new();
    bridge.register(1);
    let d = bridge.dispatch(Err(SpxError::General(9)));
    assert_eq!(d.outcome, DispatchOutcome::DroppedInvalid(SpxError::General(9)));
    assert_eq!(d.refused, None);
    assert_eq!(bridge.try_recv(), TryRecv::Empty);
}

#[test]
fn default_capacity_is_five() {
    assert_eq!(channel_capacity(None), 5);
    assert_eq!(channel_capacity(Some(2)), 2);
}

#[test]
fn native_event_becomes_typed_event() {
    let mut bridge: EventBridge<RecognitionResultEvent> = EventBridge::new();
    bridge.register(4);
    let ev = NativeEvent { handle: 21, result_status: 0, result_handle: 34 };
    assert_eq!(dispatch_event(&mut bridge, ev).outcome, DispatchOutcome::Delivered);
    match bridge.try_recv() {
        TryRecv::Item(e) => {
            assert_eq!(e.get_handle(), 21);
            assert_eq!(e.result().map(|r| r.get_handle()).ok(), Some(34));
            assert_eq!(e.offset(0, 120), Ok(120));
            assert_eq!(e.offset(3, 120), Err(SpxError::General(3)));
        }
        _ => panic!("expected an event"),
    }
}

#[test]
fn event_whose_result_cannot_be_read_is_dropped() {
    let mut bridge: EventBridge<RecognitionCanceledEvent> = EventBridge::new();
    bridge.register(4);
    let ev = NativeEvent { handle: 21, result_status: 17, result_handle: 0 };
    assert_eq!(dispatch_event(&mut bridge, ev).outcome, DispatchOutcome::DroppedInvalid(SpxError::General(17)));
    assert!(matches!(bridge.try_recv(), TryRecv::Empty));
}

#[test]
fn session_event_reads_its_id() {
    let ev = match SessionEvent::create(NativeEvent { handle: 5, result_status: 0, result_handle: 0 }) {
        Ok(e) => e,
        Err(_) => panic!("session event"),
    };
    assert_eq!(ev.get_handle(), 5);
    assert_eq!(ev.session_id(0, &b"abc\0zz".to_vec()), Ok("abc".to_string()));
}

#[test]
fn canceled_event_reason() {
    let ev = match RecognitionCanceledEvent::create(NativeEvent { handle: 5, result_status: 0, result_handle: 6 }) {
        Ok(e) => e,
        Err(_) => panic!("canceled event"),
    };
    assert_eq!(ev.get_result_handle(), 6);
    assert_eq!(ev.reason(0, 2), Ok(CancellationReason::EndOfStream));
    assert_eq!(ev.reason(0, 1), Ok(CancellationReason::Error));
    assert_eq!(ev.reason(8, 1), Err(SpxError::General(8)));
    assert_eq!(ev.reason(0, 3), Err(SpxError::General(3)));
}

#[test]
fn full_channel_hands_event_back() {
    let mut bridge: EventBridge<RecognitionResultEvent> = EventBridge::new();
    bridge.register(1);
    let first = NativeEvent { handle: 1, result_status: 0, result_handle: 11 };
    let second = NativeEvent { handle: 2, result_status: 0, result_handle: 12 };
    assert_eq!(dispatch_event(&mut bridge, first).outcome, DispatchOutcome::Delivered);
    let d = dispatch_event(&mut bridge, second);
    assert_eq!(d.outcome, DispatchOutcome::DroppedFull);
    let refused = d.refused.expect("refused event");
    assert_eq!(refused.handle(), 2);
    assert_eq!(refused.result_handle(), Some(12));
}
