use rosu_np::stream::{Action, Event, Notice, Phase, StreamConsumer, BACKOFF_MS};

#[test]
fn failing_source_is_retried_forever() {
    let mut c = StreamConsumer::new(false);
    for round in 0..50 {
        let s = c.step(Event::ConnectFailed);
        assert_eq!(s.action, Action::Sleep(BACKOFF_MS));
        assert_eq!(s.notice, if round == 0 { Notice::Unreachable } else { Notice::Silent });
        assert_eq!(c.phase, Phase::BackingOff);
        let s = c.step(Event::BackoffElapsed);
        assert_eq!(s.action, Action::Connect);
        assert_eq!(c.phase, Phase::Connecting);
    }
    assert_eq!(BACKOFF_MS, 2000);
}

#[test]
fn handshake_then_stream_then_reconnect() {
    let mut c = StreamConsumer::new(true);
    assert_eq!(c.step(Event::Connected).action, Action::SendHandshake);
    let s = c.step(Event::HandshakeSent);
    assert_eq!(s.action, Action::Read);
    assert_eq!(s.notice, Notice::Connected);
    let s = c.step(Event::StreamEnded);
    assert_eq!(s.action, Action::Sleep(BACKOFF_MS));
    assert_eq!(s.notice, Notice::Disconnected);
    assert_eq!(c.step(Event::BackoffElapsed).action, Action::Connect);
    let s = c.step(Event::ConnectFailed);
    assert_eq!(s.notice, Notice::Silent);
}

#[test]
fn failed_handshake_backs_off() {
    let mut c = StreamConsumer::new(true);
    c.step(Event::Connected);
    let s = c.step(Event::HandshakeFailed);
    assert_eq!(s.action, Action::Sleep(BACKOFF_MS));
    assert_eq!(s.notice, Notice::Unreachable);
    assert_eq!(c.phase, Phase::BackingOff);
}

#[test]
fn unexpected_event_repeats_the_awaited_action() {
    let mut c = StreamConsumer::new(false);
    let before = c;
    assert_eq!(c.step(Event::StreamEnded).action, Action::Connect);
    assert_eq!(c, before);
    c.step(Event::Connected);
    assert_eq!(c.phase, Phase::Streaming);
    assert_eq!(c.step(Event::HandshakeSent).action, Action::Read);
}

