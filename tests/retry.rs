use natpmp_rs::transport::{backoff_timeout_ms, Action, Event, RetryEngine, DEFAULT_MAX_TRIES};

const GATEWAY: u32 = 0xC0A8_0101;

#[test]
fn silent_gateway_gets_exactly_max_tries_sends() {
    for max_tries in [0u32, 1, 3, 9] {
        let mut engine = RetryEngine::new(GATEWAY, max_tries);
        let mut sends = 0u32;
        let mut action = engine.start();
        loop {
            match action {
                Action::Send { attempt, wait_ms } => {
                    sends += 1;
                    assert_eq!(attempt, sends);
                    assert_eq!(wait_ms, 250u64 << attempt);
                },
                Action::GiveUp => break,
                other => panic!("unexpected {:?}", other),
            }
            action = engine.on_event(Event::Timeout);
        }
        assert_eq!(sends, max_tries);
        assert_eq!(engine.on_event(Event::Timeout), Action::GiveUp);
    }
}

#[test]
fn default_is_nine_tries() {
    assert_eq!(DEFAULT_MAX_TRIES, 9);
    assert_eq!(RetryEngine::with_default_tries(GATEWAY, None).max_tries, 9);
    assert_eq!(RetryEngine::with_default_tries(GATEWAY, Some(2)).max_tries, 2);
}

#[test]
fn timeouts_double_from_half_a_second() {
    assert_eq!(backoff_timeout_ms(0), 250);
    assert_eq!(backoff_timeout_ms(1), 500);
    assert_eq!(backoff_timeout_ms(2), 1000);
    assert_eq!(backoff_timeout_ms(9), 128_000);
    assert_eq!(backoff_timeout_ms(56), 250u64 << 56);
    assert_eq!(backoff_timeout_ms(57), u64::MAX);
    assert_eq!(backoff_timeout_ms(u32::MAX), u64::MAX);
}

#[test]
fn datagram_from_gateway_is_delivered() {
    let mut engine = RetryEngine::new(GATEWAY, 9);
    assert_eq!(engine.start(), Action::Send { attempt: 1, wait_ms: 500 });
    assert_eq!(engine.on_event(Event::Datagram(Some(GATEWAY))), Action::Deliver);
}

#[test]
fn datagram_from_elsewhere_is_discarded_and_resent() {
    let mut engine = RetryEngine::new(GATEWAY, 2);
    engine.start();
    assert_eq!(engine.on_event(Event::Datagram(Some(0x0A00_0001))), Action::Send { attempt: 2, wait_ms: 1000 });
    assert_eq!(engine.on_event(Event::Datagram(None)), Action::GiveUp);
}

#[test]
fn socket_failure_aborts_but_would_block_retries() {
    let mut engine = RetryEngine::new(GATEWAY, 3);
    engine.start();
    assert_eq!(engine.on_event(Event::WouldBlock), Action::Send { attempt: 2, wait_ms: 1000 });
    assert_eq!(engine.on_event(Event::SocketFailure), Action::Abort);
    assert_eq!(engine.attempt, 2);
}
