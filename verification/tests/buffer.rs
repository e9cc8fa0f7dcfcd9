use sdl_event_server::{EventBuffer, SdlAxis, SdlEvent, ShutdownToken};

fn tagged(tag: u32) -> SdlEvent {
    SdlEvent::AxisMotion { timestamp: tag, device_id: 1, axis: SdlAxis::LeftX, value: 0 }
}

#[test]
fn new_buffer_is_empty() {
    let buffer = EventBuffer::new();
    assert!(buffer.is_empty());
    assert_eq!(buffer.len(), 0);
}

#[test]
fn drain_of_empty_buffer_is_empty() {
    let mut buffer = EventBuffer::new();
    assert_eq!(buffer.drain_all(), Vec::new());
    assert_eq!(buffer.drain_all(), Vec::new());
    assert!(buffer.is_empty());
}

#[test]
fn one_drain_returns_all_pushes_in_order() {
    for count in [1u32, 2, 3, 10, 1000] {
        let mut buffer = EventBuffer::new();
        let mut expected = Vec::new();
        for tag in 0..count {
            buffer.push(tagged(tag));
            expected.push(tagged(tag));
        }
        assert_eq!(buffer.len(), count as usize);
        assert!(!buffer.is_empty());
        assert_eq!(buffer.drain_all(), expected);
        assert!(buffer.is_empty());
        assert_eq!(buffer.drain_all(), Vec::new());
    }
}

#[test]
fn push_after_drain_starts_afresh() {
    let mut buffer = EventBuffer::new();
    buffer.push(tagged(1));
    buffer.push(tagged(2));
    assert_eq!(buffer.drain_all(), vec![tagged(1), tagged(2)]);
    buffer.push(tagged(3));
    assert_eq!(buffer.len(), 1);
    assert_eq!(buffer.drain_all(), vec![tagged(3)]);
}

#[test]
fn interleaved_pushes_and_drains_lose_and_duplicate_nothing() {
    let total: u32 = 5000;
    let mut buffer = EventBuffer::new();
    let mut delivered = Vec::new();
    let mut drains = 0;
    for tag in 0..total {
        buffer.push(tagged(tag));
        if tag % 7 == 3 || tag % 64 == 0 {
            delivered.extend(buffer.drain_all());
            drains += 1;
        }
        if tag % 500 == 499 {
            delivered.extend(buffer.drain_all());
            assert_eq!(buffer.drain_all(), Vec::new());
        }
    }
    delivered.extend(buffer.drain_all());
    assert!(drains > 100);
    assert_eq!(delivered.len(), total as usize);
    for (position, event) in delivered.iter().enumerate() {
        assert_eq!(event.timestamp(), position as u32);
    }
}

#[test]
fn equal_events_are_kept_apart() {
    let mut buffer = EventBuffer::new();
    buffer.push(tagged(5));
    buffer.push(tagged(5));
    assert_eq!(buffer.len(), 2);
    assert_eq!(buffer.drain_all(), vec![tagged(5), tagged(5)]);
}

#[test]
fn token_starts_cleared_and_stays_set() {
    let mut token = ShutdownToken::new();
    assert!(!token.get());
    token.set();
    assert!(token.get());
    token.set();
    assert!(token.get());
}
