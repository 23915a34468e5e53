use wsproxy::stream::{FillSignal, StreamBuffer, WsEvent};
use wsproxy::BUFFER_CAP;

#[test]
fn messages_concatenate_in_order() {
    let mut sb = StreamBuffer::new();
    assert!(sb.admit_message(&[1, 2, 3]));
    assert!(sb.admit_message(&[4, 5]));
    assert_eq!(sb.len(), 5);
    assert_eq!(sb.peek_buffer(4), vec![1, 2, 3, 4]);
    let first = sb.take(2);
    let rest = sb.take(10);
    assert_eq!(first, vec![1, 2]);
    assert_eq!(rest, vec![3, 4, 5]);
    assert_eq!(sb.len(), 0);
}

#[test]
fn capacity_is_never_exceeded() {
    let mut sb = StreamBuffer::new();
    assert!(sb.admit_message(&vec![0u8; BUFFER_CAP]));
    assert_eq!(sb.len(), BUFFER_CAP);
    // one more byte would exceed the cap: refused, nothing dropped
    assert!(!sb.admit_message(&[1]));
    assert_eq!(sb.len(), BUFFER_CAP);
    // draining makes room again
    let drained = sb.take(BUFFER_CAP);
    assert_eq!(drained.len(), BUFFER_CAP);
    assert!(sb.admit_message(&[1]));
    assert_eq!(sb.take(1), vec![1]);
}

#[test]
fn fill_signals() {
    let mut sb = StreamBuffer::new();
    assert_eq!(sb.fill_step(&WsEvent::Message(vec![9, 9])), FillSignal::More);
    assert_eq!(sb.len(), 2);
    assert_eq!(sb.fill_step(&WsEvent::Close), FillSignal::Done);
    assert_eq!(sb.fill_step(&WsEvent::Ended), FillSignal::Done);
    assert_eq!(
        sb.fill_step(&WsEvent::TransportError("connection reset".to_string())),
        FillSignal::Done
    );
    assert_eq!(
        sb.fill_step(&WsEvent::TransportError("bad memory access".to_string())),
        FillSignal::Surface
    );
    // an oversized message signals backpressure and is not staged
    assert_eq!(
        sb.fill_step(&WsEvent::Message(vec![0u8; BUFFER_CAP + 1])),
        FillSignal::Backpressure
    );
    assert_eq!(sb.len(), 2);
}
