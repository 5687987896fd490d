use pty_bridge::bridge::{classify_read, read_outcome, PendingWrite};
use pty_bridge::reap::{Channel, Event};
use pty_bridge::BridgeError;

#[test]
fn eio_reads_as_end_of_stream() {
    assert_eq!(read_outcome(Err(Some(5)), 5), Ok(0));
    assert_eq!(
        classify_read(Channel::Stdout, read_outcome(Err(Some(5)), 5), 11),
        Event::EndOfStream(Channel::Stdout)
    );
}

#[test]
fn other_read_errors_stay_errors() {
    assert_eq!(read_outcome(Err(Some(9)), 5), Err(BridgeError { code: Some(9) }));
    assert_eq!(read_outcome(Err(None), 5), Err(BridgeError { code: None }));
    assert_eq!(read_outcome(Ok(12), 5), Ok(12));
}

#[test]
fn read_results_classify() {
    assert_eq!(classify_read(Channel::Stderr, Ok(0), 11), Event::EndOfStream(Channel::Stderr));
    assert_eq!(classify_read(Channel::Stderr, Ok(3), 11), Event::Data(Channel::Stderr, 3));
    assert_eq!(
        classify_read(Channel::Stdout, Err(BridgeError { code: Some(11) }), 11),
        Event::NoData(Channel::Stdout)
    );
    assert_eq!(
        classify_read(Channel::Stdout, Err(BridgeError { code: Some(4) }), 11),
        Event::ReadFailed(Channel::Stdout, Some(4))
    );
    assert_eq!(
        classify_read(Channel::Stdout, Err(BridgeError { code: None }), 11),
        Event::ReadFailed(Channel::Stdout, None)
    );
}

#[test]
fn partial_writes_resume_in_order() {
    let mut p = PendingWrite::new(b"hello world".to_vec());
    assert_eq!(p.remaining_len(), 11);
    assert!(!p.is_done());
    p.advance(4);
    assert_eq!(p.chunk(), b"o world".to_vec());
    p.advance(0);
    assert_eq!(p.chunk(), b"o world".to_vec());
    p.advance(7);
    assert!(p.is_done());
    assert_eq!(p.chunk(), Vec::<u8>::new());
}

#[test]
fn empty_pending_write_is_done() {
    let p = PendingWrite::new(Vec::new());
    assert!(p.is_done());
    assert_eq!(p.remaining_len(), 0);
}
