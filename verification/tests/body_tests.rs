use fcgi_bridge::body::{drain, ingest, ingest_failing, BodyChannel};

#[test]
fn streams_chunks_through_in_order() {
    let mut ch = BodyChannel::new();
    ingest(&mut ch, vec![b"he".to_vec(), b"ll".to_vec(), b"o".to_vec()]);
    assert!(ch.closed);
    let out = drain(&mut ch);
    assert_eq!(out, b"hello".to_vec());
}

#[test]
fn empty_body_streams_through_as_empty() {
    let mut ch = BodyChannel::new();
    ingest(&mut ch, Vec::new());
    assert!(ch.closed);
    let out = drain(&mut ch);
    assert!(out.is_empty());
}

#[test]
fn consumer_may_start_before_ingestion_completes() {
    let mut ch = BodyChannel::new();
    assert!(ch.send(b"ab".to_vec()));
    // The consumer takes the first chunk while more are still coming.
    let first = ch.recv().unwrap();
    assert_eq!(first, b"ab".to_vec());
    assert!(ch.send(b"cd".to_vec()));
    assert!(ch.send(b"ef".to_vec()));
    ch.close();
    let rest = drain(&mut ch);
    assert_eq!(rest, b"cdef".to_vec());
}

#[test]
fn receiving_from_an_open_empty_channel_is_not_end_of_stream() {
    let mut ch = BodyChannel::new();
    assert!(ch.recv().is_none());
    assert!(!ch.closed);
    assert!(ch.send(b"x".to_vec()));
    assert_eq!(ch.recv().unwrap(), b"x".to_vec());
}

#[test]
fn ingestion_after_consumer_drop_terminates_silently() {
    let mut ch = BodyChannel::new();
    ch.drop_receiver();
    // Sends fail silently; ingestion still runs to completion and closes.
    ingest(&mut ch, vec![b"lost".to_vec(), b"data".to_vec()]);
    assert!(ch.closed);
    assert_eq!(ch.pending.len(), 0);
}

#[test]
fn mid_body_failure_preserves_data_and_reports_the_error() {
    let mut ch = BodyChannel::new();
    // The source fails after two chunks: the data that arrived is kept,
    // the end-of-stream is erroneous, not clean.
    ingest_failing(&mut ch, vec![b"par".to_vec(), b"tial".to_vec()]);
    assert!(ch.closed);
    assert!(ch.failed);
    let out = drain(&mut ch);
    assert_eq!(out, b"partial".to_vec());
}

#[test]
fn clean_ingestion_ends_without_the_terminal_error() {
    let mut ch = BodyChannel::new();
    ingest(&mut ch, vec![b"ok".to_vec()]);
    assert!(ch.closed);
    assert!(!ch.failed);
}

#[test]
fn terminal_error_after_consumer_drop_fails_silently() {
    let mut ch = BodyChannel::new();
    ch.drop_receiver();
    assert!(!ch.send_error());
    assert!(!ch.failed);
}

#[test]
fn send_after_consumer_drop_reports_failure_without_panic() {
    let mut ch = BodyChannel::new();
    assert!(ch.send(b"kept".to_vec()));
    ch.drop_receiver();
    assert!(!ch.send(b"dropped".to_vec()));
    assert_eq!(ch.pending.len(), 1);
}
