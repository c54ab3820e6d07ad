use fcgi_bridge::emit::{wire_image, ResponseHead};
use fcgi_bridge::outcome::{emit_step, EmitEvent, EmitStep};

#[test]
fn serializes_the_concrete_scenario_head() {
    // A 200 response; the body bytes "ok" follow these bytes on the wire.
    let head = ResponseHead { status: 200, headers: Vec::new() };
    let out = head.serialize();
    assert_eq!(out, b"Status: 200\r\n\r\n".to_vec());
}

#[test]
fn serializes_headers_in_order() {
    let head = ResponseHead {
        status: 404,
        headers: vec![
            (b"content-type".to_vec(), b"text/plain".to_vec()),
            (b"x-reason".to_vec(), b"missing".to_vec()),
        ],
    };
    let out = head.serialize();
    assert_eq!(
        out,
        b"Status: 404\r\ncontent-type: text/plain\r\nx-reason: missing\r\n\r\n".to_vec()
    );
}

#[test]
fn serializes_each_digit_of_the_status() {
    let head = ResponseHead { status: 503, headers: Vec::new() };
    assert_eq!(head.serialize(), b"Status: 503\r\n\r\n".to_vec());
}

#[test]
fn wire_bytes_for_a_200_ok_body() {
    // An application response of status 200 with body "ok", as it stands
    // on the wire: the serialized head, then the body bytes exactly.
    let head = ResponseHead { status: 200, headers: Vec::new() };
    let mut wire = head.serialize();
    wire.extend_from_slice(b"ok");
    assert_eq!(wire, b"Status: 200\r\n\r\nok".to_vec());
}

#[test]
fn wire_image_appends_streamed_chunks_in_order() {
    let head = ResponseHead {
        status: 200,
        headers: vec![(b"content-type".to_vec(), b"text/plain".to_vec())],
    };
    let out = wire_image(&head, &vec![b"o".to_vec(), b"k".to_vec()]);
    assert_eq!(out, b"Status: 200\r\ncontent-type: text/plain\r\n\r\nok".to_vec());
}

#[test]
fn emission_failures_are_transport_level() {
    assert!(matches!(emit_step(EmitEvent::ChunkWritten), EmitStep::Continue));
    assert!(matches!(emit_step(EmitEvent::BodyEnded), EmitStep::FinishOk));
    assert!(matches!(emit_step(EmitEvent::BodySourceFailed), EmitStep::FailTransport));
    assert!(matches!(emit_step(EmitEvent::WriteFailed), EmitStep::FailTransport));
}
