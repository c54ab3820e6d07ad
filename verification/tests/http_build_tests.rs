use fcgi_bridge::http_build::build_http_request;
use fcgi_bridge::translate::CgiVars;
use futures_util::StreamExt;

#[test]
fn builds_a_real_http_request_with_streamed_body() {
    let mut vars = CgiVars::new();
    vars.push(b"REQUEST_METHOD".to_vec(), b"POST".to_vec());
    vars.push(b"REQUEST_URI".to_vec(), b"/hi".to_vec());
    vars.push(b"CONTENT_TYPE".to_vec(), b"text/plain".to_vec());
    vars.push(b"HTTP_X_TOKEN".to_vec(), b"abc".to_vec());
    let (req, tx) = build_http_request(&vars).unwrap();
    assert_eq!(req.method().as_str(), "POST");
    assert_eq!(req.uri().path(), "/hi");
    assert_eq!(req.version(), http::Version::HTTP_11);
    assert_eq!(req.headers().get("content-type").unwrap().to_str().unwrap(), "text/plain");
    assert_eq!(req.headers().get("x-token").unwrap().to_str().unwrap(), "abc");

    // Feed body bytes through the producer end and read them back out of
    // the request's streaming body: the no-buffering conduit end to end.
    let rt = tokio::runtime::Builder::new_current_thread().build().unwrap();
    let collected = rt.block_on(async move {
        tx.send(Ok(bytes::BytesMut::from(&b"he"[..]))).unwrap();
        tx.send(Ok(bytes::BytesMut::from(&b"llo"[..]))).unwrap();
        drop(tx);
        let mut stream = req.into_body().into_data_stream();
        let mut buf: Vec<u8> = Vec::new();
        while let Some(chunk) = stream.next().await {
            buf.extend_from_slice(&chunk.unwrap());
        }
        buf
    });
    assert_eq!(collected, b"hello".to_vec());
}

#[test]
fn dropping_the_request_leaves_the_sender_failing_silently() {
    let mut vars = CgiVars::new();
    vars.push(b"REQUEST_METHOD".to_vec(), b"GET".to_vec());
    let (req, tx) = build_http_request(&vars).unwrap();
    drop(req);
    // The consumer is gone: a send reports failure instead of panicking,
    // which is what lets an ingestion loop stop quietly.
    assert!(tx.send(Ok(bytes::BytesMut::from(&b"x"[..]))).is_err());
}

#[test]
fn assemble_accepts_a_translated_head() {
    let mut vars = CgiVars::new();
    vars.push(b"REQUEST_METHOD".to_vec(), b"GET".to_vec());
    vars.push(b"REQUEST_URI".to_vec(), b"/x".to_vec());
    let head = fcgi_bridge::translate::translate(&vars).unwrap();
    let (req, _tx) = fcgi_bridge::http_build::assemble_http_request(&head).unwrap();
    assert_eq!(req.method().as_str(), "GET");
    assert_eq!(req.uri().path(), "/x");
    assert_eq!(req.version(), http::Version::HTTP_11);
}

#[test]
fn build_refuses_malformed_variables() {
    let mut vars = CgiVars::new();
    vars.push(b"REQUEST_URI".to_vec(), b"/a b".to_vec());
    assert!(build_http_request(&vars).is_err());
}
