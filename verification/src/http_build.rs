//! Assembly of the real HTTP request value handed to the application: the
//! translated head goes through the `http` crate's request builder, and the
//! body is wired to a fresh unbounded channel whose consumer end becomes
//! the request's streaming body. The builder, the channel and the body
//! stream are outside values, opaque here; everything decided about their
//! contents — which method, target and headers go in, in which order — is
//! decided by the verified translation, and the builder's own verdict on
//! those bytes is carried by the name [`http_accepts`], so that success is
//! owed exactly where translation and the builder both accept.

use crate::translate::{spec_translate, translate, valid_head, CgiVars, RequestHead, TranslateError};
use vstd::prelude::*;

verus! {

#[verifier::external_type_specification]
#[verifier::external_body]
#[verifier::reject_recursive_types(T)]
pub struct ExRequest<T>(http::Request<T>);

#[verifier::external_type_specification]
#[verifier::external_body]
pub struct ExHttpError(http::Error);

#[verifier::external_type_specification]
#[verifier::external_body]
pub struct ExBody(axum::body::Body);

#[verifier::external_type_specification]
#[verifier::external_body]
#[verifier::reject_recursive_types(T)]
pub struct ExUnboundedSender<T>(tokio::sync::mpsc::UnboundedSender<T>);

#[verifier::external_type_specification]
#[verifier::external_body]
#[verifier::reject_recursive_types(T)]
pub struct ExUnboundedReceiver<T>(tokio::sync::mpsc::UnboundedReceiver<T>);

#[verifier::external_type_specification]
#[verifier::external_body]
#[verifier::reject_recursive_types(T)]
pub struct ExUnboundedReceiverStream<T>(tokio_stream::wrappers::UnboundedReceiverStream<T>);

#[verifier::external_type_specification]
#[verifier::external_body]
pub struct ExBytesMut(bytes::BytesMut);

#[verifier::external_type_specification]
#[verifier::external_body]
pub struct ExIoError(std::io::Error);

/// The producer end of a request's body conduit: byte chunks, or a read
/// error, go in here and come out of the request's body stream.
pub type BodySender = tokio::sync::mpsc::UnboundedSender<std::io::Result<bytes::BytesMut>>;

/// Whether the `http` crate's request builder accepts these method, target
/// and header bytes. The builder's verdict depends on the handed bytes
/// alone — each piece is parsed by a fixed grammar and the first failure is
/// reported when the builder finishes — so the verdict is named rather
/// than restated, and [`assemble_parts`] applies the name.
pub uninterp spec fn http_accepts(
    method: Seq<u8>,
    uri: Seq<u8>,
    headers: Seq<(Seq<u8>, Seq<u8>)>,
) -> bool;

/// Relies on http::Request::builder and its methods `version`, `method`,
/// `uri`, `header` and `body`: the builder records the version — always
/// HTTP/1.1 here, whatever the upstream server spoke — and parses the
/// head's bytes, deferring any parse failure to `body`, which returns the
/// first recorded error, else the request carrying exactly the recorded
/// pieces and the given body. Succeeds exactly when every piece parses,
/// which depends on the head's bytes alone: the named verdict.
#[verifier::external_body]
fn assemble_parts(head: &RequestHead, body: axum::body::Body) -> (r: Result<
    http::Request<axum::body::Body>,
    http::Error,
>)
    ensures
        r is Ok <==> http_accepts(head@.method, head@.uri, head@.headers),
{
    let mut b = http::Request::builder()
        .version(http::Version::HTTP_11)
        .method(head.method.as_slice())
        .uri(head.uri.as_slice());
    for (k, v) in head.headers.iter() {
        b = b.header(k.as_slice(), v.as_slice());
    }
    b.body(body)
}

/// Relies on tokio::sync::mpsc::unbounded_channel: a fresh unbounded
/// channel; what is sent on the first half comes out of the second.
#[verifier::external_body]
fn new_body_channel() -> (BodySender, tokio::sync::mpsc::UnboundedReceiver<
    std::io::Result<bytes::BytesMut>,
>) {
    tokio::sync::mpsc::unbounded_channel()
}

/// Relies on tokio_stream::wrappers::UnboundedReceiverStream::new: the
/// receiver as a stream of its messages.
#[verifier::external_body]
fn receiver_stream(rx: tokio::sync::mpsc::UnboundedReceiver<std::io::Result<bytes::BytesMut>>)
    -> tokio_stream::wrappers::UnboundedReceiverStream<std::io::Result<bytes::BytesMut>> {
    tokio_stream::wrappers::UnboundedReceiverStream::new(rx)
}

/// Relies on axum::body::Body::from_stream: a streaming body that yields
/// exactly the stream's chunks.
#[verifier::external_body]
fn body_from_stream(
    s: tokio_stream::wrappers::UnboundedReceiverStream<std::io::Result<bytes::BytesMut>>,
) -> axum::body::Body {
    axum::body::Body::from_stream(s)
}

/// Assemble the HTTP request for an already-translated head, with a
/// streaming body fed from the returned producer end.
///
/// Succeeds exactly when the builder accepts the head's bytes; a refusal —
/// the builder's grammar is not obliged to coincide with the translation's
/// — is the one per-request malformed error, never a transport failure.
pub fn assemble_http_request(head: &RequestHead) -> (r: Result<
    (http::Request<axum::body::Body>, BodySender),
    TranslateError,
>)
    ensures
        r is Ok <==> http_accepts(head@.method, head@.uri, head@.headers),
        r is Err ==> r == Err::<(http::Request<axum::body::Body>, BodySender), TranslateError>(
            TranslateError::MalformedRequest,
        ),
{
    let (tx, rx) = new_body_channel();
    let body = body_from_stream(receiver_stream(rx));
    match assemble_parts(head, body) {
        Ok(req) => Ok((req, tx)),
        Err(_) => Err(TranslateError::MalformedRequest),
    }
}

/// Translate a request's variables and assemble the HTTP request for the
/// application, in one step.
///
/// Succeeds exactly when the translated head is structurally sound and the
/// builder accepts its bytes; then the built request carries that head.
/// Every failure is the one per-request malformed error, never a transport
/// failure, and no body producer is handed out on failure.
pub fn build_http_request(vars: &CgiVars) -> (r: Result<
    (http::Request<axum::body::Body>, BodySender),
    TranslateError,
>)
    ensures
        r is Ok <==> valid_head(spec_translate(vars@)) && http_accepts(
            spec_translate(vars@).method,
            spec_translate(vars@).uri,
            spec_translate(vars@).headers,
        ),
        r is Err ==> r == Err::<(http::Request<axum::body::Body>, BodySender), TranslateError>(
            TranslateError::MalformedRequest,
        ),
{
    let head = match translate(vars) {
        Ok(h) => h,
        Err(e) => {
            return Err(e);
        },
    };
    assemble_http_request(&head)
}

} // verus!
