use bytes::{Bytes, BytesMut};
use http::header::{HeaderMap, HeaderValue, CONTENT_ENCODING};
use std::io;
use tower_http_compression::body::{
    identity_data, trailers, CapturedError, Placeholder,
};
use tower_http_compression::decode::Response;
use tower_http_compression::options::Options;
use tower_http_compression::util::BodyAsStream;
use tower_http_compression::{DecodeBody, Error};

fn failure() -> Option<Result<BytesMut, io::Error>> {
    Some(Err(io::Error::new(io::ErrorKind::InvalidData, "corrupt")))
}

fn under(token: &'static str) -> DecodeBody<Vec<u8>, u8> {
    let mut headers = HeaderMap::new();
    headers.insert(CONTENT_ENCODING, HeaderValue::from_static(token));
    let res = Response {
        head: (),
        headers,
        body: vec![1u8],
    };
    DecodeBody::wrap_response(res, &Options::default()).body
}

#[test]
fn body_is_reached_through_every_decoder() {
    for token in ["identity", "gzip", "deflate", "br"] {
        let mut body = under(token);
        assert_eq!(body.get_ref(), &vec![1u8]);
        body.get_mut().push(2);
        assert_eq!(body.get_ref(), &vec![1u8, 2]);
        assert_eq!(body.into_inner(), vec![1u8, 2]);
    }
}

#[test]
fn data_of_the_body_goes_to_the_decoder() {
    let mut captured: CapturedError<u8> = CapturedError::new();
    let item = captured.poll_next(Some(Ok(Bytes::from_static(b"abc"))));
    assert_eq!(item.unwrap().unwrap(), Bytes::from_static(b"abc"));
    assert!(captured.poll_next(None).is_none());
    assert!(captured.masked().is_none());
}

#[test]
fn error_of_the_body_is_captured() {
    let mut captured: CapturedError<u8> = CapturedError::new();
    let item = captured.poll_next(Some(Err(5)));
    assert_eq!(item.unwrap().unwrap_err().raw_os_error(), Some(0));
    assert!(captured.masked() == Some(Placeholder));
}

#[test]
fn error_of_the_body_is_reported() {
    let mut captured: CapturedError<u8> = CapturedError::new();
    captured.poll_next(Some(Err(5)));
    captured.poll_next(Some(Err(6)));
    captured.poll_next(Some(Ok(Bytes::new())));
    assert!(matches!(
        captured.poll_data(failure()),
        Some(Err(Error::Body(6)))
    ));
    assert!(captured.masked().is_none());
}

#[test]
fn error_of_the_body_is_reported_once() {
    let mut captured: CapturedError<u8> = CapturedError::new();
    captured.poll_next(Some(Err(5)));
    assert!(matches!(
        captured.poll_data(failure()),
        Some(Err(Error::Body(5)))
    ));
    assert!(matches!(
        captured.poll_data(failure()),
        Some(Err(Error::Compression(_)))
    ));
}

#[test]
fn failure_to_decode_is_reported() {
    let mut captured: CapturedError<u8> = CapturedError::new();
    captured.poll_next(Some(Ok(Bytes::new())));
    match captured.poll_data(failure()) {
        Some(Err(Error::Compression(e))) => {
            assert_eq!(e.kind(), io::ErrorKind::InvalidData);
            assert_eq!(e.to_string(), "corrupt");
        }
        _ => panic!("the failure is lost"),
    }
}

#[test]
fn decoded_data_goes_to_the_reader() {
    let mut captured: CapturedError<u8> = CapturedError::new();
    captured.poll_next(Some(Err(5)));
    let decoded = BytesMut::from(&b"plain text"[..]);
    let data = captured.poll_data(Some(Ok(decoded)));
    assert_eq!(data.unwrap().unwrap(), Bytes::from_static(b"plain text"));
    assert!(captured.poll_data(None).is_none());
    assert!(captured.masked() == Some(Placeholder));
}

#[test]
fn data_that_is_not_decoded() {
    let data = identity_data::<u8>(Some(Ok(Bytes::from_static(b"abc"))));
    assert_eq!(data.unwrap().unwrap(), Bytes::from_static(b"abc"));
    assert!(matches!(
        identity_data::<u8>(Some(Err(5))),
        Some(Err(Error::Body(5)))
    ));
    assert!(identity_data::<u8>(None).is_none());
}

#[test]
fn trailers_go_to_the_reader() {
    let mut fields = HeaderMap::new();
    fields.insert("x-sum", HeaderValue::from_static("1"));
    assert_eq!(
        trailers::<u8>(Ok(Some(fields.clone()))).ok(),
        Some(Some(fields))
    );
    assert_eq!(trailers::<u8>(Ok(None)).ok(), Some(None));
    assert!(matches!(trailers::<u8>(Err(5)), Err(Error::Body(5))));
}

#[test]
fn error_text_is_that_of_the_error_within() {
    let error: Error<u8> = Error::Body(5);
    assert_eq!(error.to_string(), "5");
    let error: Error<u8> = Error::Compression(io::Error::new(io::ErrorKind::Other, "corrupt"));
    assert_eq!(error.to_string(), "corrupt");
}

#[test]
fn body_as_stream() {
    let into_io = |e: &'static str| io::Error::new(io::ErrorKind::Other, e);
    let item =
        BodyAsStream::<()>::poll_next(Some(Ok(Bytes::from_static(b"abc"))), into_io);
    assert_eq!(item.unwrap().unwrap(), Bytes::from_static(b"abc"));
    let item = BodyAsStream::<()>::poll_next(Some(Err("closed")), into_io);
    let error = item.unwrap().unwrap_err();
    assert_eq!(error.kind(), io::ErrorKind::Other);
    assert_eq!(error.to_string(), "closed");
    assert!(BodyAsStream::<()>::poll_next(None, into_io).is_none());
}

#[test]
fn each_read_tells_its_own_cause() {
    let mut captured: CapturedError<u8> = CapturedError::new();

    // A read in which the body fails.
    captured.poll_next(Some(Ok(Bytes::new())));
    let stand_in = captured.poll_next(Some(Err(5))).unwrap().unwrap_err();
    assert!(matches!(
        captured.poll_data(Some(Err(stand_in))),
        Some(Err(Error::Body(5)))
    ));

    // One that gives data.
    captured.poll_next(Some(Ok(Bytes::new())));
    assert!(captured
        .poll_data(Some(Ok(BytesMut::new())))
        .unwrap()
        .is_ok());

    // One in which only the decoder fails.
    captured.poll_next(Some(Ok(Bytes::new())));
    assert!(matches!(
        captured.poll_data(failure()),
        Some(Err(Error::Compression(_)))
    ));

    // One in which the body fails again.
    let stand_in = captured.poll_next(Some(Err(6))).unwrap().unwrap_err();
    assert!(matches!(
        captured.poll_data(Some(Err(stand_in))),
        Some(Err(Error::Body(6)))
    ));
}
