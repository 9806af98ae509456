use http::header::{
    HeaderMap, HeaderName, HeaderValue, ACCEPT_ENCODING, CONTENT_ENCODING, CONTENT_LENGTH,
    CONTENT_TYPE, RANGE,
};
use tower_http_compression::body::BodyInner;
use tower_http_compression::decode::{HeadersFull, Response, ResponseFuture};
use tower_http_compression::options::Options;
use tower_http_compression::{Decode, DecodeBody, DecodeLayer};

type Wrapped = Response<u16, DecodeBody<&'static str, u8>>;

fn response(fields: &[(HeaderName, &'static str)]) -> Response<u16, &'static str> {
    let mut headers = HeaderMap::new();
    for (name, value) in fields {
        headers.append(name.clone(), HeaderValue::from_static(value));
    }
    Response {
        head: 200,
        headers,
        body: "body",
    }
}

fn wrap(fields: &[(HeaderName, &'static str)], options: &Options) -> Wrapped {
    DecodeBody::wrap_response(response(fields), options)
}

fn variant(wrapped: &Wrapped) -> &'static str {
    match wrapped.body.inner {
        BodyInner::Identity { .. } => "identity",
        BodyInner::Gzip { .. } => "gzip",
        BodyInner::Deflate { .. } => "deflate",
        BodyInner::Brotli { .. } => "br",
    }
}

fn asked<S>(decode: &Decode<S>) -> Option<String> {
    let mut headers = HeaderMap::new();
    decode.call(&mut headers).unwrap();
    headers
        .get(ACCEPT_ENCODING)
        .map(|value| value.to_str().unwrap().to_string())
}

#[test]
fn request_is_given_accept_encoding() {
    let decode = Decode::new(());
    let mut headers = HeaderMap::new();
    headers.insert(CONTENT_TYPE, HeaderValue::from_static("text/plain"));
    assert!(decode.call(&mut headers).is_ok());
    assert_eq!(headers[ACCEPT_ENCODING], "gzip,deflate,br");
    assert_eq!(headers[CONTENT_TYPE], "text/plain");
    assert_eq!(headers.len(), 2);
}

#[test]
fn request_with_range_stays() {
    let decode = Decode::new(());
    let mut headers = HeaderMap::new();
    headers.insert(RANGE, HeaderValue::from_static("bytes=0-9"));
    let before = headers.clone();
    assert!(decode.call(&mut headers).is_ok());
    assert_eq!(headers, before);
}

#[test]
fn request_with_own_accept_encoding_stays() {
    let decode = Decode::new(());
    let mut headers = HeaderMap::new();
    headers.append(ACCEPT_ENCODING, HeaderValue::from_static("identity"));
    headers.append(ACCEPT_ENCODING, HeaderValue::from_static("br;q=0.5"));
    let before = headers.clone();
    assert!(decode.call(&mut headers).is_ok());
    assert_eq!(headers, before);
}

#[test]
fn request_stays_where_nothing_is_enabled() {
    let decode = Decode::new(()).no_gzip().no_deflate().no_br();
    let mut headers = HeaderMap::new();
    assert!(decode.call(&mut headers).is_ok());
    assert!(headers.is_empty());
}

#[test]
fn request_is_asked_once() {
    let mut headers = HeaderMap::new();
    Decode::new(()).no_br().call(&mut headers).unwrap();
    let before = headers.clone();
    Decode::new(()).no_br().call(&mut headers).unwrap();
    assert_eq!(headers, before);
    Decode::new(()).no_gzip().call(&mut headers).unwrap();
    assert_eq!(headers, before);
    assert_eq!(headers[ACCEPT_ENCODING], "gzip,deflate");
}

#[test]
fn full_header_map_is_reported() {
    let mut headers = HeaderMap::new();
    let mut i: usize = 0;
    while headers.keys_len() < 24576 {
        let name = HeaderName::from_bytes(format!("x-{}", i).as_bytes()).unwrap();
        let _ = headers.try_insert(name, HeaderValue::from_static("v"));
        i += 1;
    }
    let decode = Decode::new(());
    assert!(matches!(decode.call(&mut headers), Err(HeadersFull)));
    assert_eq!(headers.keys_len(), 24576);
    assert!(!headers.contains_key(ACCEPT_ENCODING));

    // A map that has nothing to take in is not asked to grow.
    assert!(decode
        .no_gzip()
        .no_deflate()
        .no_br()
        .call(&mut headers)
        .is_ok());
}

#[test]
fn builders_set_what_is_asked_for() {
    assert_eq!(
        asked(&Decode::new(())),
        Some("gzip,deflate,br".to_string())
    );
    assert_eq!(
        asked(&Decode::new(()).gzip(false)),
        Some("deflate,br".to_string())
    );
    assert_eq!(
        asked(&Decode::new(()).deflate(false)),
        Some("gzip,br".to_string())
    );
    assert_eq!(
        asked(&Decode::new(()).br(false)),
        Some("gzip,deflate".to_string())
    );
    assert_eq!(
        asked(&Decode::new(()).no_gzip()),
        Some("deflate,br".to_string())
    );
    assert_eq!(
        asked(&Decode::new(()).no_deflate()),
        Some("gzip,br".to_string())
    );
    assert_eq!(
        asked(&Decode::new(()).no_br()),
        Some("gzip,deflate".to_string())
    );
    assert_eq!(
        asked(&Decode::new(()).no_gzip().no_br().gzip(true)),
        Some("gzip,deflate".to_string())
    );
}

#[test]
fn layer_builders_set_what_is_asked_for() {
    assert_eq!(
        asked(&DecodeLayer::new().layer(())),
        Some("gzip,deflate,br".to_string())
    );
    assert_eq!(
        asked(&DecodeLayer::default().layer(())),
        Some("gzip,deflate,br".to_string())
    );
    assert_eq!(
        asked(&DecodeLayer::new().gzip(false).deflate(false).layer(())),
        Some("br".to_string())
    );
    assert_eq!(
        asked(&DecodeLayer::new().no_deflate().br(false).layer(())),
        Some("gzip".to_string())
    );
    assert_eq!(
        asked(&DecodeLayer::new().no_gzip().no_br().layer(())),
        Some("deflate".to_string())
    );
    assert_eq!(
        asked(&DecodeLayer::new().no_gzip().no_br().no_deflate().layer(())),
        None
    );
}

#[test]
fn service_is_kept() {
    let mut decode = DecodeLayer::new().no_br().layer(vec![1u8]);
    assert_eq!(decode.get_ref(), &vec![1u8]);
    decode.get_mut().push(2);
    assert_eq!(asked(&decode), Some("gzip,deflate".to_string()));
    assert_eq!(decode.gzip(false).into_inner(), vec![1u8, 2]);
}

#[test]
fn encoded_responses_are_decoded() {
    for token in ["gzip", "deflate", "br"] {
        let wrapped = wrap(
            &[
                (CONTENT_ENCODING, token),
                (CONTENT_LENGTH, "12"),
                (CONTENT_TYPE, "text/plain"),
            ],
            &Options::default(),
        );
        assert_eq!(variant(&wrapped), token);
        assert_eq!(wrapped.head, 200);
        assert!(!wrapped.headers.contains_key(CONTENT_ENCODING));
        assert!(!wrapped.headers.contains_key(CONTENT_LENGTH));
        assert_eq!(wrapped.headers[CONTENT_TYPE], "text/plain");
        assert_eq!(wrapped.headers.len(), 1);
        assert_eq!(wrapped.body.into_inner(), "body");
    }
}

#[test]
fn other_responses_stay() {
    let all = Options::default();
    let kept = |fields: &[(HeaderName, &'static str)], options: &Options| {
        let wrapped = wrap(fields, options);
        assert_eq!(variant(&wrapped), "identity");
        assert_eq!(wrapped.head, 200);
        assert_eq!(wrapped.headers, response(fields).headers);
        assert_eq!(wrapped.body.get_ref(), &"body");
    };
    kept(&[(CONTENT_LENGTH, "12")], &all);
    kept(&[(CONTENT_ENCODING, "zstd"), (CONTENT_LENGTH, "12")], &all);
    kept(&[(CONTENT_ENCODING, "GZIP"), (CONTENT_LENGTH, "12")], &all);
    kept(
        &[(CONTENT_ENCODING, "gzip"), (CONTENT_LENGTH, "12")],
        &all.set_gzip(false),
    );
    kept(
        &[(CONTENT_ENCODING, "deflate"), (CONTENT_LENGTH, "12")],
        &all.set_deflate(false),
    );
    kept(
        &[(CONTENT_ENCODING, "br"), (CONTENT_LENGTH, "12")],
        &all.set_br(false),
    );
}

#[test]
fn first_content_encoding_decides() {
    let all = Options::default();
    let wrapped = wrap(
        &[(CONTENT_ENCODING, "br"), (CONTENT_ENCODING, "gzip")],
        &all,
    );
    assert_eq!(variant(&wrapped), "br");
    assert!(wrapped.headers.is_empty());

    let wrapped = wrap(
        &[(CONTENT_ENCODING, "zstd"), (CONTENT_ENCODING, "gzip")],
        &all,
    );
    assert_eq!(variant(&wrapped), "identity");
    assert_eq!(wrapped.headers.len(), 2);
}

#[test]
fn response_is_decoded_once() {
    let wrapped = wrap(&[(CONTENT_ENCODING, "gzip")], &Options::default());
    let again: Response<u16, DecodeBody<_, u8>> =
        DecodeBody::wrap_response(wrapped, &Options::default());
    assert!(matches!(again.body.inner, BodyInner::Identity { .. }));
    assert_eq!(again.body.get_ref().get_ref(), &"body");
}

#[test]
fn answers_are_treated_by_the_codings_of_the_request() {
    let decode = Decode::new(()).no_gzip();
    let future: ResponseFuture = decode.call(&mut HeaderMap::new()).unwrap();

    let answer: Result<Response<u16, &'static str>, u8> =
        Ok(response(&[(CONTENT_ENCODING, "br")]));
    let output: Result<Wrapped, u8> = future.poll(answer);
    assert_eq!(variant(&output.ok().unwrap()), "br");

    let answer: Result<Response<u16, &'static str>, u8> =
        Ok(response(&[(CONTENT_ENCODING, "gzip")]));
    let output: Result<Wrapped, u8> = future.poll(answer);
    assert_eq!(variant(&output.ok().unwrap()), "identity");

    let answer: Result<Response<u16, &'static str>, u8> = Err(7);
    let output: Result<Wrapped, u8> = future.poll(answer);
    assert_eq!(output.err(), Some(7));
}

#[test]
fn identity_keeps_the_body() {
    let body: DecodeBody<&'static str, u8> = DecodeBody::identity("body");
    assert!(matches!(body.inner, BodyInner::Identity { inner: "body" }));
}

#[test]
fn clones_have_the_same_codings() {
    let decode = Decode::new(vec![1u8]).no_deflate();
    let copy = decode.clone();
    assert_eq!(asked(&copy), Some("gzip,br".to_string()));
    assert_eq!(copy.into_inner(), decode.into_inner());
    let layer = DecodeLayer::new().no_gzip();
    assert_eq!(asked(&layer.clone().layer(())), Some("deflate,br".to_string()));
}

#[test]
fn sensitive_values_stay_sensitive() {
    let mut secret = HeaderValue::from_static("secret");
    secret.set_sensitive(true);

    let mut headers = HeaderMap::new();
    headers.insert("x-key", secret.clone());
    Decode::new(()).call(&mut headers).unwrap();
    assert!(headers["x-key"].is_sensitive());
    assert!(!headers[ACCEPT_ENCODING].is_sensitive());

    let mut res = response(&[(CONTENT_ENCODING, "gzip"), (CONTENT_LENGTH, "12")]);
    res.headers.insert("x-key", secret);
    let wrapped: Wrapped = DecodeBody::wrap_response(res, &Options::default());
    assert_eq!(variant(&wrapped), "gzip");
    assert!(wrapped.headers["x-key"].is_sensitive());
}

#[test]
fn options_are_handed_out() {
    let decode = Decode::new(()).no_gzip();
    assert_eq!(decode.options().flags(), "DEFLATE | BR");
    let future = decode.call(&mut HeaderMap::new()).unwrap();
    assert_eq!(future.options().flags(), "DEFLATE | BR");
    assert_eq!(DecodeLayer::new().no_br().options().flags(), "GZIP | DEFLATE");
}
