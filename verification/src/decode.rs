//! Middleware that decompresses response bodies.

use vstd::prelude::*;

use crate::body::{Adapter, BodyInner, CapturedError, DecodeBody};
use crate::headers;
use crate::options::{self, Coding, Options};

verus! {

/// Decompresses response bodies of the underlying service.
///
/// This adds the `Accept-Encoding` header to requests and transparently decompresses response
/// bodies based on the `Content-Encoding` header.
pub struct Decode<S> {
    inner: S,
    options: Options,
}

/// Decompresses response bodies of the underlying service.
///
/// This adds the `Accept-Encoding` header to requests and transparently decompresses response
/// bodies based on the `Content-Encoding` header.
pub struct DecodeLayer {
    options: Options,
}

/// What a request leaves behind to treat its response by.
#[derive(Clone, Copy)]
pub struct ResponseFuture {
    options: Options,
}

/// Why a request could not be given its `Accept-Encoding` field: its header map
/// takes no further names.
#[derive(Debug, Clone, Copy, PartialEq, Eq, Structural)]
pub struct HeadersFull;

/// A response, as far as the middleware looks into it.
pub struct Response<H, B> {
    /// All that comes before the body but for the header fields, such as the
    /// status.
    pub head: H,
    /// The header fields.
    pub headers: http::HeaderMap<http::HeaderValue>,
    /// The body.
    pub body: B,
}

/// Whether a request with `fields` is to be given an `Accept-Encoding` field
/// where `codings` are asked for.
pub open spec fn asks(fields: Map<Seq<char>, Seq<(Seq<u8>, bool)>>, codings: Set<Coding>) -> bool {
    &&& !fields.contains_key(headers::RANGE@)
    &&& !fields.contains_key(headers::ACCEPT_ENCODING@)
    &&& options::accepted(codings) is Some
}

/// The fields that a request goes out with where `codings` are asked for.
pub open spec fn request_fields(
    fields: Map<Seq<char>, Seq<(Seq<u8>, bool)>>,
    codings: Set<Coding>,
) -> Map<Seq<char>, Seq<(Seq<u8>, bool)>> {
    if asks(fields, codings) {
        fields.insert(headers::ACCEPT_ENCODING@, seq![(options::accepted(codings)->0, false)])
    } else {
        fields
    }
}

/// The coding that the body of a response with `fields` is decoded from where
/// `codings` are decoded, if it is decoded. The first `Content-Encoding` value
/// decides.
pub open spec fn decoded_from(
    fields: Map<Seq<char>, Seq<(Seq<u8>, bool)>>,
    codings: Set<Coding>,
) -> Option<Coding> {
    if fields.contains_key(headers::CONTENT_ENCODING@) {
        options::coding_among(fields[headers::CONTENT_ENCODING@][0].0, codings)
    } else {
        None
    }
}

/// The fields that a response is handed on with where `codings` are decoded.
pub open spec fn response_fields(
    fields: Map<Seq<char>, Seq<(Seq<u8>, bool)>>,
    codings: Set<Coding>,
) -> Map<Seq<char>, Seq<(Seq<u8>, bool)>> {
    if decoded_from(fields, codings) is Some {
        fields.remove(headers::CONTENT_ENCODING@).remove(headers::CONTENT_LENGTH@)
    } else {
        fields
    }
}

/// Whether `wrapped` is what `res` is handed on as where `codings` are decoded.
pub open spec fn wraps<H, B, E>(
    res: Response<H, B>,
    codings: Set<Coding>,
    wrapped: Response<H, DecodeBody<B, E>>,
) -> bool {
    let fields = headers::fields(res.headers);
    &&& wrapped.head == res.head
    &&& wrapped.body.body() == res.body
    &&& wrapped.body.coding() == decoded_from(fields, codings)
    &&& wrapped.body.kept() is None
    &&& headers::fields(wrapped.headers) == response_fields(fields, codings)
    &&& decoded_from(fields, codings) is None ==> wrapped.headers == res.headers
}

impl<B, E> DecodeBody<B, E> {
    /// Puts the body of a response under the decoder for its coding, if that is
    /// one of `options`, and takes out the header fields that no longer hold of
    /// the body then. Any other response stays as it is.
    pub fn wrap_response<H>(res: Response<H, B>, options: &Options) -> (wrapped: Response<
        H,
        Self,
    >)
        ensures
            wraps(res, options@, wrapped),
    {
        proof {
            headers::lemma_names_are_plain();
        }
        let head = res.head;
        let mut headers = res.headers;
        let body = res.body;
        let coding = match headers::get(&headers, headers::CONTENT_ENCODING) {
            Some(value) => options.coding_of(headers::as_bytes(value)),
            None => None,
        };
        let inner = match coding {
            Some(Coding::Gzip) => BodyInner::Gzip {
                inner: Adapter { body, error: CapturedError::new() },
            },
            Some(Coding::Deflate) => BodyInner::Deflate {
                inner: Adapter { body, error: CapturedError::new() },
            },
            Some(Coding::Brotli) => BodyInner::Brotli {
                inner: Adapter { body, error: CapturedError::new() },
            },
            None => return Response { head, headers, body: DecodeBody::identity(body) },
        };
        headers::remove(&mut headers, headers::CONTENT_ENCODING);
        headers::remove(&mut headers, headers::CONTENT_LENGTH);
        Response { head, headers, body: DecodeBody { inner } }
    }

    /// Hands `body` on as it is.
    pub fn identity(body: B) -> (decode_body: Self)
        ensures
            decode_body.body() == body,
            decode_body.coding() is None,
            decode_body.kept() is None,
    {
        DecodeBody { inner: BodyInner::Identity { inner: body } }
    }
}

impl<S> Decode<S> {
    /// The underlying service.
    pub closed spec fn service(self) -> S {
        self.inner
    }

    /// The codings that are asked for and decoded.
    pub closed spec fn codings(self) -> Set<Coding> {
        self.options@
    }

    /// Creates a new `Decode` wrapping the `service`.
    pub fn new(service: S) -> (decode: Self)
        ensures
            decode.service() == service,
            decode.codings() == Set::<Coding>::full(),
    {
        Decode { inner: service, options: Options::default() }
    }

    /// Gets a reference to the underlying service.
    pub fn get_ref(&self) -> (service: &S)
        ensures
            *service == self.service(),
    {
        &self.inner
    }

    /// Gets a mutable reference to the underlying service.
    pub fn get_mut(&mut self) -> (service: &mut S)
        ensures
            *service == old(self).service(),
            final(self).service() == *final(service),
            final(self).codings() == old(self).codings(),
    {
        &mut self.inner
    }

    /// Gets the codings that are asked for and decoded.
    pub fn options(&self) -> (options: Options)
        ensures
            options@ == self.codings(),
    {
        self.options
    }

    /// Consumes `self`, returning the underlying service.
    pub fn into_inner(self) -> (service: S)
        ensures
            service == self.service(),
    {
        self.inner
    }

    /// Sets whether to request the gzip encoding.
    pub fn gzip(self, enable: bool) -> (decode: Self)
        ensures
            decode.codings() == options::with_coding(self.codings(), Coding::Gzip, enable),
            decode.service() == self.service(),
    {
        Decode { inner: self.inner, options: self.options.set_gzip(enable) }
    }

    /// Sets whether to request the Deflate encoding.
    pub fn deflate(self, enable: bool) -> (decode: Self)
        ensures
            decode.codings() == options::with_coding(self.codings(), Coding::Deflate, enable),
            decode.service() == self.service(),
    {
        Decode { inner: self.inner, options: self.options.set_deflate(enable) }
    }

    /// Sets whether to request the Brotli encoding.
    pub fn br(self, enable: bool) -> (decode: Self)
        ensures
            decode.codings() == options::with_coding(self.codings(), Coding::Brotli, enable),
            decode.service() == self.service(),
    {
        Decode { inner: self.inner, options: self.options.set_br(enable) }
    }

    /// Disables the gzip encoding.
    pub fn no_gzip(self) -> (decode: Self)
        ensures
            decode.codings() == self.codings().remove(Coding::Gzip),
            decode.service() == self.service(),
    {
        Decode { inner: self.inner, options: self.options.set_gzip(false) }
    }

    /// Disables the Deflate encoding.
    pub fn no_deflate(self) -> (decode: Self)
        ensures
            decode.codings() == self.codings().remove(Coding::Deflate),
            decode.service() == self.service(),
    {
        Decode { inner: self.inner, options: self.options.set_deflate(false) }
    }

    /// Disables the Brotli encoding.
    pub fn no_br(self) -> (decode: Self)
        ensures
            decode.codings() == self.codings().remove(Coding::Brotli),
            decode.service() == self.service(),
    {
        Decode { inner: self.inner, options: self.options.set_br(false) }
    }

    /// Makes a request ready for the underlying service, and gives what to treat
    /// its response by.
    ///
    /// A request for a part of a resource, and one that has an `Accept-Encoding`
    /// field of its own, stays as it is.
    pub fn call(&self, headers: &mut http::HeaderMap<http::HeaderValue>) -> (future: Result<
        ResponseFuture,
        HeadersFull,
    >)
        ensures
            match future {
                Ok(f) => {
                    &&& headers::fields(*final(headers)) == request_fields(
                        headers::fields(*old(headers)),
                        self.codings(),
                    )
                    &&& f.codings() == self.codings()
                },
                Err(_) => {
                    &&& headers::fields(*final(headers)) == headers::fields(*old(headers))
                    &&& asks(headers::fields(*old(headers)), self.codings())
                    &&& headers::fields(*old(headers)).dom().len() >= headers::NAMES_ALWAYS_TAKEN
                },
            },
            !asks(headers::fields(*old(headers)), self.codings()) ==> *final(headers) == *old(
                headers,
            ),
    {
        proof {
            headers::lemma_names_are_plain();
        }
        if !headers::contains_key(headers, headers::RANGE) && !headers::contains_key(
            headers,
            headers::ACCEPT_ENCODING,
        ) {
            if let Some(accept) = self.options.accept_encoding() {
                let inserted = headers::try_insert(headers, headers::ACCEPT_ENCODING, accept);
                return self.asked(inserted);
            }
        }
        Ok(ResponseFuture { options: self.options })
    }

    /// What to treat the response to a request by, once the attempt to put an
    /// `Accept-Encoding` field into the request has come out as `inserted`.
    pub fn asked(
        &self,
        inserted: Result<Option<http::HeaderValue>, http::header::MaxSizeReached>,
    ) -> (future: Result<ResponseFuture, HeadersFull>)
        ensures
            match inserted {
                Ok(_) => future matches Ok(f) && f.codings() == self.codings(),
                Err(_) => future == Err::<ResponseFuture, HeadersFull>(HeadersFull),
            },
    {
        match inserted {
            Ok(_) => Ok(ResponseFuture { options: self.options }),
            Err(_) => Err(HeadersFull),
        }
    }
}

impl DecodeLayer {
    /// The codings that the services are set to.
    pub closed spec fn codings(self) -> Set<Coding> {
        self.options@
    }

    /// Creates a new `DecodeLayer`.
    pub fn new() -> (layer: Self)
        ensures
            layer.codings() == Set::<Coding>::full(),
    {
        DecodeLayer::default()
    }

    /// Sets whether to request the gzip encoding.
    pub fn gzip(self, enable: bool) -> (layer: Self)
        ensures
            layer.codings() == options::with_coding(self.codings(), Coding::Gzip, enable),
    {
        DecodeLayer { options: self.options.set_gzip(enable) }
    }

    /// Sets whether to request the Deflate encoding.
    pub fn deflate(self, enable: bool) -> (layer: Self)
        ensures
            layer.codings() == options::with_coding(self.codings(), Coding::Deflate, enable),
    {
        DecodeLayer { options: self.options.set_deflate(enable) }
    }

    /// Sets whether to request the Brotli encoding.
    pub fn br(self, enable: bool) -> (layer: Self)
        ensures
            layer.codings() == options::with_coding(self.codings(), Coding::Brotli, enable),
    {
        DecodeLayer { options: self.options.set_br(enable) }
    }

    /// Disables the gzip encoding.
    pub fn no_gzip(self) -> (layer: Self)
        ensures
            layer.codings() == self.codings().remove(Coding::Gzip),
    {
        DecodeLayer { options: self.options.set_gzip(false) }
    }

    /// Disables the Deflate encoding.
    pub fn no_deflate(self) -> (layer: Self)
        ensures
            layer.codings() == self.codings().remove(Coding::Deflate),
    {
        DecodeLayer { options: self.options.set_deflate(false) }
    }

    /// Disables the Brotli encoding.
    pub fn no_br(self) -> (layer: Self)
        ensures
            layer.codings() == self.codings().remove(Coding::Brotli),
    {
        DecodeLayer { options: self.options.set_br(false) }
    }

    /// Gets the codings that are asked for and decoded by the services.
    pub fn options(&self) -> (options: Options)
        ensures
            options@ == self.codings(),
    {
        self.options
    }

    /// Wraps the `service`.
    pub fn layer<S>(&self, service: S) -> (decode: Decode<S>)
        ensures
            decode.service() == service,
            decode.codings() == self.codings(),
    {
        Decode { inner: service, options: self.options }
    }
}

impl<S: Clone> Clone for Decode<S> {
    /// The same codings around a clone of the service.
    fn clone(&self) -> (decode: Self)
        ensures
            cloned(self.service(), decode.service()),
            decode.codings() == self.codings(),
    {
        Decode { inner: self.inner.clone(), options: self.options }
    }
}

impl Clone for DecodeLayer {
    /// A layer of the same codings.
    fn clone(&self) -> (layer: Self)
        ensures
            layer.codings() == self.codings(),
    {
        DecodeLayer { options: self.options }
    }
}

impl Default for DecodeLayer {
    /// All codings.
    fn default() -> (layer: Self)
        ensures
            layer.codings() == Set::<Coding>::full(),
    {
        DecodeLayer { options: Options::default() }
    }
}

impl ResponseFuture {
    /// The codings that are decoded.
    pub closed spec fn codings(self) -> Set<Coding> {
        self.options@
    }

    /// Gets the codings that are decoded.
    pub fn options(&self) -> (options: Options)
        ensures
            options@ == self.codings(),
    {
        self.options
    }

    /// Hands on what the underlying service answered: its response, with a body
    /// to be decoded where that applies, or its error.
    pub fn poll<H, B, E, F>(&self, answer: Result<Response<H, B>, F>) -> (output: Result<
        Response<H, DecodeBody<B, E>>,
        F,
    >)
        ensures
            match answer {
                Ok(res) => output matches Ok(wrapped) && wraps(res, self.codings(), wrapped),
                Err(error) => output == Err::<Response<H, DecodeBody<B, E>>, F>(error),
            },
    {
        match answer {
            Ok(res) => Ok(DecodeBody::wrap_response(res, &self.options)),
            Err(error) => Err(error),
        }
    }
}

/// A request keeps every field that it has, and gains none but `Accept-Encoding`.
pub proof fn request_keeps_its_fields(
    fields: Map<Seq<char>, Seq<(Seq<u8>, bool)>>,
    codings: Set<Coding>,
    name: Seq<char>,
)
    ensures
        fields.contains_key(name) ==> request_fields(fields, codings).contains_key(name)
            && request_fields(fields, codings)[name] == fields[name],
        request_fields(fields, codings).contains_key(name) ==> fields.contains_key(name) || name
            == headers::ACCEPT_ENCODING@,
{
}

/// A request that has been given its `Accept-Encoding` field is changed no
/// further, whatever codings another service would ask for.
pub proof fn request_is_asked_once(
    fields: Map<Seq<char>, Seq<(Seq<u8>, bool)>>,
    codings: Set<Coding>,
    others: Set<Coding>,
)
    requires
        asks(fields, codings),
    ensures
        request_fields(request_fields(fields, codings), others) == request_fields(
            fields,
            codings,
        ),
{
}

/// To make a request ready twice is to make it ready once.
pub proof fn request_is_stable(fields: Map<Seq<char>, Seq<(Seq<u8>, bool)>>, codings: Set<Coding>)
    ensures
        request_fields(request_fields(fields, codings), codings) == request_fields(
            fields,
            codings,
        ),
{
}

/// A body is decoded from a coding exactly where the first `Content-Encoding`
/// value is the coding's token and the coding is one of those to be decoded.
pub proof fn decoded_where_named(
    fields: Map<Seq<char>, Seq<(Seq<u8>, bool)>>,
    codings: Set<Coding>,
    coding: Coding,
)
    ensures
        decoded_from(fields, codings) == Some(coding) <==> {
            &&& fields.contains_key(headers::CONTENT_ENCODING@)
            &&& fields[headers::CONTENT_ENCODING@][0].0 == vstd::utf8::encode_utf8(coding.token())
            &&& codings.contains(coding)
        },
{
    options::lemma_tokens_differ();
}

/// What is asked for is what is decoded: a body in some coding is decoded exactly
/// where the token of that coding is among those asked for.
pub proof fn asked_for_is_decoded(
    fields: Map<Seq<char>, Seq<(Seq<u8>, bool)>>,
    codings: Set<Coding>,
    coding: Coding,
)
    requires
        fields.contains_key(headers::CONTENT_ENCODING@),
        fields[headers::CONTENT_ENCODING@][0].0 == vstd::utf8::encode_utf8(coding.token()),
    ensures
        decoded_from(fields, codings) == Some(coding) <==> options::tokens(codings).contains(
            coding.token(),
        ),
{
    decoded_where_named(fields, codings, coding);
    options::asked_for_are_the_codings(codings, coding);
}

/// A response whose body is decoded has neither a `Content-Encoding` nor a
/// `Content-Length` field left.
pub proof fn decoded_response_is_plain(
    fields: Map<Seq<char>, Seq<(Seq<u8>, bool)>>,
    codings: Set<Coding>,
)
    requires
        decoded_from(fields, codings) is Some,
    ensures
        !response_fields(fields, codings).contains_key(headers::CONTENT_ENCODING@),
        !response_fields(fields, codings).contains_key(headers::CONTENT_LENGTH@),
{
}

/// A response keeps every other field as it is, and gains none.
pub proof fn response_keeps_other_fields(
    fields: Map<Seq<char>, Seq<(Seq<u8>, bool)>>,
    codings: Set<Coding>,
    name: Seq<char>,
)
    ensures
        response_fields(fields, codings).contains_key(name) ==> fields.contains_key(name)
            && response_fields(fields, codings)[name] == fields[name],
        fields.contains_key(name) && name != headers::CONTENT_ENCODING@ && name
            != headers::CONTENT_LENGTH@ ==> response_fields(fields, codings).contains_key(name),
{
}

/// A body that is decoded is not decoded again by another service, whatever that
/// service decodes, and the response is changed no further.
pub proof fn response_is_decoded_once(
    fields: Map<Seq<char>, Seq<(Seq<u8>, bool)>>,
    codings: Set<Coding>,
    others: Set<Coding>,
)
    requires
        decoded_from(fields, codings) is Some,
    ensures
        decoded_from(response_fields(fields, codings), others) is None,
        response_fields(response_fields(fields, codings), others) == response_fields(
            fields,
            codings,
        ),
{
}

/// To treat a response twice by the same codings is to treat it once.
pub proof fn response_is_stable(fields: Map<Seq<char>, Seq<(Seq<u8>, bool)>>, codings: Set<Coding>)
    ensures
        response_fields(response_fields(fields, codings), codings) == response_fields(
            fields,
            codings,
        ),
{
}

/// With no coding enabled, requests and responses go through as they are.
pub proof fn nothing_enabled_changes_nothing(fields: Map<Seq<char>, Seq<(Seq<u8>, bool)>>)
    ensures
        request_fields(fields, Set::<Coding>::empty()) == fields,
        response_fields(fields, Set::<Coding>::empty()) == fields,
        decoded_from(fields, Set::<Coding>::empty()) is None,
{
}

} // verus!
