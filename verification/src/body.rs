//! Response bodies that may have to be decoded.

use vstd::prelude::*;

use crate::buffers;
use crate::options::Coding;
use crate::Error;

verus! {

/// The error that a body last failed with, kept until it is reported.
///
/// A decoder reads the body through an I/O interface, whose errors cannot carry
/// the body's own. So the body's error is kept here while an I/O error goes
/// through the decoder in its place.
pub struct CapturedError<E> {
    error: Option<E>,
}

impl<E> View for CapturedError<E> {
    type V = Option<E>;

    /// The error that is kept, if any.
    closed spec fn view(&self) -> Option<E> {
        self.error
    }
}

/// A sign that an error is kept, which tells nothing about the error.
#[derive(Clone, Copy, PartialEq, Eq, Structural)]
pub struct Placeholder;

/// A body that a decoder reads from.
pub struct Adapter<B, E> {
    /// The body.
    pub body: B,
    /// The error that the body failed with.
    pub error: CapturedError<E>,
}

/// How a body gets to its reader.
pub enum BodyInner<B, E> {
    /// As it is.
    Identity {
        /// The body.
        inner: B,
    },
    /// Through a gzip decoder.
    Gzip {
        /// What the decoder reads from.
        inner: Adapter<B, E>,
    },
    /// Through a Deflate decoder.
    Deflate {
        /// What the decoder reads from.
        inner: Adapter<B, E>,
    },
    /// Through a Brotli decoder.
    Brotli {
        /// What the decoder reads from.
        inner: Adapter<B, E>,
    },
}

/// Response body of [`Decode`](crate::Decode).
pub struct DecodeBody<B, E> {
    /// The underlying body and what it is read through.
    pub inner: BodyInner<B, E>,
}

/// The error that is kept once the body has been polled with the outcome
/// `polled`, where `kept` was kept before.
pub open spec fn kept_after_poll<E>(
    kept: Option<E>,
    polled: Option<Result<bytes::Bytes, E>>,
) -> Option<E> {
    match polled {
        Some(Err(e)) => Some(e),
        _ => kept,
    }
}

/// The error that is kept once the decoder has been polled with the outcome
/// `polled`, where `kept` was kept before.
pub open spec fn kept_after_data<E>(
    kept: Option<E>,
    polled: Option<Result<bytes::BytesMut, std::io::Error>>,
) -> Option<E> {
    match polled {
        Some(Err(_)) => None,
        _ => kept,
    }
}

/// What is reported where decoding failed with `failure` while `kept` was kept.
pub open spec fn reported<E>(kept: Option<E>, failure: std::io::Error) -> Error<E> {
    match kept {
        Some(e) => Error::Body(e),
        None => Error::Compression(failure),
    }
}

impl<E> CapturedError<E> {
    /// Keeps no error.
    pub fn new() -> (captured: Self)
        ensures
            captured@ is None,
    {
        CapturedError { error: None }
    }

    /// Hands on to a decoder what polling the body gave.
    ///
    /// Data and the end of the body go on as they are. An error of the body is
    /// kept, and the decoder is given an error that stands for it.
    pub fn poll_next(&mut self, polled: Option<Result<bytes::Bytes, E>>) -> (item: Option<
        Result<bytes::Bytes, std::io::Error>,
    >)
        ensures
            final(self)@ == kept_after_poll(old(self)@, polled),
            item == match polled {
                Some(Ok(data)) => Some(Ok(data)),
                Some(Err(_)) => Some(Err(buffers::os_error(0))),
                None => None,
            },
    {
        match polled {
            Some(Ok(data)) => Some(Ok(data)),
            Some(Err(e)) => {
                self.error = Some(e);
                Some(Err(buffers::from_raw_os_error(0)))
            },
            None => None,
        }
    }

    /// Hands on to the reader what polling the decoder gave.
    ///
    /// A failure is reported as the error of the body that is kept, which is
    /// then kept no longer, or, if none is kept, as a failure to decode.
    pub fn poll_data(&mut self, polled: Option<Result<bytes::BytesMut, std::io::Error>>) -> (data:
        Option<Result<bytes::Bytes, Error<E>>>)
        ensures
            final(self)@ == kept_after_data(old(self)@, polled),
            match polled {
                Some(Ok(decoded)) => data matches Some(Ok(shared)) && buffers::shared_bytes(shared)
                    == buffers::growable_bytes(decoded),
                Some(Err(failure)) => data == Some(
                    Err::<bytes::Bytes, Error<E>>(reported(old(self)@, failure)),
                ),
                None => data is None,
            },
    {
        match polled {
            Some(Ok(decoded)) => Some(Ok(buffers::freeze(decoded))),
            Some(Err(failure)) => match self.error.take() {
                Some(e) => Some(Err(Error::Body(e))),
                None => Some(Err(Error::Compression(failure))),
            },
            None => None,
        }
    }

    /// A sign for the error that is kept, if one is.
    pub fn masked(&self) -> (sign: Option<Placeholder>)
        ensures
            sign is Some <==> self@ is Some,
    {
        match &self.error {
            Some(_) => Some(Placeholder),
            None => None,
        }
    }
}

/// Hands on to the reader what polling a body that is not decoded gave.
pub fn identity_data<E>(polled: Option<Result<bytes::Bytes, E>>) -> (data: Option<
    Result<bytes::Bytes, Error<E>>,
>)
    ensures
        data == match polled {
            Some(Ok(shared)) => Some(Ok(shared)),
            Some(Err(e)) => Some(Err(Error::Body(e))),
            None => None,
        },
{
    match polled {
        Some(Ok(shared)) => Some(Ok(shared)),
        Some(Err(e)) => Some(Err(Error::Body(e))),
        None => None,
    }
}

/// Hands on to the reader what polling a body, decoded or not, for its trailers
/// gave.
pub fn trailers<E>(polled: Result<Option<http::HeaderMap<http::HeaderValue>>, E>) -> (trailers:
    Result<Option<http::HeaderMap<http::HeaderValue>>, Error<E>>)
    ensures
        trailers == match polled {
            Ok(fields) => Ok(fields),
            Err(e) => Err(Error::Body(e)),
        },
{
    match polled {
        Ok(fields) => Ok(fields),
        Err(e) => Err(Error::Body(e)),
    }
}

impl<B, E> DecodeBody<B, E> {
    /// The underlying body.
    pub open spec fn body(self) -> B {
        match self.inner {
            BodyInner::Identity { inner } => inner,
            BodyInner::Gzip { inner } => inner.body,
            BodyInner::Deflate { inner } => inner.body,
            BodyInner::Brotli { inner } => inner.body,
        }
    }

    /// The coding that the body is decoded from, if it is decoded.
    pub open spec fn coding(self) -> Option<Coding> {
        match self.inner {
            BodyInner::Identity { .. } => None,
            BodyInner::Gzip { .. } => Some(Coding::Gzip),
            BodyInner::Deflate { .. } => Some(Coding::Deflate),
            BodyInner::Brotli { .. } => Some(Coding::Brotli),
        }
    }

    /// The error of the body that is kept, if any.
    pub open spec fn kept(self) -> Option<E> {
        match self.inner {
            BodyInner::Identity { .. } => None,
            BodyInner::Gzip { inner } => inner.error@,
            BodyInner::Deflate { inner } => inner.error@,
            BodyInner::Brotli { inner } => inner.error@,
        }
    }

    /// Gets a reference to the underlying body.
    pub fn get_ref(&self) -> (body: &B)
        ensures
            *body == self.body(),
    {
        match &self.inner {
            BodyInner::Identity { inner } => inner,
            BodyInner::Gzip { inner } => &inner.body,
            BodyInner::Deflate { inner } => &inner.body,
            BodyInner::Brotli { inner } => &inner.body,
        }
    }

    /// Gets a mutable reference to the underlying body.
    ///
    /// It is inadvisable to directly read from the underlying body.
    pub fn get_mut(&mut self) -> (body: &mut B)
        ensures
            *body == old(self).body(),
            final(self).body() == *final(body),
            final(self).coding() == old(self).coding(),
            final(self).kept() == old(self).kept(),
    {
        match &mut self.inner {
            BodyInner::Identity { inner } => inner,
            BodyInner::Gzip { inner } => &mut inner.body,
            BodyInner::Deflate { inner } => &mut inner.body,
            BodyInner::Brotli { inner } => &mut inner.body,
        }
    }

    /// Consumes `self`, returning the underlying body.
    ///
    /// Note that any leftover data in the internal buffer is lost.
    pub fn into_inner(self) -> (body: B)
        ensures
            body == self.body(),
    {
        match self.inner {
            BodyInner::Identity { inner } => inner,
            BodyInner::Gzip { inner } => inner.body,
            BodyInner::Deflate { inner } => inner.body,
            BodyInner::Brotli { inner } => inner.body,
        }
    }
}

/// The error that is kept once the body has been polled with the outcomes
/// `polls`, one after the other, where `kept` was kept before.
pub open spec fn kept_after_polls<E>(
    kept: Option<E>,
    polls: Seq<Option<Result<bytes::Bytes, E>>>,
) -> Option<E>
    decreases polls.len(),
{
    if polls.len() == 0 {
        kept
    } else {
        kept_after_poll(kept_after_polls(kept, polls.drop_last()), polls.last())
    }
}

/// Whether polling the body gave an error.
pub open spec fn failed<E>(polled: Option<Result<bytes::Bytes, E>>) -> bool {
    polled matches Some(Err(_))
}

/// Whether the poll at `at` is the last of `polls` that failed, and `error` is
/// what it failed with.
pub open spec fn failed_last<E>(
    polls: Seq<Option<Result<bytes::Bytes, E>>>,
    at: int,
    error: E,
) -> bool {
    &&& 0 <= at < polls.len()
    &&& polls[at] == Some(Err::<bytes::Bytes, E>(error))
    &&& forall|i: int| at < i < polls.len() ==> !failed(#[trigger] polls[i])
}

/// Where the body fails while a decoder reads from it, and decoding then fails
/// in whatever way, the reader is told the body's own error, the last one if
/// there were several, and never the error that stood for it.
pub proof fn body_error_is_reported<E>(
    kept: Option<E>,
    polls: Seq<Option<Result<bytes::Bytes, E>>>,
    at: int,
    error: E,
    failure: std::io::Error,
)
    requires
        failed_last(polls, at, error),
    ensures
        reported(kept_after_polls(kept, polls), failure) == Error::Body(error),
    decreases polls.len(),
{
    if at < polls.len() - 1 {
        let shorter = polls.drop_last();
        assert(!failed(polls[polls.len() - 1]));
        assert forall|i: int| at < i < shorter.len() implies !failed(#[trigger] shorter[i]) by {
            assert(!failed(polls[i]));
        }
        body_error_is_reported(kept, shorter, at, error, failure);
    }
}

/// Where the body does not fail while a decoder reads from it, and no error is
/// kept from before, a failure to decode is reported as just that.
pub proof fn decoding_error_is_reported<E>(
    polls: Seq<Option<Result<bytes::Bytes, E>>>,
    failure: std::io::Error,
)
    requires
        forall|i: int| 0 <= i < polls.len() ==> !failed(#[trigger] polls[i]),
    ensures
        reported(kept_after_polls(None, polls), failure) == Error::<E>::Compression(failure),
{
    lemma_kept_without_failure::<E>(None, polls);
}

/// One read of a decoded body: what the decoder was given each time it polled the
/// body, and what it gave itself, which is `None` where it was not done.
pub struct Read<E> {
    /// What polling the body gave.
    pub polls: Seq<Option<Result<bytes::Bytes, E>>>,
    /// What polling the decoder gave.
    pub decoded: Option<Option<Result<bytes::BytesMut, std::io::Error>>>,
}

impl<E> Read<E> {
    /// Whether the body failed in the read.
    pub open spec fn body_failed(self) -> bool {
        exists|i: int| 0 <= i < self.polls.len() && failed(#[trigger] self.polls[i])
    }

    /// Whether the decoder failed in the read.
    pub open spec fn decoder_failed(self) -> bool {
        self.decoded matches Some(Some(Err(_)))
    }
}

/// The error that is kept after a read, where `kept` was kept before it.
pub open spec fn kept_after_read<E>(kept: Option<E>, read: Read<E>) -> Option<E> {
    let polled = kept_after_polls(kept, read.polls);
    match read.decoded {
        Some(decoded) => kept_after_data(polled, decoded),
        None => polled,
    }
}

/// The error that is kept after the first reads of a body, one after the other.
pub open spec fn kept_after_reads<E>(reads: Seq<Read<E>>) -> Option<E>
    decreases reads.len(),
{
    if reads.len() == 0 {
        None
    } else {
        kept_after_read(kept_after_reads(reads.drop_last()), reads.last())
    }
}

/// Polls that do not fail leave what is kept as it is.
proof fn lemma_kept_without_failure<E>(
    kept: Option<E>,
    polls: Seq<Option<Result<bytes::Bytes, E>>>,
)
    requires
        forall|i: int| 0 <= i < polls.len() ==> !failed(#[trigger] polls[i]),
    ensures
        kept_after_polls(kept, polls) == kept,
    decreases polls.len(),
{
    if polls.len() > 0 {
        assert(!failed(polls[polls.len() - 1]));
        assert forall|i: int| 0 <= i < polls.drop_last().len() implies !failed(
            #[trigger] polls.drop_last()[i],
        ) by {
            assert(!failed(polls[i]));
        }
        lemma_kept_without_failure(kept, polls.drop_last());
    }
}

/// An error that is kept, where none was before, is that of one of the polls.
proof fn lemma_kept_comes_from_a_poll<E>(
    polls: Seq<Option<Result<bytes::Bytes, E>>>,
    error: E,
)
    requires
        kept_after_polls(None, polls) == Some(error),
    ensures
        polls.contains(Some(Err::<bytes::Bytes, E>(error))),
    decreases polls.len(),
{
    if polls.len() > 0 {
        if failed(polls.last()) {
            assert(polls[polls.len() - 1] == Some(Err::<bytes::Bytes, E>(error)));
        } else {
            lemma_kept_comes_from_a_poll(polls.drop_last(), error);
            let at = choose|i: int|
                0 <= i < polls.drop_last().len() && polls.drop_last()[i] == Some(
                    Err::<bytes::Bytes, E>(error),
                );
            assert(polls[at] == Some(Err::<bytes::Bytes, E>(error)));
        }
    }
}

/// With a decoder that fails in each read in which the body fails, no error is
/// kept from one read to the next.
pub proof fn nothing_is_kept_between_reads<E>(reads: Seq<Read<E>>)
    requires
        forall|i: int|
            0 <= i < reads.len() && (#[trigger] reads[i]).body_failed()
                ==> reads[i].decoder_failed(),
    ensures
        kept_after_reads(reads) is None,
    decreases reads.len(),
{
    if reads.len() > 0 {
        let last = reads[reads.len() - 1];
        let earlier = reads.drop_last();
        assert forall|i: int|
            0 <= i < earlier.len() && (#[trigger] earlier[i]).body_failed() implies
            earlier[i].decoder_failed() by {
            assert(reads[i].body_failed());
        }
        nothing_is_kept_between_reads(earlier);
        if !last.decoder_failed() {
            assert(!last.body_failed());
            lemma_kept_without_failure(None, last.polls);
        }
    }
}

/// With a decoder that fails in each read in which the body fails, a read that
/// fails tells its own cause, whatever reads came before it. If the body failed
/// in it, the reader is told the body's last error in that read, so never the
/// error that stood for it. If not, the reader is told the decoder's failure. An
/// error of the body is told in no read but the one in which the body gave it.
pub proof fn each_read_tells_its_own_cause<E>(
    earlier: Seq<Read<E>>,
    polls: Seq<Option<Result<bytes::Bytes, E>>>,
    failure: std::io::Error,
)
    requires
        forall|i: int|
            0 <= i < earlier.len() && (#[trigger] earlier[i]).body_failed()
                ==> earlier[i].decoder_failed(),
    ensures
        forall|at: int, error: E| #[trigger]
            failed_last(polls, at, error) ==> reported(
                kept_after_polls(kept_after_reads(earlier), polls),
                failure,
            ) == Error::Body(error),
        (forall|i: int| 0 <= i < polls.len() ==> !failed(#[trigger] polls[i])) ==> reported(
            kept_after_polls(kept_after_reads(earlier), polls),
            failure,
        ) == Error::<E>::Compression(failure),
        reported(kept_after_polls(kept_after_reads(earlier), polls), failure) matches Error::Body(
            error,
        ) ==> polls.contains(Some(Err::<bytes::Bytes, E>(error))),
{
    nothing_is_kept_between_reads(earlier);
    assert forall|at: int, error: E| #[trigger] failed_last(polls, at, error) implies reported(
        kept_after_polls(kept_after_reads(earlier), polls),
        failure,
    ) == Error::Body(error) by {
        body_error_is_reported(None, polls, at, error, failure);
    }
    if forall|i: int| 0 <= i < polls.len() ==> !failed(#[trigger] polls[i]) {
        decoding_error_is_reported(polls, failure);
    }
    if let Some(error) = kept_after_polls(None, polls) {
        lemma_kept_comes_from_a_poll(polls, error);
    }
}

} // verus!
