//! Helpers around bodies.

use vstd::prelude::*;

verus! {

/// A body that is read as a stream of buffers.
#[derive(Debug)]
pub struct BodyAsStream<B>(pub B);

impl<B> BodyAsStream<B> {
    /// Hands on to the reader of the stream what polling the body gave, an error
    /// of the body as the I/O error that `into_io` makes of it.
    pub fn poll_next<E, F: FnOnce(E) -> std::io::Error>(
        polled: Option<Result<bytes::Bytes, E>>,
        into_io: F,
    ) -> (item: Option<Result<bytes::Bytes, std::io::Error>>)
        requires
            polled matches Some(Err(e)) ==> into_io.requires((e,)),
        ensures
            match polled {
                Some(Ok(data)) => item == Some(Ok::<bytes::Bytes, std::io::Error>(data)),
                Some(Err(e)) => item matches Some(Err(error)) && into_io.ensures((e,), error),
                None => item is None,
            },
    {
        match polled {
            Some(Ok(data)) => Some(Ok(data)),
            Some(Err(e)) => Some(Err(into_io(e))),
            None => None,
        }
    }
}

} // verus!
