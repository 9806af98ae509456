//! Collection of Tower middlewares to handle HTTP `Content-Encoding`.

pub mod body;
pub mod buffers;
pub mod decode;
pub mod headers;
pub mod laws;
pub mod options;
pub mod util;

pub use body::DecodeBody;
pub use decode::{Decode, DecodeLayer};

use vstd::prelude::*;

verus! {

/// Error type for the body types.
#[derive(Debug)]
pub enum Error<E> {
    /// Error from the underlying body.
    Body(E),
    /// Compression/decompression error.
    Compression(std::io::Error),
}

impl<E: std::fmt::Display> Error<E> {
    /// The text of the error within.
    pub fn to_string(&self) -> (text: String)
        ensures
            match self {
                Error::Body(e) => vstd::string::to_string_from_display_ensures::<E>(e, text),
                Error::Compression(e) => vstd::string::to_string_from_display_ensures::<
                    std::io::Error,
                >(e, text),
            },
    {
        match self {
            Error::Body(e) => e.to_string(),
            Error::Compression(e) => e.to_string(),
        }
    }
}

} // verus!
