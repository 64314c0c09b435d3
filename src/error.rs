use vstd::prelude::*;

use crate::codec::Compression;

verus! {

/// Why tile data could not be recovered.
#[derive(Debug, PartialEq, Eq)]
pub enum Error {
    /// The text is not standard, padded base64; the decoder's message.
    InvalidBase64(String),
    /// The codec rejected the stream (corrupt, truncated, bad header).
    Decompression { codec: Compression, message: String },
    /// The byte count is not a multiple of the element size.
    ByteAlignment { len: usize, element_size: usize },
    /// A raw index list was handed to an operation on encoded text.
    InvalidSourceShape,
    /// Encoded text was handed to an operation that takes raw indices only.
    UnsupportedShapeForOperation,
}

impl Error {
    /// Wraps the error in `Err`.
    pub fn fail<T>(self) -> (r: Result<T, Self>)
        ensures
            r == Err::<T, Self>(self),
    {
        Err(self)
    }
}

} // verus!
