//! The failure taxonomy of the service. Client mistakes (a missing image,
//! undecodable bytes, an invalid key, an over-long field) each have their
//! own variant, so that callers can map them to the right response.

use vstd::prelude::*;

verus! {

/// Why a request was refused.
#[derive(Debug)]
pub enum Error {
    /// No image data was supplied at all.
    NoImage,
    /// The supplied bytes could not be decoded as a supported raster
    /// format, or a rendition could not be encoded; the decoder's or
    /// encoder's report is carried along.
    ImageError(image::ImageError),
    /// The named thing does not exist.
    NotFound,
    /// The caller does not own the thing it tries to change.
    Unathorized,
    /// A comment does not belong to the specified image.
    WrongImage,
    /// The named user does not exist.
    InvalidUsername,
    /// Wrong username or password.
    InvalidLogin,
    /// Wrong password.
    InvalidPassword,
    /// A timeframe whose start lies after its end.
    InvalidTimeframe,
    /// A cover key that names no image.
    InvalidCoverKey,
    /// An album or image key that names nothing.
    InvalidKey,
    /// A published album cannot be set back to draft.
    AlreadyPublished,
    /// A text field exceeds its maximum length.
    TooManyCharacters { field: &'static str, maximum_length: u64 },
}

} // verus!
