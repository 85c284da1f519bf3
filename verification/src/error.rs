use vstd::prelude::*;

verus! {

/// Declares `image::ImageError`, the image crate's decoding/encoding error
/// type, so it can be carried as an error payload. Relied on only as an
/// opaque value wrapped unchanged; the core never inspects it.
#[verifier::external_type_specification]
#[verifier::external_body]
pub struct ExImageError(::image::ImageError);

/// Declares `std::io::Error` so platform I/O failures can be carried as an
/// error payload. Relied on only as an opaque value wrapped unchanged.
#[verifier::external_type_specification]
#[verifier::external_body]
pub struct ExIoError(std::io::Error);

/// Every error a canvas operation can surface. Fallible operations return
/// one of these immediately to the caller; nothing is retried internally.
#[derive(Debug)]
#[non_exhaustive]
pub enum ErrorKind {
    /// Unknown error.
    UnknownError,
    /// General error with an opaque message.
    GeneralError(String),
    /// Image decoding/encoding error, wrapped from the image crate.
    ImageError(::image::ImageError),
    /// I/O error, wrapped from the underlying platform.
    IoError(std::io::Error),
    /// Font parse error.
    FontParseError,
    /// No matching font was found.
    NoFontFound,
    /// Font info extraction error.
    FontInfoExtracionError,
    /// Font size too large for the glyph atlas.
    FontSizeTooLargeForAtlas,
    /// Shader compile failure, with the compiler's diagnostic text.
    ShaderCompileError(String),
    /// Shader link failure, with the linker's diagnostic text.
    ShaderLinkError(String),
    /// Render target error.
    RenderTargetError(String),
    /// The image id has no live entry in the image store.
    ImageIdNotFound,
    /// An image update region exceeds the image's allocated bounds.
    ImageUpdateOutOfBounds,
    /// An image update payload has a different pixel format than the image
    /// was allocated with.
    ImageUpdateWithDifferentFormat,
    /// Unsuported image format error.
    UnsuportedImageFromat,
}

impl From<::image::ImageError> for ErrorKind {
    /// Wraps an image crate error unchanged.
    fn from(error: ::image::ImageError) -> (kind: Self) {
        ErrorKind::ImageError(error)
    }
}

impl vstd::std_specs::convert::FromSpecImpl<::image::ImageError> for ErrorKind {
    open spec fn obeys_from_spec() -> bool {
        true
    }

    open spec fn from_spec(error: ::image::ImageError) -> Self {
        ErrorKind::ImageError(error)
    }
}

impl From<std::io::Error> for ErrorKind {
    /// Wraps a platform I/O error unchanged.
    fn from(error: std::io::Error) -> (kind: Self) {
        ErrorKind::IoError(error)
    }
}

impl vstd::std_specs::convert::FromSpecImpl<std::io::Error> for ErrorKind {
    open spec fn obeys_from_spec() -> bool {
        true
    }

    open spec fn from_spec(error: std::io::Error) -> Self {
        ErrorKind::IoError(error)
    }
}

} // verus!
