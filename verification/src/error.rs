//! What can go wrong with a texture, and how it is told.

use crate::text::{decimal, spec_decimal};
use vstd::prelude::*;
use vstd::string::*;

verus! {

/// A container declared a pixel format that the correspondence tables do not
/// hold. This is never papered over with a default.
#[derive(Clone, Debug, PartialEq, Eq)]
pub enum FormatMappingError {
    /// A nutexb footer with this format number.
    Nutexb(u32),
    /// A DDS header whose format the codec could not put a name to (`None`),
    /// or put a name to that is none of the interchange formats.
    Dds(Option<String>),
    /// A format asked for by a name that is none of the interchange formats.
    Name(String),
}

/// The model of a [`FormatMappingError`].
pub enum FormatMappingErrorView {
    Nutexb(u32),
    Dds(Option<Seq<char>>),
    Name(Seq<char>),
}

impl View for FormatMappingError {
    type V = FormatMappingErrorView;

    open spec fn view(&self) -> FormatMappingErrorView {
        match self {
            FormatMappingError::Nutexb(code) => FormatMappingErrorView::Nutexb(*code),
            FormatMappingError::Dds(Some(name)) => FormatMappingErrorView::Dds(Some(name@)),
            FormatMappingError::Dds(None) => FormatMappingErrorView::Dds(None),
            FormatMappingError::Name(name) => FormatMappingErrorView::Name(name@),
        }
    }
}

/// Why a texture could not be read or converted.
#[derive(Clone, Debug, PartialEq, Eq)]
pub enum Error {
    /// The extension names a container that no codec here reads or writes.
    UnsupportedExtension(String),
    /// The bytes are not a file of the container that the extension names. The
    /// text is the codec's.
    CorruptData(String),
    /// The surface is empty, or larger than the codecs can size.
    UnsupportedDimensions,
    /// The container declares a pixel format outside the tables.
    FormatMapping(FormatMappingError),
    /// The source could not be decoded to RGBA8. The text is the codec's.
    UnsupportedSourceFormat(String),
    /// The surface could not be encoded as asked. The text is the codec's.
    EncodeFailure(String),
    /// Reading or writing a file failed. The text is the caller's.
    Io(String),
}

/// The model of an [`Error`].
pub enum ErrorView {
    UnsupportedExtension(Seq<char>),
    CorruptData(Seq<char>),
    UnsupportedDimensions,
    FormatMapping(FormatMappingErrorView),
    UnsupportedSourceFormat(Seq<char>),
    EncodeFailure(Seq<char>),
    Io(Seq<char>),
}

impl View for Error {
    type V = ErrorView;

    open spec fn view(&self) -> ErrorView {
        match self {
            Error::UnsupportedExtension(extension) => ErrorView::UnsupportedExtension(extension@),
            Error::CorruptData(text) => ErrorView::CorruptData(text@),
            Error::UnsupportedDimensions => ErrorView::UnsupportedDimensions,
            Error::FormatMapping(e) => ErrorView::FormatMapping(e@),
            Error::UnsupportedSourceFormat(text) => ErrorView::UnsupportedSourceFormat(text@),
            Error::EncodeFailure(text) => ErrorView::EncodeFailure(text@),
            Error::Io(text) => ErrorView::Io(text@),
        }
    }
}

impl ErrorView {
    /// The sentence that tells a user what went wrong.
    pub open spec fn message(self) -> Seq<char> {
        match self {
            ErrorView::UnsupportedExtension(extension) => "no codec for the extension "@
                + extension,
            ErrorView::CorruptData(text) => text,
            ErrorView::UnsupportedDimensions =>
                "the surface is empty or larger than the codecs can hold"@,
            ErrorView::FormatMapping(FormatMappingErrorView::Nutexb(code)) => "the nutexb format "@
                + spec_decimal(code as nat) + " is no known pixel format"@,
            ErrorView::FormatMapping(FormatMappingErrorView::Dds(Some(name))) =>
                "the DDS format "@ + name + " is no known pixel format"@,
            ErrorView::FormatMapping(FormatMappingErrorView::Dds(None)) =>
                "the DDS format is not supported"@,
            ErrorView::FormatMapping(FormatMappingErrorView::Name(name)) => "no pixel format is called "@
                + name,
            ErrorView::UnsupportedSourceFormat(text) => text,
            ErrorView::EncodeFailure(text) => text,
            ErrorView::Io(text) => text,
        }
    }
}

impl Error {
    /// The sentence that tells a user what went wrong.
    pub fn message(&self) -> (text: String)
        ensures
            text@ == self@.message(),
    {
        match self {
            Error::UnsupportedExtension(extension) => String::from_str(
                "no codec for the extension ",
            ).concat(extension.as_str()),
            Error::CorruptData(text) => text.clone(),
            Error::UnsupportedDimensions => String::from_str(
                "the surface is empty or larger than the codecs can hold",
            ),
            Error::FormatMapping(FormatMappingError::Nutexb(code)) => String::from_str(
                "the nutexb format ",
            ).concat(decimal(*code as usize).as_str()).concat(" is no known pixel format"),
            Error::FormatMapping(FormatMappingError::Dds(Some(name))) => String::from_str(
                "the DDS format ",
            ).concat(name.as_str()).concat(" is no known pixel format"),
            Error::FormatMapping(FormatMappingError::Dds(None)) => String::from_str(
                "the DDS format is not supported",
            ),
            Error::FormatMapping(FormatMappingError::Name(name)) => String::from_str(
                "no pixel format is called ",
            ).concat(name.as_str()),
            Error::UnsupportedSourceFormat(text) => text.clone(),
            Error::EncodeFailure(text) => text.clone(),
            Error::Io(text) => text.clone(),
        }
    }
}

} // verus!
