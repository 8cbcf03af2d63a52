//! What can go wrong, as a closed set of kinds that a caller can match on
//! without reading message text.

use vstd::prelude::*;

verus! {

#[verifier::external_type_specification]
#[verifier::external_body]
pub struct ExIoError(std::io::Error);

#[verifier::external_type_specification]
#[verifier::external_body]
pub struct ExImageError(image::ImageError);

/// The I/O failures that are told apart; every other one is `Other` and is
/// reported by its message.
#[derive(Clone, Copy, Debug, PartialEq, Eq, Structural)]
pub enum IoKind {
    NotFound,
    PermissionDenied,
    BrokenPipe,
    AlreadyExists,
    Other,
}

/// The kinds of failure: five from image processing, and the I/O family.
#[derive(Clone, Copy, Debug, PartialEq, Eq, Structural)]
pub enum FailureKind {
    Decoding,
    Encoding,
    Parameter,
    Limits,
    Unsupported,
    Io(IoKind),
}

/// A failure as it is handed to the caller: its kind, and for an I/O failure
/// of kind `Other` the text that describes it. The text is empty for every
/// other kind.
#[derive(Debug, PartialEq, Eq)]
pub struct Failure {
    pub kind: FailureKind,
    pub message: String,
}

/// An `image::ImageError` taken apart: which variant it is, with the I/O
/// error that the I/O variant carries.
pub enum ImageFault {
    Decoding,
    Encoding,
    Parameter,
    Limits,
    Unsupported,
    Io(std::io::Error),
}

/// The kind of a `std::io::Error`, as `std::io::Error::kind` reports it.
pub uninterp spec fn io_error_kind(err: std::io::Error) -> IoKind;

/// The variant of an `image::ImageError`, with its I/O error if it has one.
pub uninterp spec fn image_error_fault(err: image::ImageError) -> ImageFault;

/// The kind under which an `image::ImageError` is reported.
pub open spec fn image_error_kind(err: image::ImageError) -> FailureKind {
    match image_error_fault(err) {
        ImageFault::Decoding => FailureKind::Decoding,
        ImageFault::Encoding => FailureKind::Encoding,
        ImageFault::Parameter => FailureKind::Parameter,
        ImageFault::Limits => FailureKind::Limits,
        ImageFault::Unsupported => FailureKind::Unsupported,
        ImageFault::Io(inner) => FailureKind::Io(io_error_kind(inner)),
    }
}

/// The name under which a kind is reported; the I/O kind `Other` has none
/// and is reported by its message instead.
pub open spec fn atom_of(kind: FailureKind) -> Option<Seq<char>> {
    match kind {
        FailureKind::Decoding => Some("decoding"@),
        FailureKind::Encoding => Some("encoding"@),
        FailureKind::Parameter => Some("parameter"@),
        FailureKind::Limits => Some("limits"@),
        FailureKind::Unsupported => Some("unsupported"@),
        FailureKind::Io(IoKind::NotFound) => Some("enoent"@),
        FailureKind::Io(IoKind::PermissionDenied) => Some("eacces"@),
        FailureKind::Io(IoKind::BrokenPipe) => Some("epipe"@),
        FailureKind::Io(IoKind::AlreadyExists) => Some("eexist"@),
        FailureKind::Io(IoKind::Other) => None,
    }
}

impl FailureKind {
    /// Whether a failure of this kind carries a message.
    pub open spec fn has_message(self) -> bool {
        self == FailureKind::Io(IoKind::Other)
    }

    /// The name under which this kind is reported, if it has one.
    pub fn atom(self) -> (name: Option<&'static str>)
        ensures
            match name {
                Some(text) => atom_of(self) == Some(text@),
                None => atom_of(self) is None,
            },
    {
        match self {
            FailureKind::Decoding => Some("decoding"),
            FailureKind::Encoding => Some("encoding"),
            FailureKind::Parameter => Some("parameter"),
            FailureKind::Limits => Some("limits"),
            FailureKind::Unsupported => Some("unsupported"),
            FailureKind::Io(IoKind::NotFound) => Some("enoent"),
            FailureKind::Io(IoKind::PermissionDenied) => Some("eacces"),
            FailureKind::Io(IoKind::BrokenPipe) => Some("epipe"),
            FailureKind::Io(IoKind::AlreadyExists) => Some("eexist"),
            FailureKind::Io(IoKind::Other) => None,
        }
    }
}

impl Failure {
    /// Only a failure whose kind is reported by its message carries one.
    pub open spec fn wf(self) -> bool {
        !self.kind.has_message() ==> self.message@ == Seq::<char>::empty()
    }

    /// A failure of the given kind without a message.
    pub fn of_kind(kind: FailureKind) -> (failure: Failure)
        ensures
            failure.kind == kind,
            failure.message@ == Seq::<char>::empty(),
    {
        Failure { kind, message: String::new() }
    }

    /// The failure that stands for an I/O error of the given kind whose text
    /// is `text`: the four kinds that are told apart are reported by name and
    /// drop the text, every other error is reported by its text.
    pub fn of_io(kind: IoKind, text: String) -> (failure: Failure)
        ensures
            failure.kind == FailureKind::Io(kind),
            failure.message@ == (if kind == IoKind::Other { text@ } else { Seq::<char>::empty() }),
    {
        match kind {
            IoKind::Other => Failure { kind: FailureKind::Io(IoKind::Other), message: text },
            _ => Failure { kind: FailureKind::Io(kind), message: String::new() },
        }
    }

    /// The failure that stands for an I/O error.
    pub fn from_io_error(err: &std::io::Error) -> (failure: Failure)
        ensures
            failure.kind == FailureKind::Io(io_error_kind(*err)),
            failure.wf(),
    {
        let kind = io_kind(err);
        match kind {
            IoKind::Other => Failure::of_io(kind, io_text(err)),
            _ => Failure::of_io(kind, String::new()),
        }
    }

    /// The failure that stands for an error of the imaging library.
    pub fn from_image_error(err: image::ImageError) -> (failure: Failure)
        ensures
            failure.kind == image_error_kind(err),
            failure.wf(),
    {
        match split_image_error(err) {
            ImageFault::Decoding => Failure::of_kind(FailureKind::Decoding),
            ImageFault::Encoding => Failure::of_kind(FailureKind::Encoding),
            ImageFault::Parameter => Failure::of_kind(FailureKind::Parameter),
            ImageFault::Limits => Failure::of_kind(FailureKind::Limits),
            ImageFault::Unsupported => Failure::of_kind(FailureKind::Unsupported),
            ImageFault::Io(inner) => Failure::from_io_error(&inner),
        }
    }
}

/// Calls `std::io::Error::kind` and tells the four kinds that are reported by
/// name apart from all others. Trusted: the kind depends on the error alone.
#[verifier::external_body]
fn io_kind(err: &std::io::Error) -> (kind: IoKind)
    ensures
        kind == io_error_kind(*err),
{
    match err.kind() {
        std::io::ErrorKind::NotFound => IoKind::NotFound,
        std::io::ErrorKind::PermissionDenied => IoKind::PermissionDenied,
        std::io::ErrorKind::BrokenPipe => IoKind::BrokenPipe,
        std::io::ErrorKind::AlreadyExists => IoKind::AlreadyExists,
        _ => IoKind::Other,
    }
}

/// Formats a `std::io::Error` through its `Display` impl. Nothing is claimed
/// of the text: for an error of the operating system it follows the locale.
#[verifier::external_body]
fn io_text(err: &std::io::Error) -> (text: String) {
    format!("{}", err)
}

/// Tells the variants of `image::ImageError` apart and moves the I/O error
/// out of the I/O variant. Trusted: the result depends on the error alone.
#[verifier::external_body]
fn split_image_error(err: image::ImageError) -> (fault: ImageFault)
    ensures
        fault == image_error_fault(err),
{
    match err {
        image::ImageError::Decoding(_) => ImageFault::Decoding,
        image::ImageError::Encoding(_) => ImageFault::Encoding,
        image::ImageError::Parameter(_) => ImageFault::Parameter,
        image::ImageError::Limits(_) => ImageFault::Limits,
        image::ImageError::Unsupported(_) => ImageFault::Unsupported,
        image::ImageError::IoError(inner) => ImageFault::Io(inner),
    }
}

} // verus!
