use image::error::{
    DecodingError, EncodingError, ImageFormatHint, LimitError, LimitErrorKind, ParameterError,
    ParameterErrorKind, UnsupportedError,
};
use image::ImageError;
use imagism::failure::{Failure, FailureKind, IoKind};
use std::io::{Error, ErrorKind};

#[test]
fn atoms_of_the_image_kinds() {
    assert_eq!(FailureKind::Decoding.atom(), Some("decoding"));
    assert_eq!(FailureKind::Encoding.atom(), Some("encoding"));
    assert_eq!(FailureKind::Parameter.atom(), Some("parameter"));
    assert_eq!(FailureKind::Limits.atom(), Some("limits"));
    assert_eq!(FailureKind::Unsupported.atom(), Some("unsupported"));
}

#[test]
fn atoms_of_the_io_kinds() {
    assert_eq!(FailureKind::Io(IoKind::NotFound).atom(), Some("enoent"));
    assert_eq!(FailureKind::Io(IoKind::PermissionDenied).atom(), Some("eacces"));
    assert_eq!(FailureKind::Io(IoKind::BrokenPipe).atom(), Some("epipe"));
    assert_eq!(FailureKind::Io(IoKind::AlreadyExists).atom(), Some("eexist"));
    assert_eq!(FailureKind::Io(IoKind::Other).atom(), None);
}

#[test]
fn of_kind_has_no_message() {
    let failure = Failure::of_kind(FailureKind::Limits);
    assert_eq!(failure, Failure { kind: FailureKind::Limits, message: String::new() });
}

#[test]
fn of_io_keeps_the_text_of_other_errors_only() {
    let text = String::from("the disk is on fire");
    assert_eq!(
        Failure::of_io(IoKind::Other, text.clone()),
        Failure { kind: FailureKind::Io(IoKind::Other), message: text.clone() }
    );
    for kind in [IoKind::NotFound, IoKind::PermissionDenied, IoKind::BrokenPipe, IoKind::AlreadyExists] {
        assert_eq!(
            Failure::of_io(kind, text.clone()),
            Failure { kind: FailureKind::Io(kind), message: String::new() }
        );
    }
}

#[test]
fn io_errors_that_are_told_apart() {
    let cases = [
        (ErrorKind::NotFound, IoKind::NotFound),
        (ErrorKind::PermissionDenied, IoKind::PermissionDenied),
        (ErrorKind::BrokenPipe, IoKind::BrokenPipe),
        (ErrorKind::AlreadyExists, IoKind::AlreadyExists),
    ];
    for (outside, kind) in cases {
        let failure = Failure::from_io_error(&Error::new(outside, "ignored"));
        assert_eq!(failure, Failure { kind: FailureKind::Io(kind), message: String::new() });
    }
}

#[test]
fn other_io_errors_are_reported_by_their_text() {
    let kinds = [
        ErrorKind::UnexpectedEof,
        ErrorKind::InvalidData,
        ErrorKind::TimedOut,
        ErrorKind::Interrupted,
        ErrorKind::ConnectionRefused,
        ErrorKind::Other,
    ];
    for outside in kinds {
        let failure = Failure::from_io_error(&Error::new(outside, "the disk is on fire"));
        assert_eq!(failure.kind, FailureKind::Io(IoKind::Other));
        assert_eq!(failure.message, "the disk is on fire");
    }
}

#[test]
fn image_errors_by_variant() {
    let decoding = ImageError::Decoding(DecodingError::from_format_hint(ImageFormatHint::Unknown));
    assert_eq!(Failure::from_image_error(decoding), Failure::of_kind(FailureKind::Decoding));
    let encoding = ImageError::Encoding(EncodingError::from_format_hint(ImageFormatHint::Unknown));
    assert_eq!(Failure::from_image_error(encoding), Failure::of_kind(FailureKind::Encoding));
    let parameter = ImageError::Parameter(ParameterError::from_kind(ParameterErrorKind::DimensionMismatch));
    assert_eq!(Failure::from_image_error(parameter), Failure::of_kind(FailureKind::Parameter));
    let limits = ImageError::Limits(LimitError::from_kind(LimitErrorKind::DimensionError));
    assert_eq!(Failure::from_image_error(limits), Failure::of_kind(FailureKind::Limits));
    let unsupported = ImageError::Unsupported(UnsupportedError::from(ImageFormatHint::Unknown));
    assert_eq!(Failure::from_image_error(unsupported), Failure::of_kind(FailureKind::Unsupported));
}

#[test]
fn image_errors_that_wrap_io_errors() {
    let missing = ImageError::IoError(Error::from(ErrorKind::NotFound));
    assert_eq!(
        Failure::from_image_error(missing),
        Failure { kind: FailureKind::Io(IoKind::NotFound), message: String::new() }
    );
    let exists = ImageError::IoError(Error::from(ErrorKind::AlreadyExists));
    assert_eq!(Failure::from_image_error(exists).kind.atom(), Some("eexist"));
    let odd = ImageError::IoError(Error::new(ErrorKind::Other, "no space left"));
    assert_eq!(
        Failure::from_image_error(odd),
        Failure { kind: FailureKind::Io(IoKind::Other), message: String::from("no space left") }
    );
}
