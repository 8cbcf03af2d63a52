//! Container formats: how one is detected, and the content type reported for
//! each.

use vstd::prelude::*;

verus! {

#[verifier::external_type_specification]
#[verifier::external_body]
pub struct ExImageFormat(image::ImageFormat);

/// The container formats that have a content type of their own, JPEG, and
/// `Other` for every remaining format.
#[derive(Clone, Copy, Debug, PartialEq, Eq, Structural)]
pub enum FormatTag {
    Png,
    Jpeg,
    Gif,
    Ico,
    Tiff,
    Bmp,
    Other,
}

/// Which row of the content-type table a container format falls in.
pub uninterp spec fn format_tag(format: image::ImageFormat) -> FormatTag;

/// The format that `image::guess_format` reads off the leading bytes of a
/// buffer, if it recognises them.
pub uninterp spec fn sniffed_format(bytes: Seq<u8>) -> Option<image::ImageFormat>;

/// Whether a buffer starts with the eight bytes that every PNG file starts
/// with.
pub open spec fn has_png_signature(bytes: Seq<u8>) -> bool {
    &&& bytes.len() >= 8
    &&& bytes[0] == 0x89
    &&& bytes[1] == 0x50
    &&& bytes[2] == 0x4e
    &&& bytes[3] == 0x47
    &&& bytes[4] == 0x0d
    &&& bytes[5] == 0x0a
    &&& bytes[6] == 0x1a
    &&& bytes[7] == 0x0a
}

/// The MIME content type of a format: PNG, GIF, ICO, TIFF and BMP have their
/// own, every other format is reported as JPEG.
pub open spec fn mime_of(tag: FormatTag) -> Seq<char> {
    match tag {
        FormatTag::Png => "image/png"@,
        FormatTag::Gif => "image/gif"@,
        FormatTag::Ico => "image/vnd.microsoft.icon"@,
        FormatTag::Tiff => "image/tiff"@,
        FormatTag::Bmp => "image/bmp"@,
        FormatTag::Jpeg | FormatTag::Other => "image/jpeg"@,
    }
}

/// The MIME content type of a format.
pub fn mime_for(tag: FormatTag) -> (mime: &'static str)
    ensures
        mime@ == mime_of(tag),
{
    match tag {
        FormatTag::Png => "image/png",
        FormatTag::Gif => "image/gif",
        FormatTag::Ico => "image/vnd.microsoft.icon",
        FormatTag::Tiff => "image/tiff",
        FormatTag::Bmp => "image/bmp",
        FormatTag::Jpeg | FormatTag::Other => "image/jpeg",
    }
}

/// Tells the variants of `image::ImageFormat` apart. Trusted: the result is
/// the row of the content-type table that the variant stands for.
#[verifier::external_body]
pub(crate) fn tag_of(format: image::ImageFormat) -> (tag: FormatTag)
    ensures
        tag == format_tag(format),
{
    match format {
        image::ImageFormat::Png => FormatTag::Png,
        image::ImageFormat::Jpeg => FormatTag::Jpeg,
        image::ImageFormat::Gif => FormatTag::Gif,
        image::ImageFormat::Ico => FormatTag::Ico,
        image::ImageFormat::Tiff => FormatTag::Tiff,
        image::ImageFormat::Bmp => FormatTag::Bmp,
        _ => FormatTag::Other,
    }
}

/// Calls `image::guess_format`, which compares the start of the buffer with a
/// table of signatures, row by row, and answers with the first that fits.
/// Trusted: the answer depends on the bytes alone; an empty buffer fits no
/// row and gives `None`; the first row is the PNG signature, so a buffer
/// that starts with it gives PNG.
#[verifier::external_body]
pub(crate) fn sniff_format(bytes: &[u8]) -> (found: Option<image::ImageFormat>)
    ensures
        found == sniffed_format(bytes@),
        match found {
            Some(format) => bytes@.len() > 0 && (has_png_signature(bytes@) ==> format_tag(format)
                == FormatTag::Png),
            None => !has_png_signature(bytes@),
        },
{
    image::guess_format(bytes).ok()
}

/// Calls `image::ImageFormat::from_path`, which looks the path's extension up
/// without touching the file system; a missing or unknown extension gives
/// `None`. Nothing is claimed of the answer: where the extension of a path
/// starts follows the platform's path syntax.
#[verifier::external_body]
pub(crate) fn format_at(path: &str) -> (format: Option<image::ImageFormat>) {
    image::ImageFormat::from_path(path).ok()
}

} // verus!
