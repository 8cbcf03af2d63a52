//! The decoded raster of the `image` crate, seen through the model of
//! `bitmap`, and the calls into that crate.

use crate::bitmap::{
    addressable, bmp_fits, grid, least, resampled, shifted, within_reach, Bitmap, ColorKind,
};
use crate::failure::{image_error_kind, FailureKind};
use crate::format::{format_tag, has_png_signature, FormatTag};
use vstd::prelude::*;

verus! {

#[verifier::external_type_specification]
#[verifier::external_body]
pub struct ExDynamicImage(image::DynamicImage);

/// The samples that a raster holds: `image_samples(img)[(x, y, c)]` is
/// channel `c` of the pixel in column `x` of row `y`, an 8-bit sample taken
/// as the same number in 16 bits.
pub uninterp spec fn image_samples(img: image::DynamicImage) -> Map<(int, int, int), u16>;

/// The width and the height of a raster.
pub uninterp spec fn image_extent(img: image::DynamicImage) -> (u32, u32);

/// The colour layout of a raster.
pub uninterp spec fn image_color(img: image::DynamicImage) -> ColorKind;

/// What encoding a raster in the given format gives: the bytes, or the kind
/// of the encoder's error.
pub uninterp spec fn encoded(img: image::DynamicImage, format: image::ImageFormat) -> Result<
    Seq<u8>,
    FailureKind,
>;

/// The model of a raster: its colour layout, its size, and its samples on
/// the grid of that size.
pub open spec fn bitmap_of(img: image::DynamicImage) -> Bitmap {
    Bitmap {
        color: image_color(img),
        width: image_extent(img).0 as int,
        height: image_extent(img).1 as int,
        samples: Map::new(
            |at: (int, int, int)| holds(img, at),
            |at: (int, int, int)| image_samples(img)[at],
        ),
    }
}

/// Whether a position lies on the grid of a raster.
pub open spec fn holds(img: image::DynamicImage, at: (int, int, int)) -> bool {
    grid(
        image_extent(img).0 as int,
        image_extent(img).1 as int,
        image_color(img).channels(),
    ).contains(at)
}

/// The model of every raster is well formed.
pub proof fn lemma_bitmap_of_wf(img: image::DynamicImage)
    ensures
        bitmap_of(img).wf(),
{
    let b = bitmap_of(img);
    assert(b.samples.dom() =~= grid(b.width, b.height, b.color.channels()));
}

/// Calls `GenericImageView::dimensions` of a `DynamicImage`. Trusted: the
/// pair is the raster's width and height.
#[verifier::external_body]
pub(crate) fn extent_of(img: &image::DynamicImage) -> (extent: (u32, u32))
    ensures
        extent == image_extent(*img),
{
    image::GenericImageView::dimensions(img)
}

/// Tells the variants of `image::DynamicImage` apart. Trusted: the result is
/// the colour layout of the buffer that the variant holds.
#[verifier::external_body]
pub(crate) fn color_of(img: &image::DynamicImage) -> (color: ColorKind)
    ensures
        color == image_color(*img),
{
    match img {
        image::DynamicImage::ImageLuma8(_) => ColorKind::L8,
        image::DynamicImage::ImageLumaA8(_) => ColorKind::La8,
        image::DynamicImage::ImageRgb8(_) => ColorKind::Rgb8,
        image::DynamicImage::ImageRgba8(_) => ColorKind::Rgba8,
        image::DynamicImage::ImageBgr8(_) => ColorKind::Bgr8,
        image::DynamicImage::ImageBgra8(_) => ColorKind::Bgra8,
        image::DynamicImage::ImageLuma16(_) => ColorKind::L16,
        image::DynamicImage::ImageLumaA16(_) => ColorKind::La16,
        image::DynamicImage::ImageRgb16(_) => ColorKind::Rgb16,
        image::DynamicImage::ImageRgba16(_) => ColorKind::Rgba16,
    }
}

/// Calls `Clone::clone` of a `DynamicImage`. Trusted: the copy is the same
/// raster.
#[verifier::external_body]
pub(crate) fn copy_image(img: &image::DynamicImage) -> (out: image::DynamicImage)
    ensures
        out == *img,
{
    img.clone()
}

/// Calls `DynamicImage::write_to` on an empty vector. Trusted: the outcome
/// depends on the raster and the format alone; on success the vector holds
/// what the encoder wrote, and what the PNG encoder writes first is the PNG
/// signature. The BMP encoder forms the length of a row, the padding of all
/// rows and the length of the file in unchecked 32-bit arithmetic, so for BMP
/// the raster must be one for which these fit.
#[verifier::external_body]
pub(crate) fn write_image(img: &image::DynamicImage, format: image::ImageFormat) -> (written:
    Result<Vec<u8>, image::ImageError>)
    requires
        format_tag(format) == FormatTag::Bmp ==> bmp_fits(
            image_color(*img),
            image_extent(*img).0 as int,
            image_extent(*img).1 as int,
        ),
    ensures
        match written {
            Ok(bytes) => encoded(*img, format) == Ok::<Seq<u8>, FailureKind>(bytes@) && (
            format_tag(format) == FormatTag::Png ==> has_png_signature(bytes@)),
            Err(err) => encoded(*img, format) == Err::<Seq<u8>, FailureKind>(
                image_error_kind(err),
            ),
        },
{
    let mut bytes: Vec<u8> = Vec::new();
    img.write_to(&mut bytes, format).map(|_| bytes)
}

/// Calls `DynamicImage::fliph`. Trusted: the result has the same layout and
/// size, and its pixel in column `x` is the source's pixel of the same row in
/// column `width - 1 - x`.
#[verifier::external_body]
pub(crate) fn flip_horizontal(img: &image::DynamicImage) -> (out: image::DynamicImage)
    ensures
        image_color(out) == image_color(*img),
        image_extent(out) == image_extent(*img),
        forall|at: (int, int, int)|
            holds(out, at) ==> #[trigger] image_samples(out)[at] == image_samples(*img)[(
                image_extent(*img).0 - 1 - at.0,
                at.1,
                at.2,
            )],
{
    img.fliph()
}

/// Calls `DynamicImage::flipv`. Trusted: the result has the same layout and
/// size, and its pixel in row `y` is the source's pixel of the same column in
/// row `height - 1 - y`.
#[verifier::external_body]
pub(crate) fn flip_vertical(img: &image::DynamicImage) -> (out: image::DynamicImage)
    ensures
        image_color(out) == image_color(*img),
        image_extent(out) == image_extent(*img),
        forall|at: (int, int, int)|
            holds(out, at) ==> #[trigger] image_samples(out)[at] == image_samples(*img)[(
                at.0,
                image_extent(*img).1 - 1 - at.1,
                at.2,
            )],
{
    img.flipv()
}

/// Calls `DynamicImage::rotate90`. Trusted: the result has the same layout,
/// the source's height as its width and the source's width as its height,
/// and its pixel at `(x, y)` is the source's pixel at `(y, height - 1 - x)`.
#[verifier::external_body]
pub(crate) fn turn_quarter(img: &image::DynamicImage) -> (out: image::DynamicImage)
    ensures
        image_color(out) == image_color(*img),
        image_extent(out) == (image_extent(*img).1, image_extent(*img).0),
        forall|at: (int, int, int)|
            holds(out, at) ==> #[trigger] image_samples(out)[at] == image_samples(*img)[(
                at.1,
                image_extent(*img).1 - 1 - at.0,
                at.2,
            )],
{
    img.rotate90()
}

/// Calls `DynamicImage::rotate180`. Trusted: the result has the same layout
/// and size, and its pixel at `(x, y)` is the source's pixel at
/// `(width - 1 - x, height - 1 - y)`.
#[verifier::external_body]
pub(crate) fn turn_half(img: &image::DynamicImage) -> (out: image::DynamicImage)
    ensures
        image_color(out) == image_color(*img),
        image_extent(out) == image_extent(*img),
        forall|at: (int, int, int)|
            holds(out, at) ==> #[trigger] image_samples(out)[at] == image_samples(*img)[(
                image_extent(*img).0 - 1 - at.0,
                image_extent(*img).1 - 1 - at.1,
                at.2,
            )],
{
    img.rotate180()
}

/// Calls `DynamicImage::rotate270`. Trusted: the result has the same layout,
/// the source's height as its width and the source's width as its height,
/// and its pixel at `(x, y)` is the source's pixel at `(width - 1 - y, x)`.
#[verifier::external_body]
pub(crate) fn turn_three_quarters(img: &image::DynamicImage) -> (out: image::DynamicImage)
    ensures
        image_color(out) == image_color(*img),
        image_extent(out) == (image_extent(*img).1, image_extent(*img).0),
        forall|at: (int, int, int)|
            holds(out, at) ==> #[trigger] image_samples(out)[at] == image_samples(*img)[(
                image_extent(*img).0 - 1 - at.1,
                at.0,
                at.2,
            )],
{
    img.rotate270()
}

/// Calls `DynamicImage::crop_imm`. Trusted: the corner is first clamped to
/// the source's size, the size asked for then to what is left of the source
/// beyond the corner; the result has the same layout and that size, and its
/// pixel at `(x, y)` is the source's pixel that far from the corner.
#[verifier::external_body]
pub(crate) fn crop_image(img: &image::DynamicImage, x: u32, y: u32, width: u32, height: u32) -> (out:
    image::DynamicImage)
    ensures
        image_color(out) == image_color(*img),
        image_extent(out).0 == least(
            width as int,
            image_extent(*img).0 - least(x as int, image_extent(*img).0 as int),
        ),
        image_extent(out).1 == least(
            height as int,
            image_extent(*img).1 - least(y as int, image_extent(*img).1 as int),
        ),
        forall|at: (int, int, int)|
            holds(out, at) ==> #[trigger] image_samples(out)[at] == image_samples(*img)[(
                least(x as int, image_extent(*img).0 as int) + at.0,
                least(y as int, image_extent(*img).1 as int) + at.1,
                at.2,
            )],
{
    img.crop_imm(x, y, width, height)
}

/// Calls `DynamicImage::brighten`, which adds `delta` to every colour sample
/// in 32-bit arithmetic and clamps the sum to the range of a sample. Trusted:
/// the result has the same layout and size, its colour samples are those
/// clamped sums and its alpha samples the source's. The sum must not
/// overflow.
#[verifier::external_body]
pub(crate) fn brighten_image(img: &image::DynamicImage, delta: i32) -> (out: image::DynamicImage)
    requires
        delta + image_color(*img).max_sample() <= i32::MAX,
    ensures
        image_color(out) == image_color(*img),
        image_extent(out) == image_extent(*img),
        forall|at: (int, int, int)|
            holds(out, at) ==> #[trigger] image_samples(out)[at] == (if image_color(
                *img,
            ).has_alpha() && at.2 == image_color(*img).channels() - 1 {
                image_samples(*img)[at] as int
            } else {
                shifted(image_samples(*img)[at], delta as int, image_color(*img).max_sample())
            }),
{
    img.brighten(delta)
}

/// Calls `DynamicImage::resize_exact` with the triangle filter. Trusted: the
/// result has the same layout and the size asked for, and its samples depend
/// on the source raster and that size alone.
///
/// The call divides by the sum of the weights of the source pixels in a
/// window round the centre of each target pixel, and fails where that sum is
/// zero. So the source must have a pixel to sample, and no side of source
/// and target may be longer than `MAX_SIDE`: the centre is computed in
/// 32-bit floating point as the product of a half-integer below 2^23, which
/// is exact, and a rounded quotient, so it is off by less than the source's
/// side times 2^-23, which up to `MAX_SIDE` is no more than the half source
/// pixel by which the outermost centre lies inside the raster. The source
/// pixel nearest the computed centre then lies in the window, little more
/// than half a pixel from the centre, and has a positive triangle weight.
///
/// The two buffers that the call allocates, one of the source's width and
/// the new height and one of the new size, must be addressable; that the
/// allocator has the memory for them is taken for granted, as it is of every
/// allocation.
#[verifier::external_body]
pub(crate) fn resample_image(img: &image::DynamicImage, width: u32, height: u32) -> (out:
    image::DynamicImage)
    requires
        !bitmap_of(*img).is_empty(),
        within_reach(bitmap_of(*img), width as int, height as int),
        addressable(image_color(*img), image_extent(*img).0 as int, height as int),
        addressable(image_color(*img), width as int, height as int),
    ensures
        image_color(out) == image_color(*img),
        image_extent(out) == (width, height),
        forall|at: (int, int, int)|
            holds(out, at) ==> #[trigger] image_samples(out)[at] == resampled(
                bitmap_of(*img),
                width as int,
                height as int,
            )[at],
{
    img.resize_exact(width, height, image::imageops::FilterType::Triangle)
}

} // verus!
