//! A decoded image with the format it came in, and the operations on it.
//! Every operation leaves its input as it is and returns a new value.

use crate::bitmap::{
    addressable, bmp_fits, fit, fit_within, is_bmp_writable, lemma_area_fits,
    lemma_brighten_saturates, resize_refusal, rotation_of, Bitmap, ColorKind, Rotation, MAX_SIDE,
};
use crate::failure::{image_error_kind, io_error_kind, Failure, FailureKind};
use crate::format::{
    format_at, format_tag, has_png_signature, mime_for, mime_of, sniff_format, sniffed_format,
    tag_of, FormatTag,
};
use crate::raster::{
    bitmap_of, brighten_image, color_of, copy_image, crop_image, encoded, extent_of,
    flip_horizontal, flip_vertical, lemma_bitmap_of_wf, resample_image, turn_half, turn_quarter,
    turn_three_quarters, write_image,
};
use vstd::prelude::*;

verus! {

/// A decoded raster together with the container format it was read from.
/// Transforms replace the raster and keep the format.
#[derive(Debug)]
pub struct ImageResource {
    /// The decoded raster.
    pub image: image::DynamicImage,
    /// The format that the raster was decoded from and is encoded in.
    pub format: image::ImageFormat,
}

/// What a decoder's answer becomes: its raster is kept under the format it
/// was decoded as, its error is reported under its kind.
pub open spec fn load_outcome(
    format: image::ImageFormat,
    loaded: Result<image::DynamicImage, image::ImageError>,
    outcome: Result<ImageResource, Failure>,
) -> bool {
    match loaded {
        Ok(image) => outcome matches Ok(made) && made.image == image && made.format == format,
        Err(err) => outcome matches Err(failure) && failure.kind == image_error_kind(err)
            && failure.wf(),
    }
}

/// What decoding `bytes` with the decoder `load` gives when `format` is the
/// format that was detected for them: without a format the decoder is not
/// called and the bytes are refused as unsupported; with one, the decoder is
/// called once on the bytes and that format, and its answer decides.
pub open spec fn decode_outcome<F: FnOnce(&[u8], image::ImageFormat) -> Result<
    image::DynamicImage,
    image::ImageError,
>>(
    bytes: &[u8],
    format: Option<image::ImageFormat>,
    load: F,
    outcome: Result<ImageResource, Failure>,
) -> bool {
    match format {
        Some(known) => exists|loaded: Result<image::DynamicImage, image::ImageError>|
            call_ensures(load, (bytes, known), loaded) && load_outcome(known, loaded, outcome),
        None => outcome matches Err(failure) && failure.kind == FailureKind::Unsupported
            && failure.wf(),
    }
}

/// Whether a buffer for a raster of the given layout and size can be
/// addressed.
pub fn is_addressable(color: ColorKind, width: u32, height: u32) -> (fits: bool)
    ensures
        fits == addressable(color, width as int, height as int),
{
    let pixel_bytes: u8 = color.pixel_bytes();
    proof {
        lemma_area_fits(width, height);
        assert(0 <= (width * height) * pixel_bytes <= 0xFFFF_FFFE_0000_0001 * 8) by (nonlinear_arith)
            requires
                0 <= width * height <= 0xFFFF_FFFE_0000_0001,
                0 <= pixel_bytes <= 8,
        ;
    }
    let pixels: u64 = (width as u64) * (height as u64);
    let bytes: u128 = (pixels as u128) * (pixel_bytes as u128);
    bytes <= isize::MAX as u128
}

impl ImageResource {
    /// The model of the raster.
    pub open spec fn bitmap(&self) -> Bitmap {
        bitmap_of(self.image)
    }

    /// The row of the content-type table that the format falls in.
    pub open spec fn tag(&self) -> FormatTag {
        format_tag(self.format)
    }

    /// The model of every image is well formed.
    pub proof fn lemma_wf(self)
        ensures
            self.bitmap().wf(),
    {
        lemma_bitmap_of_wf(self.image);
    }

    /// An image of the given raster and format.
    pub fn new(image: image::DynamicImage, format: image::ImageFormat) -> (made: ImageResource)
        ensures
            made.image == image,
            made.format == format,
    {
        ImageResource { image, format }
    }

    /// The image that a decoder's answer stands for: its raster under the
    /// given format, or its error as a failure.
    pub fn from_loaded(
        format: image::ImageFormat,
        loaded: Result<image::DynamicImage, image::ImageError>,
    ) -> (outcome: Result<ImageResource, Failure>)
        ensures
            load_outcome(format, loaded, outcome),
    {
        match loaded {
            Ok(image) => Ok(ImageResource { image, format }),
            Err(err) => Err(Failure::from_image_error(err)),
        }
    }

    /// Decodes a buffer as the format that was detected for it, if any.
    ///
    /// The decoder is handed in by the caller, as a rule
    /// `image::load_from_memory_with_format`, and the caller answers for
    /// what happens where it does not return. The decoders of `image` 0.23
    /// panic on some malformed buffers, for one on a GIF whose first frame
    /// starts at the origin and is larger than its logical screen, and which
    /// buffers these are cannot be said without decoding them.
    pub fn decode_as<F>(bytes: &[u8], format: Option<image::ImageFormat>, load: F) -> (outcome:
        Result<ImageResource, Failure>) where
        F: FnOnce(&[u8], image::ImageFormat) -> Result<image::DynamicImage, image::ImageError>,

        requires
            forall|known: image::ImageFormat| call_requires(load, (bytes, known)),
        ensures
            decode_outcome(bytes, format, load, outcome),
    {
        match format {
            Some(known) => {
                let loaded = load(bytes, known);
                ImageResource::from_loaded(known, loaded)
            },
            None => Err(Failure::of_kind(FailureKind::Unsupported)),
        }
    }

    /// Decodes a buffer with the given decoder; the format is read off the
    /// leading bytes of the buffer. An empty buffer has no format; a buffer
    /// that starts with the PNG signature is decoded as PNG.
    pub fn decode<F>(bytes: &[u8], load: F) -> (outcome: Result<ImageResource, Failure>) where
        F: FnOnce(&[u8], image::ImageFormat) -> Result<image::DynamicImage, image::ImageError>,

        requires
            forall|known: image::ImageFormat| call_requires(load, (bytes, known)),
        ensures
            decode_outcome(bytes, sniffed_format(bytes@), load, outcome),
            bytes@.len() == 0 ==> sniffed_format(bytes@) is None,
            has_png_signature(bytes@) ==> (sniffed_format(bytes@) matches Some(found)
                && format_tag(found) == FormatTag::Png),
    {
        ImageResource::decode_as(bytes, sniff_format(bytes), load)
    }

    /// Decodes the file at `path` with the given decoder, given what reading
    /// the file gave. A failed read is reported under its I/O kind and the
    /// decoder is not called; otherwise the bytes are decoded as the format
    /// that the extension of the path stands for, if it stands for one.
    pub fn open<F>(path: &str, contents: Result<Vec<u8>, std::io::Error>, load: F) -> (outcome:
        Result<ImageResource, Failure>) where
        F: FnOnce(&[u8], image::ImageFormat) -> Result<image::DynamicImage, image::ImageError>,

        requires
            forall|bytes: &[u8], known: image::ImageFormat| call_requires(load, (bytes, known)),
        ensures
            match contents {
                Ok(data) => exists|bytes: &[u8], format: Option<image::ImageFormat>|
                    bytes@ == data@ && decode_outcome(bytes, format, load, outcome),
                Err(err) => outcome matches Err(failure) && failure.kind == FailureKind::Io(
                    io_error_kind(err),
                ) && failure.wf(),
            },
    {
        match contents {
            Ok(data) => ImageResource::decode_as(data.as_slice(), format_at(path), load),
            Err(err) => Err(Failure::from_io_error(&err)),
        }
    }

    /// Whether the image cannot be written in its format because it is BMP
    /// and the raster is too large for the 32-bit sizes of a BMP file.
    pub open spec fn over_bmp_size(&self) -> bool {
        self.tag() == FormatTag::Bmp && !bmp_fits(
            self.bitmap().color,
            self.bitmap().width,
            self.bitmap().height,
        )
    }

    /// Encodes the raster in the image's format. A raster too large for a
    /// BMP file is refused as a bad parameter before the encoder is called;
    /// in every other case the encoder decides. What is encoded as PNG
    /// starts with the PNG signature.
    pub fn encode(&self) -> (outcome: Result<Vec<u8>, Failure>)
        ensures
            match outcome {
                Ok(bytes) => !self.over_bmp_size() && encoded(self.image, self.format) == Ok::<
                    Seq<u8>,
                    FailureKind,
                >(bytes@) && (self.tag() == FormatTag::Png ==> has_png_signature(bytes@)),
                Err(failure) => failure.wf() && if self.over_bmp_size() {
                    failure.kind == FailureKind::Parameter
                } else {
                    encoded(self.image, self.format) == Err::<Seq<u8>, FailureKind>(failure.kind)
                },
            },
    {
        if let FormatTag::Bmp = tag_of(self.format) {
            let (width, height) = extent_of(&self.image);
            if !is_bmp_writable(color_of(&self.image), width, height) {
                return Err(Failure::of_kind(FailureKind::Parameter));
            }
        }
        match write_image(&self.image, self.format) {
            Ok(bytes) => Ok(bytes),
            Err(err) => Err(Failure::from_image_error(err)),
        }
    }

    /// The width and the height of the raster.
    pub fn dimensions(&self) -> (extent: (u32, u32))
        ensures
            extent.0 == self.bitmap().width,
            extent.1 == self.bitmap().height,
    {
        extent_of(&self.image)
    }

    /// The MIME content type of the image's format.
    pub fn content_type(&self) -> (mime: &'static str)
        ensures
            mime@ == mime_of(self.tag()),
    {
        mime_for(tag_of(self.format))
    }

    /// The image mirrored left to right.
    pub fn fliph(&self) -> (out: ImageResource)
        ensures
            out.format == self.format,
            out.bitmap() == self.bitmap().flip_h(),
    {
        let image = flip_horizontal(&self.image);
        proof {
            assert(bitmap_of(image).samples =~= self.bitmap().flip_h().samples);
        }
        ImageResource { image, format: self.format }
    }

    /// The image mirrored top to bottom.
    pub fn flipv(&self) -> (out: ImageResource)
        ensures
            out.format == self.format,
            out.bitmap() == self.bitmap().flip_v(),
    {
        let image = flip_vertical(&self.image);
        proof {
            assert(bitmap_of(image).samples =~= self.bitmap().flip_v().samples);
        }
        ImageResource { image, format: self.format }
    }

    /// The image turned clockwise by a quarter, a half or three quarters of
    /// a full turn.
    pub fn turn(&self, by: Rotation) -> (out: ImageResource)
        ensures
            out.format == self.format,
            out.bitmap() == self.bitmap().turn(by),
    {
        let image = match by {
            Rotation::Quarter => turn_quarter(&self.image),
            Rotation::Half => turn_half(&self.image),
            Rotation::ThreeQuarters => turn_three_quarters(&self.image),
        };
        proof {
            assert(bitmap_of(image).samples =~= self.bitmap().turn(by).samples);
        }
        ImageResource { image, format: self.format }
    }

    /// The image turned clockwise by 90, 180 or 270 degrees. Any other
    /// number of degrees gives the image as it is.
    pub fn rotate(&self, degrees: u32) -> (out: ImageResource)
        ensures
            out.format == self.format,
            out.bitmap() == self.bitmap().rotate(degrees),
            rotation_of(degrees) is None ==> out.image == self.image,
    {
        match Rotation::from_degrees(degrees) {
            Some(by) => self.turn(by),
            None => ImageResource { image: copy_image(&self.image), format: self.format },
        }
    }

    /// The part of the image in the rectangle with its top left corner at
    /// `(x, y)` and the given size, cut down to what lies inside the image.
    pub fn crop(&self, x: u32, y: u32, width: u32, height: u32) -> (out: ImageResource)
        ensures
            out.format == self.format,
            out.bitmap() == self.bitmap().crop(x as int, y as int, width as int, height as int),
    {
        let image = crop_image(&self.image, x, y, width, height);
        proof {
            let target = self.bitmap().crop(x as int, y as int, width as int, height as int);
            assert(bitmap_of(image).samples =~= target.samples);
        }
        ImageResource { image, format: self.format }
    }

    /// The image with `delta` added to every colour sample; a sum outside
    /// the range of a sample becomes the nearest end of the range.
    pub fn brighten(&self, delta: i32) -> (out: ImageResource)
        ensures
            out.format == self.format,
            out.bitmap() == self.bitmap().brighten(delta as int),
    {
        let bounded: i32 = if delta > 65535 {
            65535
        } else {
            delta
        };
        let image = brighten_image(&self.image, bounded);
        proof {
            lemma_brighten_saturates(self.bitmap(), delta as int);
            assert(bitmap_of(image).samples =~= self.bitmap().brighten(bounded as int).samples);
        }
        ImageResource { image, format: self.format }
    }

    /// The image resampled to exactly `width` by `height` with a triangle
    /// filter. An image without pixels is refused as a bad parameter; a side
    /// longer than `MAX_SIDE`, of the image or of the new size, and a size
    /// whose buffers could not be addressed are refused as over the limits.
    pub fn resize_exact(&self, width: u32, height: u32) -> (outcome: Result<
        ImageResource,
        Failure,
    >)
        ensures
            match outcome {
                Ok(out) => {
                    &&& resize_refusal(self.bitmap(), width as int, height as int) is None
                    &&& out.format == self.format
                    &&& out.bitmap() == self.bitmap().resize_exact(width as int, height as int)
                    &&& out.bitmap().width == width
                    &&& out.bitmap().height == height
                },
                Err(failure) => {
                    &&& resize_refusal(self.bitmap(), width as int, height as int) == Some(
                        failure.kind,
                    )
                    &&& failure.wf()
                },
            },
    {
        let (own_width, own_height) = extent_of(&self.image);
        let color = color_of(&self.image);
        if own_width == 0 || own_height == 0 {
            Err(Failure::of_kind(FailureKind::Parameter))
        } else if own_width > MAX_SIDE || own_height > MAX_SIDE || width > MAX_SIDE || height
            > MAX_SIDE {
            Err(Failure::of_kind(FailureKind::Limits))
        } else if !is_addressable(color, own_width, height) || !is_addressable(
            color,
            width,
            height,
        ) {
            Err(Failure::of_kind(FailureKind::Limits))
        } else {
            let image = resample_image(&self.image, width, height);
            proof {
                let target = self.bitmap().resize_exact(width as int, height as int);
                assert(bitmap_of(image).samples =~= target.samples);
            }
            Ok(ImageResource { image, format: self.format })
        }
    }

    /// The image resampled with a triangle filter to the largest size of its
    /// own aspect ratio that fits in `width` by `height`.
    pub fn resize(&self, width: u32, height: u32) -> (outcome: Result<ImageResource, Failure>)
        ensures
            match outcome {
                Ok(out) => {
                    let fit = fit_within(
                        self.bitmap().width,
                        self.bitmap().height,
                        width as int,
                        height as int,
                    );
                    &&& resize_refusal(self.bitmap(), fit.0, fit.1) is None
                    &&& out.format == self.format
                    &&& out.bitmap() == self.bitmap().resize_exact(fit.0, fit.1)
                },
                Err(failure) => {
                    let fit = fit_within(
                        self.bitmap().width,
                        self.bitmap().height,
                        width as int,
                        height as int,
                    );
                    &&& resize_refusal(self.bitmap(), fit.0, fit.1) == Some(failure.kind)
                    &&& failure.wf()
                },
            },
    {
        let (own_width, own_height) = extent_of(&self.image);
        if own_width == 0 || own_height == 0 {
            Err(Failure::of_kind(FailureKind::Parameter))
        } else {
            let (fit_width, fit_height) = fit(own_width, own_height, width, height);
            self.resize_exact(fit_width, fit_height)
        }
    }
}

} // verus!
