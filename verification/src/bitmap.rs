//! The mathematical model of a raster: its colour layout, its size and its
//! samples, with the transforms stated sample by sample.

use vstd::prelude::*;

verus! {

/// How the samples of a pixel are laid out: which channels it has and how
/// many bits each sample takes.
#[derive(Clone, Copy, Debug, PartialEq, Eq, Structural)]
pub enum ColorKind {
    L8,
    La8,
    Rgb8,
    Rgba8,
    Bgr8,
    Bgra8,
    L16,
    La16,
    Rgb16,
    Rgba16,
}

impl ColorKind {
    /// The number of samples per pixel.
    pub open spec fn channels(self) -> int {
        match self {
            ColorKind::L8 | ColorKind::L16 => 1,
            ColorKind::La8 | ColorKind::La16 => 2,
            ColorKind::Rgb8 | ColorKind::Bgr8 | ColorKind::Rgb16 => 3,
            ColorKind::Rgba8 | ColorKind::Bgra8 | ColorKind::Rgba16 => 4,
        }
    }

    /// Whether the last sample of a pixel is its alpha value.
    pub open spec fn has_alpha(self) -> bool {
        match self {
            ColorKind::La8 | ColorKind::Rgba8 | ColorKind::Bgra8 | ColorKind::La16
            | ColorKind::Rgba16 => true,
            _ => false,
        }
    }

    /// The number of bytes that one sample takes in memory.
    pub open spec fn sample_bytes(self) -> int {
        match self {
            ColorKind::L16 | ColorKind::La16 | ColorKind::Rgb16 | ColorKind::Rgba16 => 2,
            _ => 1,
        }
    }

    /// The largest value a sample can take.
    pub open spec fn max_sample(self) -> int {
        if self.sample_bytes() == 1 {
            255
        } else {
            65535
        }
    }

    /// The number of bytes that one pixel takes in memory: the number of
    /// its samples times the bytes of a sample.
    pub open spec fn pixel_size(self) -> int {
        match self {
            ColorKind::L8 => 1,
            ColorKind::La8 | ColorKind::L16 => 2,
            ColorKind::Rgb8 | ColorKind::Bgr8 => 3,
            ColorKind::Rgba8 | ColorKind::Bgra8 | ColorKind::La16 => 4,
            ColorKind::Rgb16 => 6,
            ColorKind::Rgba16 => 8,
        }
    }

    /// The number of bytes that one pixel takes in memory.
    pub fn pixel_bytes(self) -> (bytes: u8)
        ensures
            bytes == self.pixel_size(),
            bytes == self.channels() * self.sample_bytes(),
    {
        match self {
            ColorKind::L8 => 1,
            ColorKind::La8 | ColorKind::L16 => 2,
            ColorKind::Rgb8 | ColorKind::Bgr8 => 3,
            ColorKind::Rgba8 | ColorKind::Bgra8 | ColorKind::La16 => 4,
            ColorKind::Rgb16 => 6,
            ColorKind::Rgba16 => 8,
        }
    }
}

/// A rotation by a multiple of a quarter turn, clockwise.
#[derive(Clone, Copy, Debug, PartialEq, Eq, Structural)]
pub enum Rotation {
    Quarter,
    Half,
    ThreeQuarters,
}

/// The rotation that a number of degrees asks for: 90, 180 and 270 are
/// rotations, every other number is none.
pub open spec fn rotation_of(degrees: u32) -> Option<Rotation> {
    if degrees == 90 {
        Some(Rotation::Quarter)
    } else if degrees == 180 {
        Some(Rotation::Half)
    } else if degrees == 270 {
        Some(Rotation::ThreeQuarters)
    } else {
        None
    }
}

impl Rotation {
    /// The rotation that a number of degrees asks for, if it is one.
    pub fn from_degrees(degrees: u32) -> (rotation: Option<Rotation>)
        ensures
            rotation == rotation_of(degrees),
    {
        if degrees == 90 {
            Some(Rotation::Quarter)
        } else if degrees == 180 {
            Some(Rotation::Half)
        } else if degrees == 270 {
            Some(Rotation::ThreeQuarters)
        } else {
            None
        }
    }
}

/// The positions `(x, y, channel)` of the samples of a raster of the given
/// size with the given number of samples per pixel.
pub open spec fn grid(width: int, height: int, channels: int) -> Set<(int, int, int)> {
    Set::new(|at: (int, int, int)| 0 <= at.0 < width && 0 <= at.1 < height && 0 <= at.2 < channels)
}

/// Whether a buffer for a raster of the given layout and size can be
/// addressed: its length in bytes does not exceed `isize::MAX`.
pub open spec fn addressable(color: ColorKind, width: int, height: int) -> bool {
    (width * height) * color.pixel_size() <= isize::MAX
}

/// Whether a raster of the given layout and size can be written as BMP
/// without any of the 32-bit sums of that format's header and rows running
/// over: a row fits, and the rows with their padding and the largest header
/// fit together. A layout that BMP does not take is turned down before any
/// sum is formed, so it fits at every size.
pub open spec fn bmp_fits(color: ColorKind, width: int, height: int) -> bool {
    match color {
        ColorKind::L8 | ColorKind::La8 | ColorKind::Rgb8 | ColorKind::Rgba8 => {
            &&& width * color.channels() <= u32::MAX
            &&& width * height * color.channels() + 3 * height + 1146 <= u32::MAX
        },
        _ => true,
    }
}

/// The smaller of two integers.
pub open spec fn least(a: int, b: int) -> int {
    if a <= b {
        a
    } else {
        b
    }
}

/// An integer, or one where it is less than one.
pub open spec fn at_least_one(a: int) -> int {
    if a < 1 {
        1
    } else {
        a
    }
}

/// The largest size with the aspect ratio of `width` by `height` that fits
/// in `max_width` by `max_height`: the side that binds is taken whole, the
/// other side is scaled by the same ratio, rounded down, and is at least one.
pub open spec fn fit_within(width: int, height: int, max_width: int, max_height: int) -> (
    int,
    int,
) {
    if max_width * height <= width * max_height {
        (max_width, at_least_one((height * max_width) / width))
    } else {
        (at_least_one((width * max_height) / height), max_height)
    }
}

/// The longest side, in pixels, that a raster may have to be resampled or
/// to come out of resampling: 2 to the power of 22. The sampler places
/// pixels in 32-bit floating point, which is exact enough only up to here.
pub const MAX_SIDE: u32 = 4_194_304;

/// Whether no side of the source and of the target is longer than
/// `MAX_SIDE`.
pub open spec fn within_reach(source: Bitmap, width: int, height: int) -> bool {
    &&& source.width <= MAX_SIDE
    &&& source.height <= MAX_SIDE
    &&& width <= MAX_SIDE
    &&& height <= MAX_SIDE
}

/// Why a raster cannot be resampled to `width` by `height`, if it cannot: a
/// raster without pixels has nothing to sample, which is a bad parameter;
/// otherwise no side of the raster and of the new size may be longer than
/// `MAX_SIDE`, and the two buffers that resampling fills, one of the raster's
/// width and the new height and one of the new size, must be addressable, or
/// the size is over the limits.
pub open spec fn resize_refusal(source: Bitmap, width: int, height: int) -> Option<
    crate::failure::FailureKind,
> {
    if source.is_empty() {
        Some(crate::failure::FailureKind::Parameter)
    } else if !within_reach(source, width, height) || !addressable(
        source.color,
        source.width,
        height,
    ) || !addressable(source.color, width, height) {
        Some(crate::failure::FailureKind::Limits)
    } else {
        None
    }
}

/// A sample shifted by `delta` and held within `0 ..= max`.
pub open spec fn shifted(sample: u16, delta: int, max: int) -> int {
    if sample + delta < 0 {
        0
    } else if sample + delta > max {
        max
    } else {
        sample + delta
    }
}

/// The samples that resampling a raster to `width` by `height` with the
/// triangle filter of `image::imageops::resize` gives.
pub uninterp spec fn resampled(source: Bitmap, width: int, height: int) -> Map<
    (int, int, int),
    u16,
>;

/// A raster as a mathematical value. The sample of channel `c` of the pixel
/// in column `x` of row `y` is `samples[(x, y, c)]`; rows count from the top,
/// columns from the left.
#[verifier::ext_equal]
pub struct Bitmap {
    pub color: ColorKind,
    pub width: int,
    pub height: int,
    pub samples: Map<(int, int, int), u16>,
}

impl Bitmap {
    /// The raster holds exactly the samples of its grid, and its sides fit
    /// in 32 bits.
    pub open spec fn wf(self) -> bool {
        &&& 0 <= self.width <= u32::MAX
        &&& 0 <= self.height <= u32::MAX
        &&& self.samples.dom() == grid(self.width, self.height, self.color.channels())
    }

    /// Whether the raster has no pixel.
    pub open spec fn is_empty(self) -> bool {
        self.width <= 0 || self.height <= 0
    }

    /// The raster of the given size whose pixel at `(x, y)` is the pixel of
    /// `self` at `source(x, y)`.
    pub open spec fn pick(
        self,
        width: int,
        height: int,
        source: spec_fn(int, int) -> (int, int),
    ) -> Bitmap {
        Bitmap {
            color: self.color,
            width,
            height,
            samples: Map::new(
                |at: (int, int, int)| grid(width, height, self.color.channels()).contains(at),
                |at: (int, int, int)| self.samples[(source(at.0, at.1).0, source(at.0, at.1).1, at.2)],
            ),
        }
    }

    /// The raster mirrored left to right.
    pub open spec fn flip_h(self) -> Bitmap {
        self.pick(self.width, self.height, |x: int, y: int| (self.width - 1 - x, y))
    }

    /// The raster mirrored top to bottom.
    pub open spec fn flip_v(self) -> Bitmap {
        self.pick(self.width, self.height, |x: int, y: int| (x, self.height - 1 - y))
    }

    /// The raster turned clockwise: by a quarter turn the left column
    /// becomes the top row, read from the bottom up.
    pub open spec fn turn(self, by: Rotation) -> Bitmap {
        match by {
            Rotation::Quarter => self.pick(
                self.height,
                self.width,
                |x: int, y: int| (y, self.height - 1 - x),
            ),
            Rotation::Half => self.pick(
                self.width,
                self.height,
                |x: int, y: int| (self.width - 1 - x, self.height - 1 - y),
            ),
            Rotation::ThreeQuarters => self.pick(
                self.height,
                self.width,
                |x: int, y: int| (self.width - 1 - y, x),
            ),
        }
    }

    /// The raster turned by a number of degrees: by 90, 180 or 270 degrees
    /// clockwise, and not at all for any other number.
    pub open spec fn rotate(self, degrees: u32) -> Bitmap {
        match rotation_of(degrees) {
            Some(by) => self.turn(by),
            None => self,
        }
    }

    /// The part of the raster that lies in the rectangle with its top left
    /// corner at `(x, y)` and the given size. The corner is first moved into
    /// the raster, then the size is cut down to what is left of the raster
    /// to the right of the corner and below it.
    pub open spec fn crop(self, x: int, y: int, width: int, height: int) -> Bitmap {
        let left = least(x, self.width);
        let top = least(y, self.height);
        self.pick(
            least(width, self.width - left),
            least(height, self.height - top),
            |i: int, j: int| (left + i, top + j),
        )
    }

    /// The raster with `delta` added to every colour sample, held within
    /// the range of a sample; alpha samples stay as they are.
    pub open spec fn brighten(self, delta: int) -> Bitmap {
        Bitmap {
            color: self.color,
            width: self.width,
            height: self.height,
            samples: Map::new(
                |at: (int, int, int)|
                    grid(self.width, self.height, self.color.channels()).contains(at),
                |at: (int, int, int)|
                    if self.color.has_alpha() && at.2 == self.color.channels() - 1 {
                        self.samples[at]
                    } else {
                        shifted(self.samples[at], delta, self.color.max_sample()) as u16
                    },
            ),
        }
    }

    /// The raster resampled to exactly `width` by `height`.
    pub open spec fn resize_exact(self, width: int, height: int) -> Bitmap {
        Bitmap {
            color: self.color,
            width,
            height,
            samples: Map::new(
                |at: (int, int, int)| grid(width, height, self.color.channels()).contains(at),
                |at: (int, int, int)| resampled(self, width, height)[at],
            ),
        }
    }
}

/// Whether a raster of the given layout and size can be written as BMP.
pub fn is_bmp_writable(color: ColorKind, width: u32, height: u32) -> (fits: bool)
    ensures
        fits == bmp_fits(color, width as int, height as int),
{
    let channels: u64 = match color {
        ColorKind::L8 => 1,
        ColorKind::La8 => 2,
        ColorKind::Rgb8 => 3,
        ColorKind::Rgba8 => 4,
        _ => {
            return true;
        },
    };
    proof {
        lemma_area_fits(width, height);
        assert(0 <= (width * height) * channels <= 0xFFFF_FFFE_0000_0001 * 4) by (nonlinear_arith)
            requires
                0 <= width * height <= 0xFFFF_FFFE_0000_0001,
                0 <= channels <= 4,
        ;
        assert(width * height * color.channels() == (width * height) * channels);
    }
    let row: u64 = (width as u64) * channels;
    let area: u64 = (width as u64) * (height as u64);
    let body: u128 = (area as u128) * (channels as u128);
    let total: u128 = body + 3 * (height as u128) + 1146;
    row <= 0xFFFF_FFFF && total <= 0xFFFF_FFFF
}

/// The size to which a raster of `width` by `height` is scaled to fit in
/// `max_width` by `max_height`.
pub(crate) fn fit(width: u32, height: u32, max_width: u32, max_height: u32) -> (size: (u32, u32))
    requires
        width > 0,
        height > 0,
    ensures
        size.0 == fit_within(width as int, height as int, max_width as int, max_height as int).0,
        size.1 == fit_within(width as int, height as int, max_width as int, max_height as int).1,
{
    proof {
        lemma_area_fits(max_width, height);
        lemma_area_fits(width, max_height);
    }
    let across: u64 = (max_width as u64) * (height as u64);
    let down: u64 = (width as u64) * (max_height as u64);
    if across <= down {
        let scaled: u64 = across / (width as u64);
        proof {
            lemma_quotient_bounded(across as int, width as int, max_height as int);
        }
        (max_width, if scaled < 1 { 1 } else { scaled as u32 })
    } else {
        let scaled: u64 = down / (height as u64);
        proof {
            lemma_quotient_bounded(down as int, height as int, max_width as int);
        }
        (if scaled < 1 { 1 } else { scaled as u32 }, max_height)
    }
}

/// The product of two 32-bit numbers fits in 64 bits.
pub proof fn lemma_area_fits(a: u32, b: u32)
    ensures
        0 <= a * b <= 0xFFFF_FFFE_0000_0001,
{
    assert(0 <= a * b <= 0xFFFF_FFFF * 0xFFFF_FFFF) by (nonlinear_arith)
        requires
            0 <= a <= 0xFFFF_FFFF,
            0 <= b <= 0xFFFF_FFFF,
    ;
}

/// A quotient is no more than a bound whose product with the divisor is no
/// less than the dividend.
proof fn lemma_quotient_bounded(total: int, by: int, bound: int)
    requires
        0 <= total <= by * bound,
        by > 0,
    ensures
        0 <= total / by <= bound,
{
    assert(0 <= total / by <= bound) by (nonlinear_arith)
        requires
            0 <= total <= by * bound,
            by > 0,
    ;
}

/// Brightening by more than the largest sample saturates every colour
/// sample, as brightening by exactly the largest 16-bit sample does.
pub proof fn lemma_brighten_saturates(source: Bitmap, delta: int)
    ensures
        source.brighten(delta) == source.brighten(if delta > 65535 { 65535 } else { delta }),
{
    let bounded = if delta > 65535 { 65535 } else { delta };
    assert(source.brighten(delta).samples =~= source.brighten(bounded).samples);
}

/// Mirroring a raster left to right twice gives the raster back, sample for
/// sample.
pub proof fn lemma_flip_h_involution(source: Bitmap)
    requires
        source.wf(),
    ensures
        source.flip_h().flip_h() == source,
{
    assert(source.flip_h().flip_h().samples =~= source.samples);
}

/// Mirroring a raster top to bottom twice gives the raster back, sample for
/// sample.
pub proof fn lemma_flip_v_involution(source: Bitmap)
    requires
        source.wf(),
    ensures
        source.flip_v().flip_v() == source,
{
    assert(source.flip_v().flip_v().samples =~= source.samples);
}

/// Turning by a number of degrees other than 90, 180 and 270 leaves the
/// raster as it is.
pub proof fn lemma_rotate_other_degrees(source: Bitmap, degrees: u32)
    requires
        degrees != 90,
        degrees != 180,
        degrees != 270,
    ensures
        source.rotate(degrees) == source,
{
}

/// A raster resampled to a size has exactly that size, and keeps its colour
/// layout.
pub proof fn lemma_resize_exact_size(source: Bitmap, width: u32, height: u32)
    ensures
        source.resize_exact(width as int, height as int).width == width,
        source.resize_exact(width as int, height as int).height == height,
        source.resize_exact(width as int, height as int).color == source.color,
        source.resize_exact(width as int, height as int).wf(),
{
    let out = source.resize_exact(width as int, height as int);
    assert(out.samples.dom() =~= grid(out.width, out.height, out.color.channels()));
}

/// A crop from the top left corner is as wide as asked for or as the raster,
/// whichever is less, and as high as asked for or as the raster, whichever
/// is less; it holds the raster's samples at the same positions.
pub proof fn lemma_crop_from_origin(source: Bitmap, width: u32, height: u32)
    requires
        source.wf(),
    ensures
        source.crop(0, 0, width as int, height as int).width == least(width as int, source.width),
        source.crop(0, 0, width as int, height as int).height == least(
            height as int,
            source.height,
        ),
        forall|at: (int, int, int)| #[trigger]
            source.crop(0, 0, width as int, height as int).samples.dom().contains(at)
                ==> source.crop(0, 0, width as int, height as int).samples[at]
                == source.samples[at],
{
}

/// A crop never reaches outside the raster: it is no larger than asked for
/// and no larger than what lies to the right of its corner and below it.
pub proof fn lemma_crop_within(source: Bitmap, x: u32, y: u32, width: u32, height: u32)
    requires
        source.wf(),
    ensures
        0 <= source.crop(x as int, y as int, width as int, height as int).width <= least(
            width as int,
            source.width,
        ),
        0 <= source.crop(x as int, y as int, width as int, height as int).height <= least(
            height as int,
            source.height,
        ),
        source.crop(x as int, y as int, width as int, height as int).wf(),
{
    let out = source.crop(x as int, y as int, width as int, height as int);
    assert(out.samples.dom() =~= grid(out.width, out.height, out.color.channels()));
}

/// The size fitted into a box of at least one by one lies in the box, fills
/// it along one side, and has no side of length zero.
pub proof fn lemma_fit_within_box(width: u32, height: u32, max_width: u32, max_height: u32)
    requires
        width > 0,
        height > 0,
        max_width > 0,
        max_height > 0,
    ensures
        1 <= fit_within(width as int, height as int, max_width as int, max_height as int).0
            <= max_width,
        1 <= fit_within(width as int, height as int, max_width as int, max_height as int).1
            <= max_height,
        fit_within(width as int, height as int, max_width as int, max_height as int).0
            == max_width || fit_within(
            width as int,
            height as int,
            max_width as int,
            max_height as int,
        ).1 == max_height,
{
    assert(height * max_width == max_width * height) by (nonlinear_arith);
    assert(max_height * width == width * max_height) by (nonlinear_arith);
    if max_width * height <= width * max_height {
        lemma_quotient_bounded(height * max_width, width as int, max_height as int);
    } else {
        lemma_quotient_bounded(width * max_height, height as int, max_width as int);
    }
}

} // verus!
