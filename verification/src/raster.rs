//! A decoded image: rows of 8-bit RGBA colours.

use vstd::prelude::*;
use image::imageops::FilterType;
use image::{ImageBuffer, Rgba};

verus! {

/// Alpha of a fully opaque colour.
pub const OPAQUE: u8 = 0xff;

/// Bytes per colour in a raster's buffer.
pub const CHANNELS: usize = 4;

/// A colour with its alpha.
#[derive(Clone, Copy, Debug, PartialEq, Eq, Structural)]
pub struct Color {
    pub r: u8,
    pub g: u8,
    pub b: u8,
    pub a: u8,
}

/// What a raster holds: its size and its colours row by row, the top row first
/// and each row from left to right.
pub struct RasterView {
    pub width: nat,
    pub height: nat,
    pub colors: Seq<Color>,
}

impl RasterView {
    /// There is one colour for each position.
    pub open spec fn wf(self) -> bool {
        self.colors.len() == self.width * self.height
    }
}

/// The colour whose four channels start at byte `4 * i` of `data`.
pub open spec fn color_at(data: Seq<u8>, i: int) -> Color {
    Color { r: data[4 * i], g: data[4 * i + 1], b: data[4 * i + 2], a: data[4 * i + 3] }
}

/// The colours that a buffer of RGBA bytes holds.
pub open spec fn colors_of(data: Seq<u8>) -> Seq<Color> {
    Seq::new((data.len() / 4) as nat, |i: int| color_at(data, i))
}

/// What `image::imageops::huerotate` makes of an image and an angle in degrees.
pub uninterp spec fn hue_turned(image: RasterView, degrees: i32) -> RasterView;

/// What `image::imageops::resize` with the Gaussian filter makes of an image
/// and a size.
pub uninterp spec fn resized(image: RasterView, width: u32, height: u32) -> RasterView;

/// Longest side that can be resized from or to: up to here 32-bit floating
/// point, in which the samples are placed, holds every column and row exactly.
pub const MAX_RESIZE_SIDE: u32 = 0x100_0000;

/// Whether an image of `from_width` by `from_height` can be resized to `width`
/// by `height`: no side is longer than `MAX_RESIZE_SIDE`, and both the
/// intermediate image, of `from_width` by `height` colours of four 32-bit
/// floats, and the result fit in memory that can be addressed.
pub open spec fn resizable(from_width: nat, from_height: nat, width: u32, height: u32) -> bool {
    &&& from_width <= MAX_RESIZE_SIDE
    &&& from_height <= MAX_RESIZE_SIDE
    &&& width <= MAX_RESIZE_SIDE
    &&& height <= MAX_RESIZE_SIDE
    &&& 16 * (from_width * height) <= isize::MAX
    &&& 4 * (width * height) <= isize::MAX
}

/// An image of the size of `image` with the alpha of `image` at every position.
pub open spec fn same_frame(turned: RasterView, image: RasterView) -> bool {
    &&& turned.wf()
    &&& turned.width == image.width
    &&& turned.height == image.height
    &&& forall|i: int|
        0 <= i < image.colors.len() ==> (#[trigger] turned.colors[i]).a == image.colors[i].a
}

/// An image of `width` by `height` colours.
pub struct Raster {
    width: u32,
    height: u32,
    data: Vec<u8>,
}

impl View for Raster {
    type V = RasterView;

    closed spec fn view(&self) -> RasterView {
        RasterView {
            width: self.width as nat,
            height: self.height as nat,
            colors: colors_of(self.data@),
        }
    }
}

impl Raster {
    /// The buffer holds four bytes for each position.
    #[verifier::type_invariant]
    spec fn inv(&self) -> bool {
        &&& self.data@.len() == 4 * (self.width as nat * self.height as nat)
        &&& self.data@.len() <= usize::MAX
    }

    /// An image over a buffer of RGBA bytes, row by row. `None` unless the
    /// buffer holds exactly four bytes for each of the `width * height`
    /// positions.
    pub fn new(width: u32, height: u32, data: Vec<u8>) -> (raster: Option<Raster>)
        ensures
            raster is Some <==> data@.len() == 4 * (width as nat * height as nat),
            raster matches Some(r) ==> r@.width == width && r@.height == height && r@.colors
                == colors_of(data@) && r@.wf(),
    {
        assert(width as nat * height as nat <= 0xffff_ffff * 0xffff_ffff) by (nonlinear_arith)
            requires
                width <= 0xffff_ffff,
                height <= 0xffff_ffff,
        ;
        let needed: u128 = 4 * ((width as u128) * (height as u128));
        if data.len() as u128 == needed {
            Some(Raster { width, height, data })
        } else {
            None
        }
    }

    /// Number of columns.
    pub fn width(&self) -> (width: u32)
        ensures
            width == self@.width,
    {
        self.width
    }

    /// Number of rows.
    pub fn height(&self) -> (height: u32)
        ensures
            height == self@.height,
    {
        self.height
    }

    /// Number of positions.
    pub fn len(&self) -> (len: usize)
        ensures
            len == self@.colors.len(),
            self@.wf(),
    {
        proof {
            use_type_invariant(self);
        }
        self.data.len() / CHANNELS
    }

    /// The colour at position `i`, counted row by row.
    pub fn color(&self, i: usize) -> (color: Color)
        requires
            i < self@.colors.len(),
        ensures
            color == self@.colors[i as int],
    {
        proof {
            use_type_invariant(self);
            assert(self@.colors.len() == self.data@.len() / 4);
        }
        Color {
            r: self.data[4 * i],
            g: self.data[4 * i + 1],
            b: self.data[4 * i + 2],
            a: self.data[4 * i + 3],
        }
    }

    /// `image::imageops::huerotate` on this image as an `ImageBuffer` of
    /// `Rgba<u8>` over its bytes: a new image in which the hue of every colour
    /// is turned by `degrees`. It multiplies red, green and blue of each colour
    /// by a matrix that it computes from the angle in floating point, and
    /// clamps and truncates what comes out: that is `hue_turned`. The size
    /// stays, and alpha passes through unchanged. The buffer holds four bytes
    /// for each position, so `ImageBuffer::from_raw` accepts it.
    #[verifier::external_body]
    pub(crate) fn huerotate(&self, degrees: i32) -> (turned: Raster)
        ensures
            turned@ == hue_turned(self@, degrees),
            same_frame(turned@, self@),
    {
        let source: ImageBuffer<Rgba<u8>, &[u8]> =
            ImageBuffer::from_raw(self.width, self.height, self.data.as_slice()).unwrap();
        let turned = image::imageops::huerotate(&source, degrees);
        Raster { width: self.width, height: self.height, data: turned.into_raw() }
    }

    /// `image::imageops::resize` with `FilterType::Gaussian` on this image as
    /// an `ImageBuffer` of `Rgba<u8>` over its bytes: a new image of `width` by
    /// `height`, each colour a weighted mean, computed in 32-bit floating
    /// point, of the colours around the place it is sampled from: that is
    /// `resized`. The sizes are bounded so that no buffer outgrows a vector
    /// and every weight is a number.
    #[verifier::external_body]
    fn resize_gaussian(&self, width: u32, height: u32) -> (scaled: Raster)
        requires
            resizable(self@.width, self@.height, width, height),
        ensures
            scaled@ == resized(self@, width, height),
            scaled@.width == width,
            scaled@.height == height,
            scaled@.wf(),
    {
        let source: ImageBuffer<Rgba<u8>, &[u8]> =
            ImageBuffer::from_raw(self.width, self.height, self.data.as_slice()).unwrap();
        let scaled = image::imageops::resize(&source, width, height, FilterType::Gaussian);
        Raster { width, height, data: scaled.into_raw() }
    }

    /// This image resized to exactly `width` by `height`, without regard to
    /// its proportions. `None` where the sizes are beyond what can be resized.
    pub fn resize_exact(&self, width: u32, height: u32) -> (scaled: Option<Raster>)
        ensures
            scaled is Some <==> resizable(self@.width, self@.height, width, height),
            scaled matches Some(r) ==> r@ == resized(self@, width, height) && r@.width == width
                && r@.height == height && r@.wf(),
    {
        if self.width > MAX_RESIZE_SIDE || self.height > MAX_RESIZE_SIDE || width > MAX_RESIZE_SIDE
            || height > MAX_RESIZE_SIDE {
            return None;
        }
        assert(self.width as nat * height as nat <= 0x100_0000 * 0x100_0000) by (nonlinear_arith)
            requires
                self.width <= 0x100_0000,
                height <= 0x100_0000,
        ;
        assert(width as nat * height as nat <= 0x100_0000 * 0x100_0000) by (nonlinear_arith)
            requires
                width <= 0x100_0000,
                height <= 0x100_0000,
        ;
        let between: u64 = 16 * (self.width as u64 * height as u64);
        let after: u64 = 4 * (width as u64 * height as u64);
        if between > isize::MAX as u64 || after > isize::MAX as u64 {
            return None;
        }
        Some(self.resize_gaussian(width, height))
    }
}

} // verus!
