//! The pixels of an image in the order in which they are sent.

use vstd::prelude::*;
use rand::seq::SliceRandom;
use crate::raster::{same_frame, Color, Raster, RasterView, OPAQUE};

verus! {

/// A colour at a position of the image, `x` counted from the left and `y` from
/// the top.
#[derive(Clone, Copy, Debug, PartialEq, Eq, Structural)]
pub struct Pixel {
    pub x: u32,
    pub y: u32,
    pub color: Color,
}

/// Every pixel of an image row by row, the top row first and each row from left
/// to right.
pub open spec fn raster_pixels(image: RasterView) -> Seq<Pixel> {
    Seq::new(
        image.colors.len(),
        |i: int|
            Pixel {
                x: (i % image.width as int) as u32,
                y: (i / image.width as int) as u32,
                color: image.colors[i],
            },
    )
}

/// Whether a pixel is sent: when only opaque pixels are asked for, those with
/// full alpha; else all.
pub open spec fn kept(pixel: Pixel, opaque_only: bool) -> bool {
    !opaque_only || pixel.color.a == OPAQUE
}

/// `kept` as a predicate on pixels.
pub open spec fn keeper(opaque_only: bool) -> spec_fn(Pixel) -> bool {
    |pixel: Pixel| kept(pixel, opaque_only)
}

/// The pixels of an image that are sent, in raster order.
pub open spec fn pixel_source(image: RasterView, opaque_only: bool) -> Seq<Pixel> {
    raster_pixels(image).filter(keeper(opaque_only))
}

/// `SliceRandom::shuffle` with `rand::thread_rng()`: reorders the pixels in
/// place by swaps at random indices, so the same pixels remain, each as often
/// as before. Nothing is promised of the order.
#[verifier::external_body]
fn shuffle(pixels: &mut Vec<Pixel>)
    ensures
        final(pixels)@.to_multiset() == old(pixels)@.to_multiset(),
{
    pixels.shuffle(&mut rand::thread_rng());
}

/// The pixels of `image` that are sent, in raster order.
pub fn raster_order(image: &Raster, opaque_only: bool) -> (pixels: Vec<Pixel>)
    ensures
        pixels@ == pixel_source(image@, opaque_only),
        !opaque_only ==> pixels@ == raster_pixels(image@),
        image@.wf(),
{
    let count: usize = image.len();
    let width: usize = image.width() as usize;
    let ghost all = raster_pixels(image@);
    let mut pixels: Vec<Pixel> = Vec::new();
    let mut i: usize = 0;
    proof {
        assert(all.take(0) =~= Seq::<Pixel>::empty());
        reveal(Seq::filter);
    }
    while i < count
        invariant
            i <= count,
            count == image@.colors.len(),
            image@.wf(),
            width == image@.width,
            all == raster_pixels(image@),
            pixels@ == all.take(i as int).filter(keeper(opaque_only)),
            !opaque_only ==> pixels@ == all.take(i as int),
        decreases count - i,
    {
        proof {
            assert(width > 0) by (nonlinear_arith)
                requires
                    i < width * image@.height,
            ;
            vstd::arithmetic::div_mod::lemma_multiply_divide_lt(
                i as int,
                width as int,
                image@.height as int,
            );
        }
        let color = image.color(i);
        let pixel = Pixel { x: (i % width) as u32, y: (i / width) as u32, color };
        proof {
            assert(pixel == all[i as int]);
            assert(all.take(i + 1) =~= all.take(i as int).push(pixel));
            all.take(i as int).lemma_filter_push(pixel, keeper(opaque_only));
        }
        if !opaque_only || color.a == OPAQUE {
            pixels.push(pixel);
        }
        i += 1;
    }
    proof {
        assert(all.take(count as int) =~= all);
    }
    pixels
}

/// The pixels of `image` to send. With `opaque_only`, pixels whose alpha is
/// not `0xff` are left out. With `shuffle` the pixels come in a random order,
/// else in raster order.
pub fn extract(image: &Raster, opaque_only: bool, shuffle: bool) -> (pixels: Vec<Pixel>)
    ensures
        pixels@.to_multiset() == pixel_source(image@, opaque_only).to_multiset(),
        !shuffle ==> pixels@ == pixel_source(image@, opaque_only),
        pixels@.len() == pixel_source(image@, opaque_only).len(),
        opaque_only ==> forall|i: int|
            0 <= i < pixels@.len() ==> (#[trigger] pixels@[i]).color.a == OPAQUE,
        !opaque_only ==> pixels@.len() == image@.width * image@.height,
        image@.wf(),
{
    let mut pixels = raster_order(image, opaque_only);
    if shuffle {
        self::shuffle(&mut pixels);
    }
    proof {
        lemma_same_pixels(pixels@, image@, opaque_only);
    }
    pixels
}

/// A sequence with the same pixels as the pixel source of an image, in
/// whatever order, is as long as the source and holds only pixels that are
/// kept.
pub proof fn lemma_same_pixels(pixels: Seq<Pixel>, image: RasterView, opaque_only: bool)
    requires
        pixels.to_multiset() == pixel_source(image, opaque_only).to_multiset(),
    ensures
        pixels.len() == pixel_source(image, opaque_only).len(),
        forall|i: int| 0 <= i < pixels.len() ==> kept(#[trigger] pixels[i], opaque_only),
        !opaque_only ==> pixels.len() == image.colors.len(),
{
    let source = pixel_source(image, opaque_only);
    let all = raster_pixels(image);
    vstd::seq_lib::to_multiset_len(pixels);
    vstd::seq_lib::to_multiset_len(source);
    assert forall|i: int| 0 <= i < pixels.len() implies kept(#[trigger] pixels[i], opaque_only) by {
        let p = pixels[i];
        assert(pixels.contains(p));
        vstd::seq_lib::to_multiset_contains(pixels, p);
        vstd::seq_lib::to_multiset_contains(source, p);
        let j = choose|j: int| 0 <= j < source.len() && source[j] == p;
        all.lemma_filter_pred(keeper(opaque_only), j);
    }
    if !opaque_only {
        lemma_keep_all(all);
    }
}

/// When every pixel is kept, filtering changes nothing.
proof fn lemma_keep_all(pixels: Seq<Pixel>)
    ensures
        pixels.filter(keeper(false)) == pixels,
    decreases pixels.len(),
{
    reveal(Seq::filter);
    if pixels.len() > 0 {
        lemma_keep_all(pixels.drop_last());
        assert(pixels.drop_last().push(pixels.last()) =~= pixels);
    }
}

/// Shuffling permutes: what `extract` returns with shuffling holds the pixels
/// that it returns without, each as often, whatever the order.
pub proof fn lemma_shuffle_permutes(
    shuffled: Seq<Pixel>,
    ordered: Seq<Pixel>,
    image: RasterView,
    opaque_only: bool,
)
    requires
        shuffled.to_multiset() == pixel_source(image, opaque_only).to_multiset(),
        ordered == pixel_source(image, opaque_only),
    ensures
        shuffled.to_multiset() == ordered.to_multiset(),
        shuffled.len() == ordered.len(),
{
    lemma_same_pixels(shuffled, image, opaque_only);
}

/// Two pixels at the same position with the same alpha.
pub open spec fn alike(p: Pixel, q: Pixel) -> bool {
    p.x == q.x && p.y == q.y && p.color.a == q.color.a
}

proof fn lemma_filter_alike(a: Seq<Pixel>, b: Seq<Pixel>, opaque_only: bool)
    requires
        a.len() == b.len(),
        forall|i: int| 0 <= i < a.len() ==> alike(a[i], b[i]),
    ensures
        a.filter(keeper(opaque_only)).len() == b.filter(keeper(opaque_only)).len(),
        forall|i: int|
            0 <= i < a.filter(keeper(opaque_only)).len() ==> alike(
                #[trigger] a.filter(keeper(opaque_only))[i],
                b.filter(keeper(opaque_only))[i],
            ),
    decreases a.len(),
{
    reveal(Seq::filter);
    if a.len() > 0 {
        assert(alike(a.last(), b.last()));
        lemma_filter_alike(a.drop_last(), b.drop_last(), opaque_only);
    }
}

/// Colour apart, an image in the frame of another has the same pixels to
/// send: as many, at the same positions, in the same order.
pub proof fn lemma_same_frame_same_positions(
    image: RasterView,
    turned: RasterView,
    opaque_only: bool,
)
    requires
        image.wf(),
        same_frame(turned, image),
    ensures
        pixel_source(turned, opaque_only).len() == pixel_source(image, opaque_only).len(),
        forall|i: int|
            0 <= i < pixel_source(image, opaque_only).len() ==> alike(
                #[trigger] pixel_source(turned, opaque_only)[i],
                pixel_source(image, opaque_only)[i],
            ),
{
    let a = raster_pixels(image);
    let b = raster_pixels(turned);
    assert forall|i: int| 0 <= i < a.len() implies alike(a[i], b[i]) by {
        assert(b[i].color == turned.colors[i]);
    }
    lemma_filter_alike(a, b, opaque_only);
    lemma_filter_alike(b, a, opaque_only);
}

} // verus!
