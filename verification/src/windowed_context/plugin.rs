//! Software rendering of the terminal into a window: keeping the window's image in step with the
//! pixels that the terminal backend draws.

use vstd::prelude::*;

verus! {

/// How the window's image follows a new frame of the terminal's pixel map.
#[derive(Clone, Copy, Debug, PartialEq, Eq, Structural)]
pub enum FrameUpdate {
    /// The image has another size than the pixel map: resize it to `width` by `height` and give
    /// it the pixel map's colours with opaque alpha.
    Resize { width: u32, height: u32 },
    /// The image has the pixel map's size: copy the `width * height` pixels' colour channels
    /// into it, keeping its alpha channel.
    CopyPixels { width: u32, height: u32 },
}

/// The image size that stands for a pixel map of `width` by `height` pixels: each side taken as
/// a `u32`, truncated where it does not fit.
pub open spec fn image_extent(width: usize, height: usize) -> (u32, u32) {
    (width as u32, height as u32)
}

/// The image size for a pixel map of `width` by `height` pixels.
pub fn pixmap_extent(width: usize, height: usize) -> (extent: (u32, u32))
    ensures
        extent == image_extent(width, height),
        extent.0 == width as u32,
        extent.1 == height as u32,
{
    (width as u32, height as u32)
}

/// How the window's image of `image_width` by `image_height` pixels follows a pixel map of
/// `pixmap_width` by `pixmap_height` pixels: it is resized where its size differs from the pixel
/// map's, and the pixels are copied into it otherwise.
pub open spec fn frame_update(
    image_width: u32,
    image_height: u32,
    pixmap_width: usize,
    pixmap_height: usize,
) -> FrameUpdate {
    let (width, height) = image_extent(pixmap_width, pixmap_height);
    if image_width != width || image_height != height {
        FrameUpdate::Resize { width, height }
    } else {
        FrameUpdate::CopyPixels { width, height }
    }
}

/// Decides how the window's image of `image_width` by `image_height` pixels follows a pixel map
/// of `pixmap_width` by `pixmap_height` pixels.
pub fn plan_frame_update(
    image_width: u32,
    image_height: u32,
    pixmap_width: usize,
    pixmap_height: usize,
) -> (update: FrameUpdate)
    ensures
        update == frame_update(image_width, image_height, pixmap_width, pixmap_height),
        (image_width == pixmap_width as u32 && image_height == pixmap_height as u32) ==> update == (
        FrameUpdate::CopyPixels { width: image_width, height: image_height }),
        (image_width != pixmap_width as u32 || image_height != pixmap_height as u32) ==> update == (
        FrameUpdate::Resize { width: pixmap_width as u32, height: pixmap_height as u32 }),
{
    let (width, height) = pixmap_extent(pixmap_width, pixmap_height);
    if image_width != width || image_height != height {
        FrameUpdate::Resize { width, height }
    } else {
        FrameUpdate::CopyPixels { width, height }
    }
}

/// The RGBA bytes `rgba` after the colour channels of the first `pixels` RGB pixels of `rgb`
/// are copied into the first `pixels` RGBA pixels; every alpha byte, and every byte past those
/// pixels, stays as it was.
pub open spec fn with_rgb_copied(rgba: Seq<u8>, rgb: Seq<u8>, pixels: int) -> Seq<u8> {
    Seq::new(
        rgba.len(),
        |k: int|
            if k < 4 * pixels && k % 4 != 3 {
                rgb[3 * (k / 4) + k % 4]
            } else {
                rgba[k]
            },
    )
}

proof fn lemma_pixel_of_byte(k: int, i: int)
    requires
        0 <= i,
        4 * i <= k < 4 * i + 4,
    ensures
        k / 4 == i,
        k % 4 == k - 4 * i,
{
    assert(k / 4 == i && k % 4 == k - 4 * i) by (nonlinear_arith)
        requires
            0 <= i,
            4 * i <= k < 4 * i + 4,
    ;
}

/// Copies the colour channels of a `width` by `height` frame of RGB pixels into an RGBA image of
/// the same size, leaving the image's alpha bytes as they are.
pub fn copy_rgb_into_rgba(rgb: &[u8], rgba: &mut Vec<u8>, width: u32, height: u32)
    requires
        width * height <= u32::MAX,
        3 * (width * height) <= rgb@.len(),
        4 * (width * height) <= old(rgba)@.len(),
    ensures
        final(rgba)@ == with_rgb_copied(old(rgba)@, rgb@, width * height),
{
    let pixels = (width * height) as usize;
    let ghost original = rgba@;
    let rgb_len = rgb.len();
    let rgba_len = rgba.len();
    let mut i: usize = 0;
    while i < pixels
        invariant
            pixels == width * height,
            rgb_len == rgb@.len(),
            rgba_len == original.len(),
            3 * pixels <= rgb_len,
            4 * pixels <= rgba_len,
            i <= pixels,
            rgba@ == with_rgb_copied(original, rgb@, i as int),
        decreases pixels - i,
    {
        let ghost before = rgba@;
        let src = 3 * i;
        let dst = 4 * i;
        rgba.set(dst, rgb[src]);
        rgba.set(dst + 1, rgb[src + 1]);
        rgba.set(dst + 2, rgb[src + 2]);
        proof {
            let next = with_rgb_copied(original, rgb@, i + 1);
            assert forall|k: int| 0 <= k < rgba@.len() implies rgba@[k] == next[k] by {
                if 4 * i <= k < 4 * i + 4 {
                    lemma_pixel_of_byte(k, i as int);
                } else if k < 4 * i {
                    assert(k < 4 * (i + 1));
                } else {
                    assert(!(k < 4 * (i + 1)));
                }
            }
            assert(rgba@ =~= next);
        }
        i = i + 1;
    }
}

/// After a copy, each of the frame's pixels has in the image the colour channels that the pixel
/// map gives it and the alpha byte that the image had; the bytes past the frame are untouched.
pub proof fn lemma_copied_pixels(rgba: Seq<u8>, rgb: Seq<u8>, pixels: int, p: int, c: int)
    requires
        0 <= p < pixels,
        0 <= c < 3,
        4 * pixels <= rgba.len(),
    ensures
        with_rgb_copied(rgba, rgb, pixels)[4 * p + c] == rgb[3 * p + c],
        with_rgb_copied(rgba, rgb, pixels)[4 * p + 3] == rgba[4 * p + 3],
        with_rgb_copied(rgba, rgb, pixels).len() == rgba.len(),
        forall|k: int|
            4 * pixels <= k < rgba.len() ==> #[trigger] with_rgb_copied(rgba, rgb, pixels)[k]
                == rgba[k],
{
    lemma_pixel_of_byte(4 * p + c, p);
    lemma_pixel_of_byte(4 * p + 3, p);
}

/// Once the image is resized to a pixel map's size, the next frame of a pixel map of that size
/// is copied into it rather than resizing it again.
pub proof fn lemma_resize_then_copy(
    image_width: u32,
    image_height: u32,
    pixmap_width: usize,
    pixmap_height: usize,
)
    ensures
        frame_update(image_width, image_height, pixmap_width, pixmap_height) matches FrameUpdate::Resize {
            width,
            height,
        } ==> frame_update(width, height, pixmap_width, pixmap_height) == (FrameUpdate::CopyPixels {
            width,
            height,
        }),
{
}

/// The image size of a pixel map is its width, then its height, each taken as a `u32`.
pub proof fn lemma_extent_is_width_then_height(width: usize, height: usize)
    ensures
        image_extent(width, height).0 == width as u32,
        image_extent(width, height).1 == height as u32,
{
}

/// The image keeps its size and takes the pixels only when both its sides equal the pixel map's;
/// where either side differs, larger or smaller, it is resized to the pixel map's width and
/// height.
pub proof fn lemma_copy_only_at_same_size(
    image_width: u32,
    image_height: u32,
    pixmap_width: usize,
    pixmap_height: usize,
)
    ensures
        frame_update(image_width, image_height, pixmap_width, pixmap_height) is CopyPixels <==> (
        image_width == pixmap_width as u32 && image_height == pixmap_height as u32),
        frame_update(image_width, image_height, pixmap_width, pixmap_height) is CopyPixels ==> (
        frame_update(image_width, image_height, pixmap_width, pixmap_height) == FrameUpdate::CopyPixels {
            width: image_width,
            height: image_height,
        }),
        !(frame_update(image_width, image_height, pixmap_width, pixmap_height) is CopyPixels) ==> (
        frame_update(image_width, image_height, pixmap_width, pixmap_height) == FrameUpdate::Resize {
            width: pixmap_width as u32,
            height: pixmap_height as u32,
        }),
{
}

} // verus!
