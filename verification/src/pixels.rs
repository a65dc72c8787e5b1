//! Captured pixels: the byte order of the desktop and the image of the lens.

use vstd::prelude::*;

verus! {

/// The colour image of `egui`.
#[verifier::external_type_specification]
#[verifier::external_body]
pub struct ExColorImage(egui::ColorImage);

/// The width and the height of an image.
pub uninterp spec fn image_size(image: egui::ColorImage) -> (usize, usize);

/// The pixels of an image row by row, each as red, green, blue and alpha.
pub uninterp spec fn image_pixels(image: egui::ColorImage) -> Seq<(u8, u8, u8, u8)>;

/// All whole pixels of four bytes are opaque.
pub open spec fn is_opaque(rgba: Seq<u8>) -> bool {
    forall|i: int| 0 <= i && 4 * i + 3 < rgba.len() ==> #[trigger] rgba[4 * i + 3] == 255
}

/// The pixels that bytes in the order red, green, blue, alpha stand for.
pub open spec fn rgba_pixels(rgba: Seq<u8>) -> Seq<(u8, u8, u8, u8)> {
    Seq::new(
        rgba.len() / 4,
        |i: int| (rgba[4 * i], rgba[4 * i + 1], rgba[4 * i + 2], rgba[4 * i + 3]),
    )
}

/// Calls `egui::ColorImage::from_rgba_unmultiplied` on a square of opaque
/// pixels: the image has that size and, since an opaque colour is stored as it
/// is, exactly those pixels. The call panics where the number of bytes does not
/// fit the size.
#[verifier::external_body]
pub(crate) fn image_from_rgba(side: usize, rgba: &Vec<u8>) -> (image: egui::ColorImage)
    requires
        side * side * 4 == rgba@.len(),
        is_opaque(rgba@),
    ensures
        image_size(image) == (side, side),
        image_pixels(image) == rgba_pixels(rgba@),
{
    egui::ColorImage::from_rgba_unmultiplied([side, side], rgba)
}

/// The bytes of a desktop capture, blue first and with a meaningless fourth
/// byte, as opaque pixels with red first. Bytes beyond the last whole pixel
/// stay as they are.
pub open spec fn opaque_rgba(bgra: Seq<u8>) -> Seq<u8> {
    Seq::new(
        bgra.len(),
        |i: int|
            if i / 4 >= bgra.len() / 4 {
                bgra[i]
            } else if i % 4 == 0 {
                bgra[i + 2]
            } else if i % 4 == 2 {
                bgra[i - 2]
            } else if i % 4 == 3 {
                255
            } else {
                bgra[i]
            },
    )
}

/// Puts red first in each pixel and makes it opaque.
pub fn bgra_to_rgba(buf: &mut Vec<u8>)
    ensures
        final(buf)@ == opaque_rgba(old(buf)@),
{
    let ghost before = buf@;
    let len: usize = buf.len();
    let mut at: usize = 0;
    while len - at >= 4
        invariant
            at <= len,
            at % 4 == 0,
            len == before.len(),
            buf@.len() == len,
            forall|i: int| 0 <= i < at ==> buf@[i] == #[trigger] opaque_rgba(before)[i],
            forall|i: int| at <= i < len ==> buf@[i] == before[i],
        decreases len - at,
    {
        let blue: u8 = buf[at];
        let red: u8 = buf[at + 2];
        buf[at] = red;
        buf[at + 2] = blue;
        buf[at + 3] = 255;
        at = at + 4;
    }
    assert(buf@ =~= opaque_rgba(before));
}

/// A converted capture is opaque.
pub proof fn converted_capture_is_opaque(bgra: Seq<u8>)
    ensures
        is_opaque(opaque_rgba(bgra)),
{
}

/// Every pixel of the converted capture has the colour that the desktop has
/// there.
pub proof fn conversion_keeps_the_colours(bgra: Seq<u8>, i: int)
    requires
        0 <= i < bgra.len() / 4,
    ensures
        rgba_pixels(opaque_rgba(bgra))[i] == (
            bgra[4 * i + 2],
            bgra[4 * i + 1],
            bgra[4 * i],
            255u8,
        ),
{
}

/// Converting twice gives the colours back in their first order.
pub proof fn conversion_undoes_itself(bgra: Seq<u8>, i: int)
    requires
        0 <= i < bgra.len(),
        i % 4 != 3 || is_opaque(bgra),
    ensures
        opaque_rgba(opaque_rgba(bgra))[i] == bgra[i],
{
    if i % 4 == 3 && i / 4 < bgra.len() / 4 {
        assert(bgra[4 * (i / 4) + 3] == 255);
    }
}

/// Conversion byte by byte: the length stays, blue and red change places, green
/// stays, the fourth byte becomes opaque, and bytes beyond the last whole pixel
/// stay.
pub proof fn conversion_swaps_blue_and_red(bgra: Seq<u8>, i: int)
    ensures
        opaque_rgba(bgra).len() == bgra.len(),
        0 <= i < bgra.len() / 4 ==> {
            &&& opaque_rgba(bgra)[4 * i] == bgra[4 * i + 2]
            &&& opaque_rgba(bgra)[4 * i + 1] == bgra[4 * i + 1]
            &&& opaque_rgba(bgra)[4 * i + 2] == bgra[4 * i]
            &&& opaque_rgba(bgra)[4 * i + 3] == 255
        },
        4 * (bgra.len() / 4) <= i < bgra.len() ==> opaque_rgba(bgra)[i] == bgra[i],
{
}

/// Bytes are read as pixels in the order in which they stand, four to a pixel.
pub proof fn pixels_stand_in_order(rgba: Seq<u8>, i: int)
    ensures
        rgba_pixels(rgba).len() == rgba.len() / 4,
        0 <= i < rgba.len() / 4 ==> rgba_pixels(rgba)[i] == (
            rgba[4 * i],
            rgba[4 * i + 1],
            rgba[4 * i + 2],
            rgba[4 * i + 3],
        ),
{
}

} // verus!
