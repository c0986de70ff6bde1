//! Icons: RGBA pixels and the two bitmaps that `CreateIcon` takes.
//!
//! An icon is drawn from a colour bitmap in BGRA order and an AND mask with
//! one byte for each pixel. [`IconBitmaps::from_rgba`] makes both from a
//! buffer of RGBA pixels.

use vstd::prelude::*;

verus! {

/// One pixel: four bytes, which are red, green, blue and alpha until
/// [`Pixel::to_bgra`] has swapped red and blue.
#[derive(Clone, Copy, Debug, PartialEq, Eq, Structural)]
pub struct Pixel {
    pub r: u8,
    pub g: u8,
    pub b: u8,
    pub a: u8,
}

/// The number of bytes that a pixel takes in a buffer.
pub const PIXEL_SIZE: usize = 4;

impl Pixel {
    /// Swaps the red and the blue byte, and leaves green and alpha.
    pub fn to_bgra(&mut self)
        ensures
            final(self).r == old(self).b,
            final(self).g == old(self).g,
            final(self).b == old(self).r,
            final(self).a == old(self).a,
    {
        core::mem::swap(&mut self.r, &mut self.b);
    }
}

/// An icon for the title bar or the task bar: `width` times `height` pixels
/// of four bytes each, row by row, in the order red, green, blue, alpha.
#[derive(Debug, Clone, PartialEq, Eq)]
pub struct Icon {
    pub rgba: Vec<u8>,
    pub width: u32,
    pub height: u32,
}

/// True if `len` bytes are exactly `width` times `height` whole pixels.
pub open spec fn fits_dimensions(len: nat, width: u32, height: u32) -> bool {
    len % (PIXEL_SIZE as nat) == 0 && len / (PIXEL_SIZE as nat) == width * height
}

/// The byte of the AND mask for a pixel with the given alpha: one more than
/// alpha, and 0 for the alpha 255.
pub open spec fn and_mask_byte(alpha: u8) -> u8 {
    if alpha == u8::MAX {
        0
    } else {
        (alpha + 1) as u8
    }
}

/// The AND mask for a buffer of RGBA pixels: for each pixel the mask byte of
/// its alpha.
pub open spec fn and_mask_of(rgba: Seq<u8>) -> Seq<u8> {
    Seq::new(rgba.len() / (PIXEL_SIZE as nat), |i: int| and_mask_byte(rgba[PIXEL_SIZE * i + 3]))
}

/// The buffer with red and blue swapped in every pixel.
pub open spec fn bgra_of(rgba: Seq<u8>) -> Seq<u8> {
    Seq::new(
        rgba.len(),
        |k: int|
            if k % 4 == 0 {
                rgba[k + 2]
            } else if k % 4 == 2 {
                rgba[k - 2]
            } else {
                rgba[k]
            },
    )
}

impl Icon {
    /// True if the buffer holds exactly `width` times `height` pixels.
    pub open spec fn well_formed(&self) -> bool {
        fits_dimensions(self.rgba@.len(), self.width, self.height)
    }

    /// Tells whether the buffer holds exactly `width` times `height` pixels.
    pub fn is_well_formed(&self) -> (ok: bool)
        ensures
            ok == self.well_formed(),
    {
        rgba_fits(self.rgba.len(), self.width, self.height)
    }
}

/// Tells whether `len` bytes are exactly `width` times `height` whole pixels.
pub fn rgba_fits(len: usize, width: u32, height: u32) -> (ok: bool)
    ensures
        ok == fits_dimensions(len as nat, width, height),
{
    assert(width * height <= 0xFFFF_FFFF * 0xFFFF_FFFF) by (nonlinear_arith)
        requires
            width <= 0xFFFF_FFFF,
            height <= 0xFFFF_FFFF,
    ;
    let pixels: u64 = width as u64 * height as u64;
    len % PIXEL_SIZE == 0 && (len / PIXEL_SIZE) as u64 == pixels
}

/// What `CreateIcon` is given for an icon.
#[derive(Debug, Clone, PartialEq, Eq)]
pub struct IconBitmaps {
    pub width: u32,
    pub height: u32,
    /// The number of colour planes: always 1.
    pub planes: u8,
    /// The number of bits for a pixel of the colour bitmap: always 32.
    pub bits_per_pixel: u8,
    /// One byte for each pixel.
    pub and_mask: Vec<u8>,
    /// Four bytes for each pixel: blue, green, red, alpha.
    pub color: Vec<u8>,
}

impl IconBitmaps {
    /// The bitmaps of an icon.
    pub fn from_icon(icon: Icon) -> (bitmaps: IconBitmaps)
        requires
            icon.well_formed(),
        ensures
            bitmaps.width == icon.width,
            bitmaps.height == icon.height,
            bitmaps.planes == 1,
            bitmaps.bits_per_pixel == 32,
            bitmaps.and_mask@ == and_mask_of(icon.rgba@),
            bitmaps.color@ == bgra_of(icon.rgba@),
    {
        IconBitmaps::from_rgba(icon.rgba, icon.width, icon.height)
    }

    /// The bitmaps for `width` times `height` pixels in RGBA order: the AND
    /// mask holds for each pixel the mask byte of its alpha, and the colour
    /// bitmap is the buffer with red and blue swapped in every pixel.
    pub fn from_rgba(rgba: Vec<u8>, width: u32, height: u32) -> (bitmaps: IconBitmaps)
        requires
            fits_dimensions(rgba@.len(), width, height),
        ensures
            bitmaps.width == width,
            bitmaps.height == height,
            bitmaps.planes == 1,
            bitmaps.bits_per_pixel == 32,
            bitmaps.and_mask@ == and_mask_of(rgba@),
            bitmaps.color@ == bgra_of(rgba@),
    {
        let ghost given = rgba@;
        let mut color = rgba;
        let pixel_count = color.len() / PIXEL_SIZE;
        let mut and_mask: Vec<u8> = Vec::with_capacity(pixel_count);
        let mut pixel_index: usize = 0;
        while pixel_index < pixel_count
            invariant
                given.len() % 4 == 0,
                pixel_count == given.len() / 4,
                pixel_index <= pixel_count,
                color.len() == given.len(),
                and_mask@.len() == pixel_index,
                forall|i: int| 0 <= i < pixel_index ==> and_mask@[i] == and_mask_of(given)[i],
                forall|k: int| 0 <= k < 4 * pixel_index ==> color@[k] == bgra_of(given)[k],
                forall|k: int| 4 * pixel_index <= k < given.len() ==> color@[k] == given[k],
            decreases pixel_count - pixel_index,
        {
            let at = pixel_index * PIXEL_SIZE;
            let mut pixel = Pixel {
                r: color[at],
                g: color[at + 1],
                b: color[at + 2],
                a: color[at + 3],
            };
            and_mask.push(pixel.a.wrapping_sub(u8::MAX));
            pixel.to_bgra();
            color.set(at, pixel.r);
            color.set(at + 1, pixel.g);
            color.set(at + 2, pixel.b);
            color.set(at + 3, pixel.a);
            pixel_index += 1;
        }
        assert(and_mask@ =~= and_mask_of(given));
        assert(color@ =~= bgra_of(given));
        IconBitmaps { width, height, planes: 1, bits_per_pixel: 32, and_mask, color }
    }
}

/// Swapping red and blue twice gives the buffer back.
pub proof fn lemma_bgra_twice(rgba: Seq<u8>)
    requires
        rgba.len() % 4 == 0,
    ensures
        bgra_of(bgra_of(rgba)) == rgba,
{
    assert(bgra_of(bgra_of(rgba)) =~= rgba);
}

/// The two bitmaps have one byte and four bytes for each pixel.
pub proof fn lemma_bitmap_lengths(rgba: Seq<u8>, width: u32, height: u32)
    requires
        fits_dimensions(rgba.len(), width, height),
    ensures
        and_mask_of(rgba).len() == width * height,
        bgra_of(rgba).len() == 4 * (width * height),
{
}

} // verus!
