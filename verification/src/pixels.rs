//! Conversion of the pixel data in a bitmap buffer into an image of the `image` crate.

use crate::bitmap::PdfBitmapFormat;
use image::{DynamicImage, GrayImage, RgbaImage};
use vstd::prelude::*;

verus! {

#[verifier::external_type_specification]
#[verifier::external_body]
pub struct ExDynamicImage(DynamicImage);

/// The RGBA image of the given size holding the given pixel bytes, as `image` builds it.
pub uninterp spec fn spec_rgba_image(width: u32, height: u32, data: Seq<u8>) -> DynamicImage;

/// The grayscale image of the given size holding the given pixel bytes, as `image` builds it.
pub uninterp spec fn spec_gray_image(width: u32, height: u32, data: Seq<u8>) -> DynamicImage;

/// `image` accepts a buffer for an image of the given size and channel count exactly when
/// the buffer holds at least `channels * width * height` bytes, that length being
/// computed without overflow.
pub open spec fn spec_image_fits(channels: int, width: u32, height: u32, len: nat) -> bool {
    &&& channels * width <= usize::MAX
    &&& channels * width * height <= len
}

/// Builds an RGBA image with `image`'s `RgbaImage::from_raw`, which accepts the buffer exactly
/// when [spec_image_fits] holds for four channels; the image is named by [spec_rgba_image].
#[verifier::external_body]
fn rgba_image_from_raw(width: u32, height: u32, data: Vec<u8>) -> (r: Option<DynamicImage>)
    ensures
        r is Some <==> spec_image_fits(4, width, height, data@.len()),
        r matches Some(image) ==> image == spec_rgba_image(width, height, data@),
{
    RgbaImage::from_raw(width, height, data).map(DynamicImage::ImageRgba8)
}

/// Builds a grayscale image with `image`'s `GrayImage::from_raw`, which accepts the buffer
/// exactly when [spec_image_fits] holds for one channel; the image is named by
/// [spec_gray_image].
#[verifier::external_body]
fn gray_image_from_raw(width: u32, height: u32, data: Vec<u8>) -> (r: Option<DynamicImage>)
    ensures
        r is Some <==> spec_image_fits(1, width, height, data@.len()),
        r matches Some(image) ==> image == spec_gray_image(width, height, data@),
{
    GrayImage::from_raw(width, height, data).map(DynamicImage::ImageLuma8)
}

/// The RGBA bytes of four-byte BGRA (or BGRx) pixels: blue and red are exchanged, green
/// and the fourth byte kept. An incomplete trailing pixel is dropped.
pub open spec fn spec_bgra_to_rgba(data: Seq<u8>) -> Seq<u8> {
    Seq::new(
        (data.len() / 4) * 4,
        |i: int|
            {
                let p = i / 4;
                let c = i % 4;
                if c == 0 {
                    data[4 * p + 2]
                } else if c == 1 {
                    data[4 * p + 1]
                } else if c == 2 {
                    data[4 * p]
                } else {
                    data[4 * p + 3]
                }
            },
    )
}

/// The RGBA bytes of rows of three-byte BGR pixels: each full row of `stride` bytes holds
/// `width` pixels followed by alignment padding. Blue and red are exchanged and every pixel
/// is made fully opaque.
pub open spec fn spec_aligned_bgr_to_rgba(data: Seq<u8>, width: nat, stride: nat) -> Seq<u8> {
    Seq::new(
        (data.len() / stride) * width * 4,
        |i: int|
            {
                let pixel = i / 4;
                let c = i % 4;
                let start = (pixel / width as int) * stride + (pixel % width as int) * 3;
                if c == 0 {
                    data[start + 2]
                } else if c == 1 {
                    data[start + 1]
                } else if c == 2 {
                    data[start]
                } else {
                    255u8
                }
            },
    )
}

/// Converts four-byte BGRA (or BGRx) pixels into RGBA pixels.
pub fn bgra_to_rgba(data: &[u8]) -> (r: Vec<u8>)
    ensures
        r@ == spec_bgra_to_rgba(data@),
{
    let len = data.len();
    let pixels = len / 4;
    let mut rgba: Vec<u8> = Vec::new();
    let mut p: usize = 0;
    while p < pixels
        invariant
            len == data@.len(),
            pixels == len / 4,
            4 * pixels <= len,
            p <= pixels,
            rgba@.len() == 4 * p,
            forall|i: int| 0 <= i < 4 * p ==> rgba@[i] == spec_bgra_to_rgba(data@)[i],
        decreases pixels - p,
    {
        let base = 4 * p;
        rgba.push(data[base + 2]);
        rgba.push(data[base + 1]);
        rgba.push(data[base]);
        rgba.push(data[base + 3]);
        proof {
            assert forall|i: int| 4 * p <= i < 4 * p + 4 implies rgba@[i] == spec_bgra_to_rgba(
                data@,
            )[i] by {
                assert(i / 4 == p);
                assert(i % 4 == i - 4 * p);
            }
        }
        p = p + 1;
    }
    assert(rgba@ =~= spec_bgra_to_rgba(data@));
    rgba
}

/// Where the pixel in row `row` and column `column` lands in [spec_aligned_bgr_to_rgba].
proof fn lemma_aligned_bgr_pixel(
    data: Seq<u8>,
    width: int,
    stride: int,
    rows: int,
    row: int,
    column: int,
)
    requires
        stride > 0,
        0 <= column < width,
        0 <= row < rows,
        rows == data.len() as int / stride,
        row * stride + stride <= data.len(),
        3 * width <= stride,
    ensures
        ({
            let spec = spec_aligned_bgr_to_rgba(data, width as nat, stride as nat);
            let p = (row * width + column) * 4;
            let start = row * stride + column * 3;
            &&& p == row * width * 4 + column * 4
            &&& p + 4 <= spec.len()
            &&& start + 3 <= row * stride + stride
            &&& spec[p] == data[start + 2]
            &&& spec[p + 1] == data[start + 1]
            &&& spec[p + 2] == data[start]
            &&& spec[p + 3] == 255u8
        }),
{
    let pixel = row * width + column;
    vstd::arithmetic::div_mod::lemma_fundamental_div_mod_converse(pixel, width, row, column);
    assert(pixel * 4 == row * width * 4 + column * 4) by (nonlinear_arith)
        requires
            pixel == row * width + column,
    ;
    assert((row + 1) * width <= rows * width) by (nonlinear_arith)
        requires
            row + 1 <= rows,
            0 <= width,
    ;
    assert((row + 1) * width == row * width + width) by (nonlinear_arith);
    assert(pixel + 1 <= rows * width);
    vstd::arithmetic::div_mod::lemma_fundamental_div_mod_converse(pixel * 4, 4, pixel, 0);
    vstd::arithmetic::div_mod::lemma_fundamental_div_mod_converse(pixel * 4 + 1, 4, pixel, 1);
    vstd::arithmetic::div_mod::lemma_fundamental_div_mod_converse(pixel * 4 + 2, 4, pixel, 2);
    vstd::arithmetic::div_mod::lemma_fundamental_div_mod_converse(pixel * 4 + 3, 4, pixel, 3);
    assert((pixel * 4 + 0) / 4 == pixel && (pixel * 4 + 0) % 4 == 0);
    assert((pixel * 4 + 1) / 4 == pixel && (pixel * 4 + 1) % 4 == 1);
    assert((pixel * 4 + 2) / 4 == pixel && (pixel * 4 + 2) % 4 == 2);
    assert((pixel * 4 + 3) / 4 == pixel && (pixel * 4 + 3) % 4 == 3);
}

/// Converts rows of three-byte BGR pixels, each row `stride` bytes long and holding `width`
/// pixels, into RGBA pixels.
pub fn aligned_bgr_to_rgba(data: &[u8], width: usize, stride: usize) -> (r: Vec<u8>)
    requires
        stride > 0,
        3 * width <= stride,
    ensures
        r@ == spec_aligned_bgr_to_rgba(data@, width as nat, stride as nat),
{
    let len = data.len();
    let rows = len / stride;
    let ghost spec = spec_aligned_bgr_to_rgba(data@, width as nat, stride as nat);
    let mut rgba: Vec<u8> = Vec::new();
    let mut row: usize = 0;
    proof {
        vstd::arithmetic::div_mod::lemma_fundamental_div_mod(len as int, stride as int);
        vstd::arithmetic::div_mod::lemma_mod_bound(len as int, stride as int);
        vstd::arithmetic::mul::lemma_mul_is_commutative(stride as int, rows as int);
    }
    while row < rows
        invariant
            len == data@.len(),
            rows == data@.len() as int / stride as int,
            rows * stride <= len,
            stride > 0,
            3 * width <= stride,
            row <= rows,
            spec == spec_aligned_bgr_to_rgba(data@, width as nat, stride as nat),
            spec.len() == rows * width * 4,
            rgba@.len() == row * width * 4,
            forall|i: int| 0 <= i < row * width * 4 ==> rgba@[i] == spec[i],
        decreases rows - row,
    {
        proof {
            assert(row * stride + stride <= rows * stride) by (nonlinear_arith)
                requires
                    row < rows,
                    stride > 0,
            {
            }
        }
        let row_start = row * stride;
        let mut column: usize = 0;
        while column < width
            invariant
                len == data@.len(),
                rows == data@.len() as int / stride as int,
                rows * stride <= len,
                stride > 0,
                3 * width <= stride,
                row < rows,
                row_start == row * stride,
                row_start + stride <= len,
                column <= width,
                spec == spec_aligned_bgr_to_rgba(data@, width as nat, stride as nat),
                spec.len() == rows * width * 4,
                rgba@.len() == row * width * 4 + column * 4,
                forall|i: int| 0 <= i < row * width * 4 + column * 4 ==> rgba@[i] == spec[i],
            decreases width - column,
        {
            let start = row_start + column * 3;
            rgba.push(data[start + 2]);
            rgba.push(data[start + 1]);
            rgba.push(data[start]);
            rgba.push(255);
            proof {
                lemma_aligned_bgr_pixel(data@, width as int, stride as int, rows as int, row as int, column as int);
                let pixel = row * width + column;
                assert forall|i: int| pixel * 4 <= i < pixel * 4 + 4 implies rgba@[i] == spec[i] by {
                    if i == pixel * 4 {
                    } else if i == pixel * 4 + 1 {
                    } else if i == pixel * 4 + 2 {
                    } else {
                    }
                }
            }
            column = column + 1;
        }
        proof {
            assert(row * width * 4 + width * 4 == (row + 1) * width * 4) by (nonlinear_arith);
        }
        row = row + 1;
    }
    assert(rgba@ =~= spec);
    rgba
}

/// The image built from a bitmap buffer of the given format and size.
pub open spec fn spec_bitmap_image(
    format: PdfBitmapFormat,
    width: u32,
    height: u32,
    data: Seq<u8>,
) -> Option<DynamicImage> {
    let (pixels, fits) = match format {
        PdfBitmapFormat::Gray => (data, spec_image_fits(1, width, height, data.len())),
        PdfBitmapFormat::BGR => {
            let pixels = spec_aligned_bgr_to_rgba(
                data,
                width as nat,
                (data.len() as int / height as int) as nat,
            );
            (pixels, spec_image_fits(4, width, height, pixels.len()))
        },
        _ => {
            let pixels = spec_bgra_to_rgba(data);
            (pixels, spec_image_fits(4, width, height, pixels.len()))
        },
    };
    if !fits {
        None
    } else if format == PdfBitmapFormat::Gray {
        Some(spec_gray_image(width, height, pixels))
    } else {
        Some(spec_rgba_image(width, height, pixels))
    }
}

/// Builds an image from the bytes of a bitmap buffer of the given pixel format and size:
/// BGRA and BGRx pixels become RGBA pixels, rows of BGR pixels become opaque RGBA pixels,
/// and grayscale pixels are kept. Returns `None` when the buffer is too short for an image
/// of that size.
pub fn bitmap_pixels_to_image(format: PdfBitmapFormat, width: u32, height: u32, data: &[u8]) -> (r:
    Option<DynamicImage>)
    requires
        format == PdfBitmapFormat::BGR ==> height > 0 && data@.len() as int / height as int > 0 && 3
            * width <= data@.len() as int / height as int,
    ensures
        r == spec_bitmap_image(format, width, height, data@),
{
    match format {
        PdfBitmapFormat::BGRA | PdfBitmapFormat::BRGx | PdfBitmapFormat::BGRx => {
            rgba_image_from_raw(width, height, bgra_to_rgba(data))
        },
        PdfBitmapFormat::BGR => {
            let stride = data.len() / height as usize;
            rgba_image_from_raw(width, height, aligned_bgr_to_rgba(data, width as usize, stride))
        },
        PdfBitmapFormat::Gray => {
            let mut bytes: Vec<u8> = Vec::new();
            let mut i: usize = 0;
            while i < data.len()
                invariant
                    i <= data@.len(),
                    bytes@ == data@.subrange(0, i as int),
                decreases data@.len() - i,
            {
                bytes.push(data[i]);
                i = i + 1;
            }
            assert(bytes@ =~= data@);
            gray_image_from_raw(width, height, bytes)
        },
    }
}

} // verus!
