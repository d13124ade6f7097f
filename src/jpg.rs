//! JPEG output: the rows of an ARGB32 image turned into packed RGB, and
//! encoded by the `image` crate.

use vstd::prelude::*;

verus! {

/// Why the image could not be encoded.
#[derive(Debug, Clone, Copy, PartialEq, Eq, Structural)]
pub enum SaveError {
    /// The pixel data is shorter than its size and row stride say.
    BadCanvas,
    /// The encoder refused the image.
    Encode,
}

#[verifier::external_type_specification]
#[verifier::external_body]
pub struct ExImageError(image::ImageError);

/// The JPEG encoding, at the given quality, of a packed RGB image of the given size.
pub uninterp spec fn jpeg_of(rgb: Seq<u8>, width: u32, height: u32, quality: u8) -> Seq<u8>;

/// Relies on `image::codecs::jpeg::JpegEncoder` (`new_with_quality`, then
/// `encode` with `Rgb8`): on success the bytes written are the encoding of
/// the pixels, a function of the pixels, the size and the quality alone.
/// `encode` asserts that the buffer holds exactly `width * height * 3` bytes,
/// and refuses a width or height of 0 or above 65535; writing into a `Vec`
/// cannot fail otherwise.
#[verifier::external_body]
fn encode_jpeg(rgb: &Vec<u8>, width: u32, height: u32, quality: u8) -> (r: Result<Vec<u8>, image::ImageError>)
    requires
        rgb@.len() == width * height * 3,
    ensures
        r matches Ok(bytes) ==> bytes@ == jpeg_of(rgb@, width, height, quality),
        r is Ok <==> (1 <= width <= 65535 && 1 <= height <= 65535),
{
    let mut out = Vec::new();
    let done = image::codecs::jpeg::JpegEncoder::new_with_quality(&mut out, quality)
        .encode(rgb.as_slice(), width, height, image::ExtendedColorType::Rgb8);
    match done {
        Ok(()) => Ok(out),
        Err(e) => Err(e),
    }
}

/// The canvas holds `height` rows of `stride` bytes, each starting with `width` four-byte pixels.
pub open spec fn canvas_fits(len: int, width: int, height: int, stride: int) -> bool {
    stride >= width * 4 && len >= height * stride
}

/// Byte `k` (red, green, blue) of pixel `(x, y)` of an ARGB32 canvas, stored
/// little-endian as blue, green, red, alpha.
pub open spec fn canvas_channel(data: Seq<u8>, stride: int, x: int, y: int, k: int) -> u8 {
    data[y * stride + x * 4 + 2 - k]
}

/// The packed RGB image of an ARGB32 canvas, row by row.
pub open spec fn rgb_of(data: Seq<u8>, width: int, height: int, stride: int) -> Seq<u8> {
    Seq::new((width * height * 3) as nat, |i: int| canvas_channel(data, stride, (i / 3) % width, (i / 3) / width, i % 3))
}

/// The packed RGB pixels of an ARGB32 canvas of `width` by `height` pixels
/// with rows `stride` bytes apart; `None` when the data is too short for that.
pub fn argb_to_rgb(data: &Vec<u8>, width: u32, height: u32, stride: usize) -> (r: Option<Vec<u8>>)
    ensures
        r is Some <==> canvas_fits(data@.len() as int, width as int, height as int, stride as int),
        r matches Some(rgb) ==> rgb@ == rgb_of(data@, width as int, height as int, stride as int),
{
    let w = width as u128;
    let h = height as u128;
    proof {
        assert((h as int) * (stride as int) <= (u32::MAX as int) * (usize::MAX as int)) by (nonlinear_arith)
            requires 0 <= h <= u32::MAX, 0 <= stride <= usize::MAX;
        assert((u32::MAX as int) * (usize::MAX as int) <= u128::MAX) by (nonlinear_arith)
            requires usize::MAX <= u64::MAX;
    }
    if (stride as u128) < w * 4 || (data.len() as u128) < h * (stride as u128) {
        return None;
    }
    let len = data.len();
    let ghost wi = width as int;
    let ghost si = stride as int;
    let mut out: Vec<u8> = Vec::new();
    let mut y: u32 = 0;
    while y < height
        invariant
            y <= height,
            canvas_fits(data@.len() as int, wi, height as int, si),
            wi == width && si == stride,
            len == data@.len(),
            out@.len() == (y as int) * wi * 3,
            forall|yy: int, xx: int, k: int| 0 <= yy < y && 0 <= xx < wi && 0 <= k < 3 ==>
                out@[#[trigger] ((yy * wi + xx) * 3 + k)] == canvas_channel(data@, si, xx, yy, k),
        decreases height - y,
    {
        let mut x: u32 = 0;
        proof {
            assert((y as int) * si + si <= (height as int) * si) by (nonlinear_arith)
                requires y < height, si >= 0;
            assert((y as int) * si >= 0) by (nonlinear_arith)
                requires y >= 0, si >= 0;
            assert(data@.len() <= usize::MAX);
            assert((y as int) * si <= usize::MAX);
        }
        let row: usize = (y as usize) * stride;
        while x < width
            invariant
                y < height,
                x <= width,
                canvas_fits(data@.len() as int, wi, height as int, si),
                wi == width && si == stride,
                len == data@.len(),
                row == (y as int) * si,
                (y as int) * si + si <= (height as int) * si,
                out@.len() == ((y as int) * wi + x) * 3,
                forall|yy: int, xx: int, k: int| 0 <= yy <= y && 0 <= xx < wi && 0 <= k < 3
                    && (yy < y || xx < x) ==>
                    out@[#[trigger] ((yy * wi + xx) * 3 + k)] == canvas_channel(data@, si, xx, yy, k),
            decreases width - x,
        {
            proof {
                assert(row + (x as int) * 4 + 3 < data@.len()) by (nonlinear_arith)
                    requires row == (y as int) * si, x < wi, si >= wi * 4,
                        (y as int) * si + si <= (height as int) * si, data@.len() >= (height as int) * si;
                assert(data@.len() <= usize::MAX);
                assert((x as int) * 4 < si);
            }
            let at: usize = row + (x as usize) * 4;
            let ghost before = out@;
            out.push(data[at + 2]);
            out.push(data[at + 1]);
            out.push(data[at]);
            proof {
                let base = ((y as int) * wi + x) * 3;
                assert forall|yy: int, xx: int, k: int| 0 <= yy <= y && 0 <= xx < wi && 0 <= k < 3
                    && (yy < y || xx < x + 1) implies
                    out@[#[trigger] ((yy * wi + xx) * 3 + k)] == canvas_channel(data@, si, xx, yy, k) by {
                    if yy < y || xx < x {
                        assert((yy * wi + xx) * 3 + k < base) by (nonlinear_arith)
                            requires 0 <= yy <= y, 0 <= xx < wi, 0 <= k < 3, (yy < y || xx < x),
                                base == ((y as int) * wi + x) * 3, x < wi;
                        assert(out@[(yy * wi + xx) * 3 + k] == before[(yy * wi + xx) * 3 + k]);
                    } else {
                        assert(yy == y && xx == x);
                        assert((yy * wi + xx) * 3 + k == base + k);
                    }
                }
            }
            x += 1;
        }
        proof {
            assert(((y as int) * wi + wi) * 3 == ((y + 1) as int) * wi * 3) by (nonlinear_arith);
        }
        y += 1;
    }
    proof {
        assert(out@.len() == wi * (height as int) * 3) by (nonlinear_arith)
            requires out@.len() == (height as int) * wi * 3;
        let target = rgb_of(data@, wi, height as int, si);
        assert forall|i: int| 0 <= i < out@.len() implies out@[i] == target[i] by {
            let p = i / 3;
            let k = i % 3;
            vstd::arithmetic::div_mod::lemma_fundamental_div_mod(i, 3);
            vstd::arithmetic::div_mod::lemma_fundamental_div_mod(p, wi);
            let yy = p / wi;
            let xx = p % wi;
            assert(0 <= p < wi * (height as int)) by (nonlinear_arith)
                requires p == i / 3, 0 <= i < wi * (height as int) * 3;
            assert(0 <= yy < height) by (nonlinear_arith)
                requires yy == p / wi, 0 <= p < wi * (height as int), wi > 0;
            assert(p == yy * wi + xx) by (nonlinear_arith)
                requires p == wi * (p / wi) + p % wi, yy == p / wi, xx == p % wi;
            assert(i == (yy * wi + xx) * 3 + k);
        }
        assert(out@ =~= target);
    }
    Some(out)
}

/// The JPEG file contents for an ARGB32 canvas of `width` by `height`
/// pixels with rows `stride` bytes apart, at the given quality. It succeeds
/// exactly when the data holds the canvas and both sides lie in `1..=65535`.
pub fn save_to_jpg(data: &Vec<u8>, width: u32, height: u32, stride: usize, quality: u8) -> (r: Result<Vec<u8>, SaveError>)
    ensures
        !canvas_fits(data@.len() as int, width as int, height as int, stride as int)
            ==> r == Err::<Vec<u8>, SaveError>(SaveError::BadCanvas),
        canvas_fits(data@.len() as int, width as int, height as int, stride as int) ==> match r {
            Ok(bytes) => bytes@ == jpeg_of(rgb_of(data@, width as int, height as int, stride as int),
                width, height, quality),
            Err(e) => e == SaveError::Encode,
        },
        canvas_fits(data@.len() as int, width as int, height as int, stride as int)
            ==> (r is Ok <==> (1 <= width <= 65535 && 1 <= height <= 65535)),
{
    let rgb = match argb_to_rgb(data, width, height, stride) {
        Some(rgb) => rgb,
        None => { return Err(SaveError::BadCanvas); },
    };
    match encode_jpeg(&rgb, width, height, quality) {
        Ok(bytes) => Ok(bytes),
        Err(_) => Err(SaveError::Encode),
    }
}

} // verus!
