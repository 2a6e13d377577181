//! Pixel-format normalization: converting a captured frame of one of several
//! possible pixel encodings into the canonical interleaved RGB buffer that
//! every downstream step consumes.

use vstd::prelude::*;

verus! {

/// The canonical image: `pixels` is a row-major, interleaved R,G,B buffer of
/// exactly `width * height * 3` bytes, with no padding.
#[derive(Debug)]
pub struct CanonicalImage {
    pub width: u32,
    pub height: u32,
    pub pixels: Vec<u8>,
}

impl CanonicalImage {
    /// Well-formedness: the buffer length matches the dimensions.
    pub open spec fn wf(&self) -> bool {
        self.pixels@.len() == self.width * self.height * 3
    }
}

/// Why a frame could not be normalized.
#[derive(Debug, PartialEq, Eq, Structural)]
pub enum NormalizeError {
    /// The buffer length contradicts the frame's own dimensions.
    MalformedBuffer,
    /// The frame uses a pixel encoding this pipeline does not convert;
    /// the capture request is constrained to BGRA so that a well-behaved
    /// engine never hands one back.
    UnsupportedVariant,
}

/// A raw captured video frame, a closed tagged union over the pixel
/// encodings the capture engine can produce. Ownership transfers to
/// [`normalize`], which consumes it.
#[derive(Debug)]
pub enum RawFrame {
    Yuv { width: u32, height: u32, luminance: Vec<u8>, chrominance: Vec<u8>, display_time: Option<u64> },
    Bgr0 { width: u32, height: u32, data: Vec<u8> },
    Rgb { width: u32, height: u32, data: Vec<u8>, display_time: Option<u64> },
    Rgbx { width: u32, height: u32, data: Vec<u8> },
    Xbgr { width: u32, height: u32, data: Vec<u8> },
    Bgrx { width: u32, height: u32, data: Vec<u8> },
    Bgra { width: u32, height: u32, data: Vec<u8>, display_time: Option<u64> },
}

/// The byte-exact meaning of BGRA-to-RGB conversion: for every 4-byte group
/// (B,G,R,A) of the input, the output holds (R,G,B); the alpha byte is dropped.
pub open spec fn bgra_to_rgb_spec(d: Seq<u8>) -> Seq<u8> {
    Seq::new(d.len() / 4 * 3, |i: int| {
        if i % 3 == 0 {
            d[4 * (i / 3) + 2]
        } else if i % 3 == 1 {
            d[4 * (i / 3) + 1]
        } else {
            d[4 * (i / 3)]
        }
    })
}

/// A BGRA payload is well sized when its length is a whole number of 4-byte
/// pixels and agrees with the frame's own dimensions.
pub open spec fn bgra_well_sized(width: u32, height: u32, data: Seq<u8>) -> bool {
    data.len() % 4 == 0 && data.len() == width * height * 4
}

/// Swap channels 0 and 2 of every 4-byte pixel group and drop channel 3,
/// turning a BGRA buffer into an interleaved RGB one.
pub fn bgra_to_rgb8(data: &Vec<u8>) -> (rgb: Vec<u8>)
    requires
        data@.len() % 4 == 0,
    ensures
        rgb@ == bgra_to_rgb_spec(data@),
{
    let ghost target = bgra_to_rgb_spec(data@);
    let mut rgb: Vec<u8> = Vec::new();
    let mut i: usize = 0;
    while i < data.len()
        invariant
            i % 4 == 0,
            i <= data@.len(),
            data@.len() % 4 == 0,
            target == bgra_to_rgb_spec(data@),
            target.len() == data@.len() / 4 * 3,
            rgb@.len() == i / 4 * 3,
            forall|j: int| 0 <= j < rgb@.len() ==> rgb@[j] == target[j],
        decreases data@.len() - i,
    {
        let ghost p = i as int / 4;
        assert(i + 4 <= data@.len());
        assert(3 * p == rgb@.len());
        assert((3 * p) % 3 == 0 && (3 * p) / 3 == p) by (nonlinear_arith);
        assert((3 * p + 1) % 3 == 1 && (3 * p + 1) / 3 == p) by (nonlinear_arith);
        assert((3 * p + 2) % 3 == 2 && (3 * p + 2) / 3 == p) by (nonlinear_arith);
        assert(4 * p == i);
        assert(3 * p + 2 < target.len()) by (nonlinear_arith)
            requires
                4 * p + 4 <= data@.len(),
                target.len() == data@.len() / 4 * 3,
                data@.len() % 4 == 0,
                p >= 0,
        ;
        rgb.push(data[i + 2]);
        rgb.push(data[i + 1]);
        rgb.push(data[i]);
        i = i + 4;
        assert(i as int / 4 == p + 1);
        assert((p + 1) * 3 == 3 * p + 3) by (nonlinear_arith);
    }
    assert(i == data@.len());
    assert(rgb@ =~= target);
    rgb
}

/// Normalize a raw frame into the canonical RGB image.
///
/// Only the BGRA encoding is converted; its buffer must be a whole number of
/// 4-byte pixels and must agree with the stated dimensions, else the frame is
/// rejected as malformed rather than truncated. Every other encoding is
/// rejected explicitly: the capture request pins the engine's output to BGRA,
/// so those variants are unreachable in the normal pipeline.
pub fn normalize(frame: RawFrame) -> (r: Result<CanonicalImage, NormalizeError>)
    ensures
        match frame {
            RawFrame::Bgra { width, height, data, .. } => {
                if bgra_well_sized(width, height, data@) {
                    &&& r matches Ok(img)
                    &&& img.width == width
                    &&& img.height == height
                    &&& img.pixels@ == bgra_to_rgb_spec(data@)
                    &&& img.wf()
                } else {
                    r == Err::<CanonicalImage, NormalizeError>(NormalizeError::MalformedBuffer)
                }
            },
            _ => r == Err::<CanonicalImage, NormalizeError>(NormalizeError::UnsupportedVariant),
        },
{
    match frame {
        RawFrame::Bgra { width, height, data, display_time: _ } => {
            if data.len() % 4 != 0 {
                return Err(NormalizeError::MalformedBuffer);
            }
            proof {
                assert((width as int) * (height as int) * 4 <= 0xffff_ffff * 0xffff_ffff * 4)
                    by (nonlinear_arith)
                    requires
                        width as int <= 0xffff_ffff,
                        height as int <= 0xffff_ffff,
                        width >= 0,
                        height >= 0,
                ;
            }
            let expected: u128 = (width as u128) * (height as u128) * 4;
            if (data.len() as u128) != expected {
                return Err(NormalizeError::MalformedBuffer);
            }
            let pixels = bgra_to_rgb8(&data);
            assert(pixels@.len() == width * height * 3) by {
                assert(data@.len() / 4 * 3 == width * height * 3) by (nonlinear_arith)
                    requires
                        data@.len() == width * height * 4,
                ;
            }
            Ok(CanonicalImage { width, height, pixels })
        },
        RawFrame::Yuv { .. } => Err(NormalizeError::UnsupportedVariant),
        RawFrame::Bgr0 { .. } => Err(NormalizeError::UnsupportedVariant),
        RawFrame::Rgb { .. } => Err(NormalizeError::UnsupportedVariant),
        RawFrame::Rgbx { .. } => Err(NormalizeError::UnsupportedVariant),
        RawFrame::Xbgr { .. } => Err(NormalizeError::UnsupportedVariant),
        RawFrame::Bgrx { .. } => Err(NormalizeError::UnsupportedVariant),
    }
}

} // verus!
