use vstd::prelude::*;
use crate::decoder::{DecodeResult, DecodingError};
use crate::rawconfig::{RawConfig, RawImage};

verus! {

/// The samples of a decoded raw file: integer samples, or floating-point
/// ones (whose values this library does not handle).
#[derive(Debug)]
pub enum PixelData {
    Integer(Vec<u16>),
    Float,
}

/// What the raw decoder reports of a file, as far as the pipeline reads it.
#[derive(Debug)]
pub struct DecodedRaw {
    pub width: usize,
    pub height: usize,
    pub cpp: usize,
    pub blacklevels: [u16; 4],
    pub data: PixelData,
}

/// The white level that the pipeline scales samples to.
pub const SENSOR_MAX: u32 = 16300;

/// The configuration that `decode` gives an image of `height` by `width`
/// with `cpp` components per pixel and the given black levels: white level
/// `SENSOR_MAX` and an RGGB cell (R at site 0, G at sites 1 and 2, B at site 3).
pub open spec fn decoded_config(height: usize, width: usize, cpp: usize, blacklevels: [u16; 4]) -> RawConfig {
    RawConfig {
        height,
        width,
        cpp,
        max: SENSOR_MAX,
        blacklevel: blacklevels,
        beyer_pattern: [0, 1, 1, 2],
    }
}

/// Turns what the raw decoder reported into a `RawImage`; floating-point
/// samples are refused.
pub fn decode(image: DecodedRaw) -> (res: DecodeResult<RawImage>)
    ensures
        match image.data {
            PixelData::Integer(samples) => res matches Ok(raw) && raw.data@ == samples@
                && raw.config == decoded_config(image.height, image.width, image.cpp, image.blacklevels),
            PixelData::Float => res matches Err(e) && e@ == "decode error"@,
        },
{
    match image.data {
        PixelData::Integer(data) => Ok(
            RawImage {
                data,
                config: RawConfig {
                    height: image.height,
                    width: image.width,
                    cpp: image.cpp,
                    max: SENSOR_MAX,
                    blacklevel: image.blacklevels,
                    beyer_pattern: [0, 1, 1, 2],
                },
            },
        ),
        PixelData::Float => Err(DecodingError::new("decode error")),
    }
}

} // verus!
