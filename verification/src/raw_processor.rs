use vstd::prelude::*;
use crate::rawconfig::{rows, RawImage2D};

pub mod blacklevel;

use self::blacklevel::{correction_fits, corrected_rows};

verus! {

/// Corrections that work on the raw sensor samples, before demosaicing.
#[derive(Debug)]
pub struct RawProcessor {}

impl RawProcessor {
    /// Subtracts the sensor's black level from every sample of the Bayer
    /// mosaic; see `blacklevel::blacklevel_correction`.
    pub fn blacklevel_correction(raw: &mut RawImage2D)
        requires
            correction_fits(old(raw).config, rows(old(raw).data@)),
        ensures
            final(raw).config == old(raw).config,
            rows(final(raw).data@) == corrected_rows(old(raw).config, rows(old(raw).data@)),
    {
        blacklevel::blacklevel_correction(raw)
    }
}

} // verus!
