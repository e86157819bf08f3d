//! How the stages fit together: a raw image laid out by `RawImage2D::from1d`
//! can go through black-level correction and then demosaicing.
use vstd::prelude::*;
use crate::raw_processor::blacklevel::{
    cell_rows_fit, corrected_rows, correction_fits, lemma_correction_never_raises,
};
use crate::rawconfig::{flat_fits, grid_from_flat, RawConfig};
use crate::rgb_processor::demosaic::{demosaic_defined, demosaic_fits, present};

verus! {

/// A row-major image of even width, laid out in rows, meets what black-level
/// correction needs (with an odd width the last cell of a row reaches past it).
pub proof fn lemma_grid_correction_fits(data: Seq<u16>, config: RawConfig)
    requires
        flat_fits(data.len(), config.height as nat, config.width as nat),
        config.width % 2 == 0,
        forall|k: int| 0 <= k < 4 ==> #[trigger] config.beyer_pattern@[k] < 4,
    ensures
        correction_fits(config, grid_from_flat(data, config.height as nat, config.width as nat)),
{
    let d = grid_from_flat(data, config.height as nat, config.width as nat);
    assert forall|h: int| 0 <= h < config.height && h % 2 == 0 implies #[trigger] cell_rows_fit(
        config,
        d,
        h,
    ) by {
        if h + 1 < d.len() {
            assert(d[h + 1].len() == config.width);
        }
        assert(d[h].len() == config.width);
    }
}

/// After black-level correction, a row-major image of even width with at
/// least two rows (and two columns once it has three rows) can be demosaiced:
/// every sample that a pixel reads is there, and as the samples came from
/// 16-bit values no sum overflows.
pub proof fn lemma_corrected_grid_demosaic_fits(data: Seq<u16>, config: RawConfig)
    requires
        flat_fits(data.len(), config.height as nat, config.width as nat),
        config.width % 2 == 0,
        forall|k: int| 0 <= k < 4 ==> #[trigger] config.beyer_pattern@[k] < 4,
        config.height >= 2,
        config.height >= 3 ==> config.width >= 2,
    ensures
        demosaic_fits(
            corrected_rows(config, grid_from_flat(data, config.height as nat, config.width as nat)),
            config.height as int,
            config.width as int,
        ),
{
    let g = grid_from_flat(data, config.height as nat, config.width as nat);
    let d = corrected_rows(config, g);
    assert forall|r: int, c: int| 0 <= r < d.len() && 0 <= c < d[r].len() implies #[trigger] d[r][c]
        <= 0xffff by {
        lemma_correction_never_raises(config, g, r, c);
        assert(g[r][c] <= 0xffff);
    }
    assert forall|r: int, c: int|
        1 <= r < config.height - 1 && 1 <= c < config.width - 1 implies #[trigger] demosaic_defined(
        d,
        r,
        c,
    ) by {
        assert(d[r - 1].len() == config.width && d[r].len() == config.width && d[r + 1].len()
            == config.width);
        assert(present(d, r, c) && present(d, r - 1, c) && present(d, r + 1, c));
        assert(present(d, r, c - 1) && present(d, r, c + 1));
        assert(present(d, r - 1, c - 1) && present(d, r + 1, c - 1));
        assert(present(d, r - 1, c + 1) && present(d, r + 1, c + 1));
        assert(d[r][c] <= 0xffff && d[r - 1][c] <= 0xffff && d[r + 1][c] <= 0xffff);
        assert(d[r][c - 1] <= 0xffff && d[r][c + 1] <= 0xffff);
        assert(d[r - 1][c - 1] <= 0xffff && d[r + 1][c - 1] <= 0xffff);
        assert(d[r - 1][c + 1] <= 0xffff && d[r + 1][c + 1] <= 0xffff);
    }
}

} // verus!
