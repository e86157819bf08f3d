use vstd::prelude::*;
use crate::rawconfig::{rows, RawConfig, RawImage2D};

verus! {

/// `n` rounded up to the next even number.
pub open spec fn round_up_even(n: int) -> int {
    n + n % 2
}

/// Position of sample (`r`, `c`) in its 2x2 Bayer cell.
pub open spec fn bayer_site(r: int, c: int) -> int {
    2 * (r % 2) + c % 2
}

/// The black level that is taken off sample (`r`, `c`).
pub open spec fn black_offset(config: RawConfig, r: int, c: int) -> u32 {
    config.blacklevel@[config.beyer_pattern@[bayer_site(r, c)] as int] as u32
}

pub open spec fn saturating_sub(a: u32, b: u32) -> u32 {
    if a >= b {
        (a - b) as u32
    } else {
        0
    }
}

/// The correction works on whole 2x2 cells: a sample is corrected when its
/// cell starts inside the configured `height` by `width` area.
pub open spec fn corrected_sample(config: RawConfig, r: int, c: int, v: u32) -> u32 {
    if r < round_up_even(config.height as int) && c < round_up_even(config.width as int) {
        saturating_sub(v, black_offset(config, r, c))
    } else {
        v
    }
}

/// Every sample of `d`, corrected.
pub open spec fn corrected_rows(config: RawConfig, d: Seq<Seq<u32>>) -> Seq<Seq<u32>> {
    Seq::new(d.len(), |r: int| Seq::new(d[r].len(), |c: int| corrected_sample(config, r, c, d[r][c])))
}

/// The rows that the cell starting at row `h` touches are there and long enough.
///
/// A cell may reach one row below the last row of `d` and one sample past
/// the end of row `h`; samples there are treated as scratch space and
/// dropped. So row `h` may lie just below `d` when the cell has no columns,
/// row `h + 1` may when `width` is even, and row `h` may be one sample short.
pub open spec fn cell_rows_fit(config: RawConfig, d: Seq<Seq<u32>>, h: int) -> bool {
    let span = round_up_even(config.width as int);
    &&& h <= d.len()
    &&& config.width > 0 ==> {
        &&& h + 1 <= d.len()
        &&& d[h].len() + 1 >= span
        &&& h + 1 < d.len() ==> d[h + 1].len() >= span
        &&& h + 1 == d.len() ==> config.width % 2 == 0
    }
}

/// The inputs on which the correction indexes no sample that is missing.
pub open spec fn correction_fits(config: RawConfig, d: Seq<Seq<u32>>) -> bool {
    &&& (config.height > 0 && config.width > 0) ==> forall|k: int|
        0 <= k < 4 ==> #[trigger] config.beyer_pattern@[k] < 4
    &&& forall|h: int|
        0 <= h < config.height && h % 2 == 0 ==> #[trigger] cell_rows_fit(config, d, h)
}

/// The correction never raises a sample, and lowers it by at most the black
/// level of its Bayer site.
pub proof fn lemma_correction_never_raises(config: RawConfig, d: Seq<Seq<u32>>, r: int, c: int)
    requires
        0 <= r < d.len(),
        0 <= c < d[r].len(),
    ensures
        corrected_rows(config, d)[r][c] <= d[r][c],
        d[r][c] - corrected_rows(config, d)[r][c] <= black_offset(config, r, c),
{
}

/// Inside the corrected area, a sample loses exactly the full 16-bit black
/// level of its Bayer site (`blacklevel[beyer_pattern[2 * (r % 2) + c % 2]]`),
/// or drops to 0 when the level exceeds it; outside the area it is unchanged.
pub proof fn lemma_corrected_sample_value(config: RawConfig, d: Seq<Seq<u32>>, r: int, c: int)
    requires
        0 <= r < d.len(),
        0 <= c < d[r].len(),
        config.beyer_pattern@[2 * (r % 2) + c % 2] < 4,
    ensures
        (r < config.height + config.height % 2 && c < config.width + config.width % 2 && d[r][c]
            >= config.blacklevel@[config.beyer_pattern@[2 * (r % 2) + c % 2] as int]) ==> corrected_rows(
            config,
            d,
        )[r][c] + config.blacklevel@[config.beyer_pattern@[2 * (r % 2) + c % 2] as int] == d[r][c],
        (r < config.height + config.height % 2 && c < config.width + config.width % 2 && d[r][c]
            < config.blacklevel@[config.beyer_pattern@[2 * (r % 2) + c % 2] as int]) ==> corrected_rows(
            config,
            d,
        )[r][c] == 0,
        (r >= config.height + config.height % 2 || c >= config.width + config.width % 2)
            ==> corrected_rows(config, d)[r][c] == d[r][c],
{
    let level = config.blacklevel@[config.beyer_pattern@[2 * (r % 2) + c % 2] as int];
    assert(level as u32 as int == level as int);
}

/// The correction keeps the number of rows and the length of every row.
pub proof fn lemma_correction_keeps_shape(config: RawConfig, d: Seq<Seq<u32>>)
    ensures
        corrected_rows(config, d).len() == d.len(),
        forall|r: int| 0 <= r < d.len() ==> #[trigger] corrected_rows(config, d)[r].len() == d[r].len(),
{
}

/// With every black level zero, the correction leaves the image as it is.
pub proof fn lemma_zero_blacklevel_identity(config: RawConfig, d: Seq<Seq<u32>>)
    requires
        forall|k: int| 0 <= k < 4 ==> #[trigger] config.blacklevel@[k] == 0,
        forall|k: int| 0 <= k < 4 ==> #[trigger] config.beyer_pattern@[k] < 4,
    ensures
        corrected_rows(config, d) == d,
{
    assert forall|r: int| 0 <= r < d.len() implies #[trigger] corrected_rows(config, d)[r] =~= d[r] by {
        assert forall|c: int| 0 <= c < d[r].len() implies corrected_rows(config, d)[r][c] == d[r][c] by {
            let k = bayer_site(r, c);
            assert(0 <= k < 4);
            assert(config.beyer_pattern@[k] < 4);
            assert(config.blacklevel@[config.beyer_pattern@[k] as int] == 0);
        }
    }
    assert(corrected_rows(config, d) =~= d);
}

/// Whether black-level correction can run on `raw`: the Bayer pattern
/// names valid levels and every cell's rows are there and long enough.
pub fn correction_applicable(raw: &RawImage2D) -> (ok: bool)
    ensures
        ok == correction_fits(raw.config, rows(raw.data@)),
{
    let ghost d = rows(raw.data@);
    let height = raw.config.height;
    let width = raw.config.width;
    if height > 0 && width > 0 {
        let p = raw.config.beyer_pattern;
        if !(p[0] < 4 && p[1] < 4 && p[2] < 4 && p[3] < 4) {
            assert(!(raw.config.beyer_pattern@[0] < 4 && raw.config.beyer_pattern@[1] < 4
                && raw.config.beyer_pattern@[2] < 4 && raw.config.beyer_pattern@[3] < 4));
            return false;
        }
    }
    let n = raw.data.len();
    let row_pairs = height / 2 + height % 2;
    let mut i: usize = 0;
    while i < row_pairs
        invariant
            i <= row_pairs,
            row_pairs * 2 == round_up_even(height as int),
            height == raw.config.height,
            width == raw.config.width,
            n == d.len(),
            d == rows(raw.data@),
            forall|h: int| 0 <= h < 2 * i && h % 2 == 0 ==> #[trigger] cell_rows_fit(raw.config, d, h),
        decreases row_pairs - i,
    {
        let h = 2 * i;
        if h > n {
            assert(!cell_rows_fit(raw.config, d, h as int));
            return false;
        }
        if width > 0 {
            if h + 1 > n {
                assert(!cell_rows_fit(raw.config, d, h as int));
                return false;
            }
            assert(d[h as int] == raw.data@[h as int]@);
            let even = width % 2 == 0;
            let len_h = raw.data[h].len();
            if (even && len_h < width - 1) || (!even && len_h < width) {
                assert(!cell_rows_fit(raw.config, d, h as int));
                return false;
            }
            if h + 1 < n {
                assert(d[h + 1] == raw.data@[h + 1]@);
                let len_next = raw.data[h + 1].len();
                if (even && len_next < width) || (!even && len_next <= width) {
                    assert(!cell_rows_fit(raw.config, d, h as int));
                    return false;
                }
            } else if width % 2 != 0 {
                assert(!cell_rows_fit(raw.config, d, h as int));
                return false;
            }
        }
        assert(cell_rows_fit(raw.config, d, h as int));
        i = i + 1;
    }
    true
}

/// Subtracts the black level of each Bayer site from the samples, saturating
/// at zero. The rows are walked two at a time and the columns two at a time,
/// so the last cell of an odd `height` or `width` reaches one row or column
/// past it.
pub fn blacklevel_correction(raw: &mut RawImage2D)
    requires
        correction_fits(old(raw).config, rows(old(raw).data@)),
    ensures
        final(raw).config == old(raw).config,
        rows(final(raw).data@) == corrected_rows(old(raw).config, rows(old(raw).data@)),
{
    let ghost old_rows = rows(raw.data@);
    let ghost config = raw.config;
    let height = raw.config.height;
    let width = raw.config.width;
    if height == 0 || width == 0 {
        assert forall|r: int| 0 <= r < old_rows.len() implies
            #[trigger] rows(raw.data@)[r] =~= corrected_rows(config, old_rows)[r] by {}
        assert(rows(raw.data@) =~= corrected_rows(config, old_rows));
        return;
    }
    let blacklevel = raw.config.blacklevel;
    let beyer_pattern = raw.config.beyer_pattern;
    assert(beyer_pattern@[0] < 4 && beyer_pattern@[1] < 4);
    assert(beyer_pattern@[2] < 4 && beyer_pattern@[3] < 4);
    let off0 = blacklevel[beyer_pattern[0]] as u32;
    let off1 = blacklevel[beyer_pattern[1]] as u32;
    let off2 = blacklevel[beyer_pattern[2]] as u32;
    let off3 = blacklevel[beyer_pattern[3]] as u32;
    let n = raw.data.len();
    let row_pairs = height / 2 + height % 2;
    let col_pairs = width / 2 + width % 2;

    let mut i: usize = 0;
    while i < row_pairs
        invariant
            i <= row_pairs,
            row_pairs * 2 == round_up_even(height as int),
            col_pairs * 2 == round_up_even(width as int),
            height == config.height,
            width == config.width,
            width > 0,
            raw.config == config,
            n == old_rows.len(),
            correction_fits(config, old_rows),
            off0 == black_offset(config, 0, 0),
            off1 == black_offset(config, 0, 1),
            off2 == black_offset(config, 1, 0),
            off3 == black_offset(config, 1, 1),
            raw.data@.len() == n,
            forall|r: int| 0 <= r < n ==> (#[trigger] raw.data@[r])@.len() == old_rows[r].len(),
            forall|r: int, c: int|
                0 <= r < n && 0 <= c < old_rows[r].len() ==> #[trigger] raw.data@[r]@[c] == (
                if r < 2 * i {
                    corrected_sample(config, r, c, old_rows[r][c])
                } else {
                    old_rows[r][c]
                }),
        decreases row_pairs - i,
    {
        let h = 2 * i;
        assert(cell_rows_fit(config, old_rows, h as int));
        let mut j: usize = 0;
        while j < col_pairs
            invariant
                i < row_pairs,
                h == 2 * i,
                j <= col_pairs,
                row_pairs * 2 == round_up_even(height as int),
                col_pairs * 2 == round_up_even(width as int),
                height == config.height,
                width == config.width,
                width > 0,
                raw.config == config,
                n == old_rows.len(),
                cell_rows_fit(config, old_rows, h as int),
                off0 == black_offset(config, 0, 0),
                off1 == black_offset(config, 0, 1),
                off2 == black_offset(config, 1, 0),
                off3 == black_offset(config, 1, 1),
                raw.data@.len() == n,
                forall|r: int| 0 <= r < n ==> (#[trigger] raw.data@[r])@.len() == old_rows[r].len(),
                forall|r: int, c: int|
                    0 <= r < n && 0 <= c < old_rows[r].len() ==> #[trigger] raw.data@[r]@[c] == (
                    if r < 2 * i || ((r == h || r == h + 1) && c < 2 * j) {
                        corrected_sample(config, r, c, old_rows[r][c])
                    } else {
                        old_rows[r][c]
                    }),
            decreases col_pairs - j,
        {
            let w = 2 * j;
            assert(raw.data@[h as int]@.len() == old_rows[h as int].len());
            let v = raw.data[h][w];
            raw.data[h][w] = v.saturating_sub(off0);
            if w + 1 < raw.data[h].len() {
                let v = raw.data[h][w + 1];
                raw.data[h][w + 1] = v.saturating_sub(off1);
            }
            if h + 1 < n {
                assert(raw.data@[h + 1]@.len() == old_rows[h + 1].len());
                let v = raw.data[h + 1][w];
                raw.data[h + 1][w] = v.saturating_sub(off2);
                let v = raw.data[h + 1][w + 1];
                raw.data[h + 1][w + 1] = v.saturating_sub(off3);
            }
            j = j + 1;
        }
        i = i + 1;
    }
    assert forall|r: int| 0 <= r < old_rows.len() implies
        #[trigger] rows(raw.data@)[r] =~= corrected_rows(config, old_rows)[r] by {
        assert forall|c: int| 0 <= c < old_rows[r].len() implies
            rows(raw.data@)[r][c] == corrected_rows(config, old_rows)[r][c] by {
            assert(raw.data@[r]@[c] == (if r < 2 * i {
                corrected_sample(config, r, c, old_rows[r][c])
            } else {
                old_rows[r][c]
            }));
        }
    }
    assert(rows(raw.data@) =~= corrected_rows(config, old_rows));
}

} // verus!
