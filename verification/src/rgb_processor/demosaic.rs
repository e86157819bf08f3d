use vstd::prelude::*;
use crate::raw_processor::blacklevel::bayer_site;
use crate::rawconfig::{rows, RawImage2D};
use crate::rgb_processor::{BayerSample, ChannelSum};

verus! {

/// Sample (`r`, `c`) of `d` exists.
pub open spec fn present(d: Seq<Seq<u32>>, r: int, c: int) -> bool {
    0 <= r < d.len() && 0 <= c < d[r].len()
}

pub open spec fn at(d: Seq<Seq<u32>>, r: int, c: int) -> int {
    d[r][c] as int
}

/// The four samples left, above, below and right of (`r`, `c`).
pub open spec fn cross_sum(d: Seq<Seq<u32>>, r: int, c: int) -> int {
    at(d, r, c - 1) + at(d, r - 1, c) + at(d, r + 1, c) + at(d, r, c + 1)
}

/// The four samples diagonal to (`r`, `c`).
pub open spec fn diagonal_sum(d: Seq<Seq<u32>>, r: int, c: int) -> int {
    at(d, r - 1, c - 1) + at(d, r + 1, c - 1) + at(d, r - 1, c + 1) + at(d, r + 1, c + 1)
}

/// The samples above and below (`r`, `c`).
pub open spec fn vertical_sum(d: Seq<Seq<u32>>, r: int, c: int) -> int {
    at(d, r - 1, c) + at(d, r + 1, c)
}

/// The samples left and right of (`r`, `c`).
pub open spec fn horizontal_sum(d: Seq<Seq<u32>>, r: int, c: int) -> int {
    at(d, r, c - 1) + at(d, r, c + 1)
}

/// Red, green and blue sums at (`r`, `c`): the sample itself gives the
/// colour of its own Bayer site, and the neighbours that carry the other
/// colours give the rest (site 0 red, sites 1 and 2 green, site 3 blue).
pub open spec fn bayer_sums(d: Seq<Seq<u32>>, r: int, c: int) -> (int, int, int) {
    let s = bayer_site(r, c);
    if s == 0 {
        (at(d, r, c), cross_sum(d, r, c), diagonal_sum(d, r, c))
    } else if s == 1 {
        (vertical_sum(d, r, c), at(d, r, c), horizontal_sum(d, r, c))
    } else if s == 2 {
        (horizontal_sum(d, r, c), at(d, r, c), vertical_sum(d, r, c))
    } else {
        (diagonal_sum(d, r, c), cross_sum(d, r, c), at(d, r, c))
    }
}

/// How many samples each of the red, green and blue sums at (`r`, `c`) holds.
pub open spec fn bayer_counts(r: int, c: int) -> (u32, u32, u32) {
    let s = bayer_site(r, c);
    if s == 0 {
        (1, 4, 4)
    } else if s == 1 || s == 2 {
        (2, 1, 2)
    } else {
        (4, 4, 1)
    }
}

/// The demosaiced pixel at (`r`, `c`).
pub open spec fn demosaic_sample(d: Seq<Seq<u32>>, r: int, c: int) -> BayerSample {
    let (rs, gs, bs) = bayer_sums(d, r, c);
    let (rn, gn, bn) = bayer_counts(r, c);
    BayerSample {
        red: ChannelSum { sum: rs as u32, count: rn },
        green: ChannelSum { sum: gs as u32, count: gn },
        blue: ChannelSum { sum: bs as u32, count: bn },
    }
}

/// The samples that the pixel at (`r`, `c`) reads are there, and its sums fit a `u32`.
pub open spec fn demosaic_defined(d: Seq<Seq<u32>>, r: int, c: int) -> bool {
    let s = bayer_site(r, c);
    let (rs, gs, bs) = bayer_sums(d, r, c);
    &&& present(d, r, c)
    &&& present(d, r - 1, c) && present(d, r + 1, c)
    &&& present(d, r, c - 1) && present(d, r, c + 1)
    &&& (s == 0 || s == 3) ==> {
        &&& present(d, r - 1, c - 1) && present(d, r + 1, c - 1)
        &&& present(d, r - 1, c + 1) && present(d, r + 1, c + 1)
    }
    &&& rs <= u32::MAX && gs <= u32::MAX && bs <= u32::MAX
}

/// The inputs on which bilinear demosaicing of a `height` by `width` image runs.
pub open spec fn demosaic_fits(d: Seq<Seq<u32>>, height: int, width: int) -> bool {
    &&& height >= 2
    &&& d.len() > 0
    &&& height >= 3 ==> width >= 2
    &&& forall|r: int, c: int|
        1 <= r < height - 1 && 1 <= c < width - 1 ==> #[trigger] demosaic_defined(d, r, c)
}

/// At a red or blue site (row and column of the same parity), green is the
/// sum of the four samples left, above, below and right, and the opposite
/// colour the sum of the four diagonal samples, each over 4 samples.
pub proof fn lemma_corner_site_sums(d: Seq<Seq<u32>>, r: int, c: int)
    requires
        demosaic_defined(d, r, c),
        r % 2 == c % 2,
    ensures
        demosaic_sample(d, r, c).green.count == 4,
        demosaic_sample(d, r, c).green.sum as int == d[r][c - 1] as int + d[r - 1][c] as int
            + d[r + 1][c] as int + d[r][c + 1] as int,
        r % 2 == 0 ==> demosaic_sample(d, r, c).blue.count == 4,
        r % 2 == 0 ==> demosaic_sample(d, r, c).blue.sum as int == d[r - 1][c - 1] as int + d[r
            + 1][c - 1] as int + d[r - 1][c + 1] as int + d[r + 1][c + 1] as int,
        r % 2 == 1 ==> demosaic_sample(d, r, c).red.count == 4,
        r % 2 == 1 ==> demosaic_sample(d, r, c).red.sum as int == d[r - 1][c - 1] as int + d[r
            + 1][c - 1] as int + d[r - 1][c + 1] as int + d[r + 1][c + 1] as int,
{
}

/// At a green site (row and column of different parity), red and blue are
/// the sums of the two samples above and below and of the two samples left
/// and right: vertical for red on an even row, horizontal for red on an odd row.
pub proof fn lemma_green_site_sums(d: Seq<Seq<u32>>, r: int, c: int)
    requires
        demosaic_defined(d, r, c),
        r % 2 != c % 2,
    ensures
        demosaic_sample(d, r, c).red.count == 2,
        demosaic_sample(d, r, c).blue.count == 2,
        r % 2 == 0 ==> demosaic_sample(d, r, c).red.sum as int == d[r - 1][c] as int + d[r
            + 1][c] as int,
        r % 2 == 0 ==> demosaic_sample(d, r, c).blue.sum as int == d[r][c - 1] as int + d[r][c
            + 1] as int,
        r % 2 == 1 ==> demosaic_sample(d, r, c).red.sum as int == d[r][c - 1] as int + d[r][c
            + 1] as int,
        r % 2 == 1 ==> demosaic_sample(d, r, c).blue.sum as int == d[r - 1][c] as int + d[r
            + 1][c] as int,
{
}

/// A pixel at a red or blue site can be computed exactly when its nine
/// samples are there and neither the sum of its four side neighbours nor
/// the sum of its four diagonal neighbours exceeds `u32::MAX`.
pub proof fn lemma_corner_site_defined(d: Seq<Seq<u32>>, r: int, c: int)
    requires
        r % 2 == c % 2,
    ensures
        demosaic_defined(d, r, c) <==> (present(d, r, c) && present(d, r - 1, c) && present(
            d,
            r + 1,
            c,
        ) && present(d, r, c - 1) && present(d, r, c + 1) && present(d, r - 1, c - 1) && present(
            d,
            r + 1,
            c - 1,
        ) && present(d, r - 1, c + 1) && present(d, r + 1, c + 1) && d[r][c - 1] as int + d[r
            - 1][c] as int + d[r + 1][c] as int + d[r][c + 1] as int <= u32::MAX && d[r - 1][c
            - 1] as int + d[r + 1][c - 1] as int + d[r - 1][c + 1] as int + d[r + 1][c + 1] as int
            <= u32::MAX),
{
}

/// A pixel at a green site can be computed exactly when its own sample and
/// its four side neighbours are there and neither the vertical nor the
/// horizontal pair sums past `u32::MAX`.
pub proof fn lemma_green_site_defined(d: Seq<Seq<u32>>, r: int, c: int)
    requires
        r % 2 != c % 2,
    ensures
        demosaic_defined(d, r, c) <==> (present(d, r, c) && present(d, r - 1, c) && present(
            d,
            r + 1,
            c,
        ) && present(d, r, c - 1) && present(d, r, c + 1) && d[r - 1][c] as int + d[r + 1][c] as int
            <= u32::MAX && d[r][c - 1] as int + d[r][c + 1] as int <= u32::MAX),
{
}

/// Every pixel keeps its own sample, alone, as the channel of its Bayer site.
pub proof fn lemma_own_site_channel(d: Seq<Seq<u32>>, r: int, c: int)
    requires
        demosaic_defined(d, r, c),
    ensures
        bayer_site(r, c) == 0 ==> demosaic_sample(d, r, c).red == (ChannelSum { sum: d[r][c], count: 1 }),
        (bayer_site(r, c) == 1 || bayer_site(r, c) == 2) ==> demosaic_sample(d, r, c).green
            == (ChannelSum { sum: d[r][c], count: 1 }),
        bayer_site(r, c) == 3 ==> demosaic_sample(d, r, c).blue == (ChannelSum { sum: d[r][c], count: 1 }),
{
}

/// On an image whose samples all equal `v`, every channel of every pixel
/// averages to `v`: its sum is its count times `v`.
pub proof fn lemma_flat_field(d: Seq<Seq<u32>>, v: u32, r: int, c: int)
    requires
        demosaic_defined(d, r, c),
        forall|i: int, j: int| present(d, i, j) ==> #[trigger] d[i][j] == v,
    ensures
        demosaic_sample(d, r, c).red.sum == demosaic_sample(d, r, c).red.count * v,
        demosaic_sample(d, r, c).green.sum == demosaic_sample(d, r, c).green.count * v,
        demosaic_sample(d, r, c).blue.sum == demosaic_sample(d, r, c).blue.count * v,
{
    assert(d[r][c] == v);
    assert(d[r - 1][c] == v);
    assert(d[r + 1][c] == v);
    assert(d[r][c - 1] == v);
    assert(d[r][c + 1] == v);
    let s = bayer_site(r, c);
    assert(vertical_sum(d, r, c) == 2 * v);
    assert(horizontal_sum(d, r, c) == 2 * v);
    assert(cross_sum(d, r, c) == 4 * v);
    if s == 0 || s == 3 {
        assert(d[r - 1][c - 1] == v);
        assert(d[r + 1][c - 1] == v);
        assert(d[r - 1][c + 1] == v);
        assert(d[r + 1][c + 1] == v);
        assert(diagonal_sum(d, r, c) == 4 * v);
    }
    let px = demosaic_sample(d, r, c);
    if s == 0 {
        assert(px.red.count == 1 && px.green.count == 4 && px.blue.count == 4);
    } else if s == 1 || s == 2 {
        assert(px.red.count == 2 && px.green.count == 1 && px.blue.count == 2);
    } else {
        assert(px.red.count == 4 && px.green.count == 4 && px.blue.count == 1);
    }
}

/// Whether sample (`r`, `c`) exists.
fn sample_present(data: &Vec<Vec<u32>>, r: usize, c: usize) -> (ok: bool)
    ensures
        ok == present(rows(data@), r as int, c as int),
{
    r < data.len() && c < data[r].len()
}

/// Whether the pixel at (`r`, `c`) can be computed.
fn pixel_defined(data: &Vec<Vec<u32>>, r: usize, c: usize) -> (ok: bool)
    requires
        1 <= r < usize::MAX,
        1 <= c < usize::MAX,
    ensures
        ok == demosaic_defined(rows(data@), r as int, c as int),
{
    let ghost d = rows(data@);
    let site = (r % 2) * 2 + c % 2;
    let near = sample_present(data, r, c) && sample_present(data, r - 1, c) && sample_present(
        data,
        r + 1,
        c,
    ) && sample_present(data, r, c - 1) && sample_present(data, r, c + 1);
    if !near {
        return false;
    }
    let diagonal_needed = site == 0 || site == 3;
    if diagonal_needed {
        let far = sample_present(data, r - 1, c - 1) && sample_present(data, r + 1, c - 1)
            && sample_present(data, r - 1, c + 1) && sample_present(data, r + 1, c + 1);
        if !far {
            return false;
        }
    }
    assert(d[r as int] == data@[r as int]@);
    assert(d[r - 1] == data@[r - 1]@);
    assert(d[r + 1] == data@[r + 1]@);
    let center = data[r][c] as u64;
    let vertical = data[r - 1][c] as u64 + data[r + 1][c] as u64;
    let horizontal = data[r][c - 1] as u64 + data[r][c + 1] as u64;
    let max = u32::MAX as u64;
    if diagonal_needed {
        let diagonal = data[r - 1][c - 1] as u64 + data[r + 1][c - 1] as u64
            + data[r - 1][c + 1] as u64 + data[r + 1][c + 1] as u64;
        diagonal <= max && horizontal + vertical <= max
    } else {
        vertical <= max && horizontal <= max
    }
}

/// Whether `linear_correction` can run on `raw`.
pub fn demosaic_applicable(raw: &RawImage2D) -> (ok: bool)
    ensures
        ok == demosaic_fits(rows(raw.data@), raw.config.height as int, raw.config.width as int),
{
    let ghost d = rows(raw.data@);
    let height = raw.config.height;
    let width = raw.config.width;
    if height < 2 || raw.data.len() == 0 || (height >= 3 && width < 2) {
        return false;
    }
    let mut r: usize = 1;
    while r < height - 1
        invariant
            1 <= r <= height - 1,
            height >= 2,
            height >= 3 ==> width >= 2,
            height == raw.config.height,
            width == raw.config.width,
            d == rows(raw.data@),
            d.len() > 0,
            forall|i: int, j: int|
                1 <= i < r && 1 <= j < width - 1 ==> #[trigger] demosaic_defined(d, i, j),
        decreases height - 1 - r,
    {
        let mut c: usize = 1;
        while c < width - 1
            invariant
                1 <= r < height - 1,
                1 <= c <= width - 1,
                width >= 2,
                height == raw.config.height,
                width == raw.config.width,
                d == rows(raw.data@),
                forall|i: int, j: int|
                    1 <= i < r && 1 <= j < width - 1 ==> #[trigger] demosaic_defined(d, i, j),
                forall|j: int| 1 <= j < c ==> #[trigger] demosaic_defined(d, r as int, j),
            decreases width - 1 - c,
        {
            if !pixel_defined(&raw.data, r, c) {
                return false;
            }
            c = c + 1;
        }
        r = r + 1;
    }
    true
}

/// The pixel at (`r`, `c`): the sums of the neighbours of each colour.
fn demosaic_pixel(data: &Vec<Vec<u32>>, r: usize, c: usize) -> (px: BayerSample)
    requires
        1 <= r,
        1 <= c,
        demosaic_defined(rows(data@), r as int, c as int),
    ensures
        px == demosaic_sample(rows(data@), r as int, c as int),
{
    let ghost d = rows(data@);
    assert(d[r as int] == data@[r as int]@);
    assert(d[r - 1] == data@[r - 1]@);
    assert(d[r + 1] == data@[r + 1]@);
    let rows_len = data.len();
    let row_len = data[r].len();
    assert(r + 1 < rows_len && c + 1 < row_len);
    let site = (r % 2) * 2 + c % 2;
    let center = data[r][c];
    let up = data[r - 1][c];
    let down = data[r + 1][c];
    let left = data[r][c - 1];
    let right = data[r][c + 1];
    if site == 0 || site == 3 {
        let diagonal = data[r - 1][c - 1] + data[r + 1][c - 1] + data[r - 1][c + 1]
            + data[r + 1][c + 1];
        let cross = left + up + down + right;
        if site == 0 {
            BayerSample {
                red: ChannelSum { sum: center, count: 1 },
                green: ChannelSum { sum: cross, count: 4 },
                blue: ChannelSum { sum: diagonal, count: 4 },
            }
        } else {
            BayerSample {
                red: ChannelSum { sum: diagonal, count: 4 },
                green: ChannelSum { sum: cross, count: 4 },
                blue: ChannelSum { sum: center, count: 1 },
            }
        }
    } else if site == 1 {
        BayerSample {
            red: ChannelSum { sum: up + down, count: 2 },
            green: ChannelSum { sum: center, count: 1 },
            blue: ChannelSum { sum: left + right, count: 2 },
        }
    } else {
        BayerSample {
            red: ChannelSum { sum: left + right, count: 2 },
            green: ChannelSum { sum: center, count: 1 },
            blue: ChannelSum { sum: up + down, count: 2 },
        }
    }
}

/// Bilinear demosaicing, integer stage: for every pixel that is not on the
/// border of the `height` by `width` image, the sums of its neighbours of
/// each colour. Row `i`, column `j` of the result is the pixel at
/// (`i + 1`, `j + 1`) of the image.
pub fn linear_correction(raw: &RawImage2D) -> (res: Vec<Vec<BayerSample>>)
    requires
        demosaic_fits(rows(raw.data@), raw.config.height as int, raw.config.width as int),
    ensures
        res@.len() == raw.config.height - 2,
        forall|i: int|
            0 <= i < res@.len() ==> (#[trigger] res@[i])@.len() == raw.config.width - 2,
        forall|i: int, j: int|
            0 <= i < res@.len() && 0 <= j < res@[i]@.len() ==> #[trigger] res@[i]@[j]
                == demosaic_sample(rows(raw.data@), i + 1, j + 1),
{
    let ghost d = rows(raw.data@);
    let height = raw.config.height;
    let width = raw.config.width;
    let data = &raw.data;
    let mut rgbdata: Vec<Vec<BayerSample>> = Vec::with_capacity(height - 2);
    let mut h: usize = 1;
    while h < height - 1
        invariant
            1 <= h <= height - 1,
            height >= 2,
            height == raw.config.height,
            width == raw.config.width,
            data == &raw.data,
            d == rows(raw.data@),
            demosaic_fits(d, height as int, width as int),
            rgbdata@.len() == h - 1,
            forall|i: int| 0 <= i < rgbdata@.len() ==> (#[trigger] rgbdata@[i])@.len() == width - 2,
            forall|i: int, j: int|
                0 <= i < rgbdata@.len() && 0 <= j < rgbdata@[i]@.len() ==> #[trigger] rgbdata@[i]@[j]
                    == demosaic_sample(d, i + 1, j + 1),
        decreases height - 1 - h,
    {
        let mut row: Vec<BayerSample> = Vec::with_capacity(width - 2);
        let mut w: usize = 1;
        while w < width - 1
            invariant
                1 <= h < height - 1,
                1 <= w <= width - 1,
                width >= 2,
                height == raw.config.height,
                width == raw.config.width,
                data == &raw.data,
                d == rows(raw.data@),
                demosaic_fits(d, height as int, width as int),
                row@.len() == w - 1,
                forall|j: int| 0 <= j < row@.len() ==> #[trigger] row@[j]
                    == demosaic_sample(d, h as int, j + 1),
            decreases width - 1 - w,
        {
            assert(demosaic_defined(d, h as int, w as int));
            let px = demosaic_pixel(data, h, w);
            row.push(px);
            w = w + 1;
        }
        rgbdata.push(row);
        h = h + 1;
    }
    rgbdata
}

} // verus!
