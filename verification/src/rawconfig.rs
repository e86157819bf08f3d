use vstd::prelude::*;

verus! {

/// Geometry and sensor levels of a raw image.
///
/// `blacklevel` holds one level per colour site of the 2x2 Bayer cell
/// (R, G, G, B order of the sensor), and `beyer_pattern[k]` says which of
/// those levels belongs to position `k` of the cell (`k = 2 * (row % 2) + col % 2`).
#[derive(Debug, Clone, Copy)]
pub struct RawConfig {
    pub height: usize,
    pub width: usize,
    pub cpp: usize,
    pub max: u32,
    pub blacklevel: [u16; 4],
    pub beyer_pattern: [usize; 4],
}

/// A raw image as the decoder delivers it: `height * width` samples in row-major order.
#[derive(Debug)]
pub struct RawImage {
    pub data: Vec<u16>,
    pub config: RawConfig,
}

/// A raw image laid out as rows of samples.
#[derive(Debug)]
pub struct RawImage2D {
    pub data: Vec<Vec<u32>>,
    pub config: RawConfig,
}

/// The samples of an image as a sequence of rows.
pub open spec fn rows(data: Seq<Vec<u32>>) -> Seq<Seq<u32>> {
    Seq::new(data.len(), |r: int| data[r]@)
}

/// `data` read as `height` rows of `width` samples each, in row-major order.
pub open spec fn grid_from_flat(data: Seq<u16>, height: nat, width: nat) -> Seq<Seq<u32>> {
    Seq::new(height, |r: int| Seq::new(width, |c: int| data[r * width + c] as u32))
}

/// Every sample that a `height` by `width` row-major image indexes lies in `data`.
pub open spec fn flat_fits(len: nat, height: nat, width: nat) -> bool {
    height == 0 || width == 0 || height * width <= len
}

proof fn lemma_flat_index(r: int, c: int, height: int, width: int)
    requires
        0 <= r < height,
        0 <= c < width,
    ensures
        0 <= r * width,
        r * width + c < height * width,
        r * width + c + 1 <= (r + 1) * width,
{
    assert(0 <= r * width) by (nonlinear_arith)
        requires 0 <= r, 0 <= width;
    assert((r + 1) * width <= height * width) by (nonlinear_arith)
        requires r + 1 <= height, 0 <= width;
    assert((r + 1) * width == r * width + width) by (nonlinear_arith);
}

/// Laying samples out keeps each one whole: cell (`r`, `c`) of the rows is
/// the 16-bit sample at `r * width + c`, with its value unchanged, and there
/// are `height` rows of `width` cells.
pub proof fn lemma_grid_from_flat_cells(data: Seq<u16>, height: nat, width: nat)
    requires
        flat_fits(data.len(), height, width),
    ensures
        grid_from_flat(data, height, width).len() == height,
        forall|r: int|
            0 <= r < height ==> (#[trigger] grid_from_flat(data, height, width)[r]).len() == width,
        forall|r: int, c: int|
            0 <= r < height && 0 <= c < width ==> (#[trigger] grid_from_flat(data, height, width)[r][c])
                as int == data[r * width + c] as int && 0 <= r * width + c < data.len(),
{
    assert forall|r: int, c: int| 0 <= r < height && 0 <= c < width implies (
    #[trigger] grid_from_flat(data, height, width)[r][c]) as int == data[r * width + c] as int && 0
        <= r * width + c < data.len() by {
        lemma_flat_index(r, c, height as int, width as int);
        let v = data[r * width + c];
        assert(v as u32 as int == v as int);
    }
}

impl RawImage2D {
    /// Lays the row-major samples of `rawimage` out as `height` rows of
    /// `width` samples; the configuration is kept.
    pub fn from1d(rawimage: RawImage) -> (res: Self)
        requires
            flat_fits(
                rawimage.data@.len(),
                rawimage.config.height as nat,
                rawimage.config.width as nat,
            ),
        ensures
            res.config == rawimage.config,
            rows(res.data@) == grid_from_flat(
                rawimage.data@,
                rawimage.config.height as nat,
                rawimage.config.width as nat,
            ),
            res.data@.len() == rawimage.config.height,
            forall|r: int|
                0 <= r < rawimage.config.height ==> (#[trigger] res.data@[r])@.len()
                    == rawimage.config.width,
            forall|r: int, c: int|
                0 <= r < rawimage.config.height && 0 <= c < rawimage.config.width ==> (
                #[trigger] res.data@[r]@[c]) as int == rawimage.data@[r * rawimage.config.width
                    + c] as int,
    {
        let height = rawimage.config.height;
        let width = rawimage.config.width;
        let ghost target = grid_from_flat(rawimage.data@, height as nat, width as nat);
        let n = rawimage.data.len();

        let mut data: Vec<Vec<u32>> = Vec::with_capacity(height);
        let mut h: usize = 0;
        while h < height
            invariant
                h <= height,
                height == rawimage.config.height,
                width == rawimage.config.width,
                flat_fits(rawimage.data@.len(), height as nat, width as nat),
                target == grid_from_flat(rawimage.data@, height as nat, width as nat),
                n == rawimage.data@.len(),
                data@.len() == h,
                forall|r: int| 0 <= r < h ==> (#[trigger] data@[r])@ == target[r],
            decreases height - h,
        {
            let mut row: Vec<u32> = Vec::with_capacity(width);
            let mut w: usize = 0;
            while w < width
                invariant
                    h < height,
                    w <= width,
                    height == rawimage.config.height,
                    width == rawimage.config.width,
                    flat_fits(rawimage.data@.len(), height as nat, width as nat),
                    target == grid_from_flat(rawimage.data@, height as nat, width as nat),
                    n == rawimage.data@.len(),
                    row@.len() == w,
                    forall|c: int| 0 <= c < w ==> #[trigger] row@[c] == target[h as int][c],
                decreases width - w,
            {
                proof {
                    lemma_flat_index(h as int, w as int, height as int, width as int);
                    assert(height * width <= n);
                }
                let idx = h * width + w;
                row.push(rawimage.data[idx] as u32);
                w = w + 1;
            }
            assert(row@ == target[h as int]);
            data.push(row);
            h = h + 1;
        }
        assert(rows(data@) == target);
        proof {
            lemma_grid_from_flat_cells(rawimage.data@, height as nat, width as nat);
            assert forall|r: int| 0 <= r < height implies (#[trigger] data@[r])@.len() == width by {
                assert(rows(data@)[r] == data@[r]@);
            }
            assert forall|r: int, c: int| 0 <= r < height && 0 <= c < width implies (
            #[trigger] data@[r]@[c]) as int == rawimage.data@[r * width + c] as int by {
                assert(rows(data@)[r] == data@[r]@);
                assert(target[r][c] as int == rawimage.data@[r * width + c] as int);
            }
        }
        RawImage2D { data, config: rawimage.config }
    }
}

} // verus!
