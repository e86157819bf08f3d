use vstd::prelude::*;

pub mod demosaic;

verus! {

/// The sum of the neighbouring samples of one colour that a demosaiced
/// pixel is averaged from, and how many samples went into it.
#[derive(Debug, Clone, Copy)]
pub struct ChannelSum {
    pub sum: u32,
    pub count: u32,
}

/// The red, green and blue sums of one demosaiced pixel. The colour value
/// of a channel is `sum / count` scaled to the sensor's `max`.
#[derive(Debug, Clone, Copy)]
pub struct BayerSample {
    pub red: ChannelSum,
    pub green: ChannelSum,
    pub blue: ChannelSum,
}

/// The rows of 8-bit RGB pixels that an output image is made of hold
/// `rows[0].len()` pixels each at least, and the image fits in memory.
pub open spec fn image_rows_fit(rows: Seq<Seq<[u8; 3]>>) -> bool {
    &&& rows.len() > 0
    &&& forall|y: int| 0 <= y < rows.len() ==> #[trigger] rows[y].len() >= rows[0].len()
    &&& rows.len() <= u32::MAX
    &&& rows[0].len() <= u32::MAX
    &&& 3 * rows.len() * rows[0].len() <= usize::MAX
}

proof fn lemma_pixel_index(y: int, x: int, yy: int, xx: int, w: int)
    requires
        0 <= yy,
        0 <= xx < w,
        0 <= x <= w,
        yy < y || (yy == y && xx < x),
    ensures
        0 <= yy * w + xx < y * w + x,
{
    assert(0 <= yy * w) by (nonlinear_arith)
        requires 0 <= yy, 0 <= w;
    if yy < y {
        assert(yy * w + w <= y * w) by (nonlinear_arith)
            requires yy + 1 <= y, 0 <= w;
    }
}

/// Lays the pixels out as an image buffer does: `(width, height, bytes)`
/// with the width of the first row, the number of rows, and the red, green
/// and blue bytes of each pixel in row-major order.
pub fn interleave_pixels(rows: &Vec<Vec<[u8; 3]>>) -> (res: (u32, u32, Vec<u8>))
    requires
        image_rows_fit(Seq::new(rows@.len(), |y: int| rows@[y]@)),
    ensures
        res.0 == rows@[0]@.len(),
        res.1 == rows@.len(),
        res.2@.len() == 3 * res.0 * res.1,
        forall|y: int, x: int, k: int|
            0 <= y < res.1 && 0 <= x < res.0 && 0 <= k < 3 ==> res.2@[3 * (y * res.0 + x) + k]
                == #[trigger] rows@[y]@[x][k],
{
    let ghost r = Seq::new(rows@.len(), |y: int| rows@[y]@);
    let height = rows.len();
    let width = rows[0].len();
    assert(r[0] == rows@[0]@);
    let mut bytes: Vec<u8> = Vec::new();
    let mut y: usize = 0;
    while y < height
        invariant
            y <= height,
            height == rows@.len(),
            width == rows@[0]@.len(),
            r == Seq::new(rows@.len(), |y: int| rows@[y]@),
            image_rows_fit(r),
            bytes@.len() == 3 * (y * width),
            forall|yy: int, xx: int, k: int|
                0 <= yy < y && 0 <= xx < width && 0 <= k < 3 ==> bytes@[3 * (yy * width + xx) + k]
                    == #[trigger] rows@[yy]@[xx][k],
        decreases height - y,
    {
        assert(r[y as int] == rows@[y as int]@);
        assert(r[y as int].len() >= r[0].len());
        let mut x: usize = 0;
        while x < width
            invariant
                y < height,
                x <= width,
                height == rows@.len(),
                width == rows@[0]@.len(),
                rows@[y as int]@.len() >= width,
                image_rows_fit(r),
                bytes@.len() == 3 * (y * width + x),
                forall|yy: int, xx: int, k: int|
                    (0 <= yy < y && 0 <= xx < width || yy == y && 0 <= xx < x) && 0 <= k < 3
                        ==> bytes@[3 * (yy * width + xx) + k] == #[trigger] rows@[yy]@[xx][k],
            decreases width - x,
        {
            assert(y * width + x < height * width) by (nonlinear_arith)
                requires y < height, x < width;
            let px = rows[y][x];
            let ghost before = bytes@;
            bytes.push(px[0]);
            bytes.push(px[1]);
            bytes.push(px[2]);
            assert forall|yy: int, xx: int, k: int|
                (0 <= yy < y && 0 <= xx < width || yy == y && 0 <= xx < x + 1) && 0 <= k < 3
                    implies bytes@[3 * (yy * width + xx) + k] == #[trigger] rows@[yy]@[xx][k] by {
                if yy == y && xx == x {
                } else {
                    lemma_pixel_index(y as int, x as int, yy, xx, width as int);
                    assert(bytes@[3 * (yy * width + xx) + k] == before[3 * (yy * width + xx) + k]);
                }
            }
            x = x + 1;
        }
        assert((y + 1) * width == y * width + width) by (nonlinear_arith);
        y = y + 1;
    }
    assert(bytes@.len() == 3 * width * height) by (nonlinear_arith)
        requires bytes@.len() == 3 * (height * width);
    (width as u32, height as u32, bytes)
}

} // verus!
