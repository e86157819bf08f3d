use raw_rs::raw_processor::blacklevel::blacklevel_correction;
use raw_rs::raw_processor::RawProcessor;
use raw_rs::rawconfig::{RawConfig, RawImage, RawImage2D};
use raw_rs::rgb_processor::demosaic::linear_correction;
use raw_rs::rgb_processor::{interleave_pixels, BayerSample, ChannelSum};
use raw_rs::using_rawloader::{decode, DecodedRaw, PixelData, SENSOR_MAX};

fn config(height: usize, width: usize, blacklevel: [u16; 4]) -> RawConfig {
    RawConfig {
        height,
        width,
        cpp: 1,
        max: 16300,
        blacklevel,
        beyer_pattern: [0, 1, 1, 2],
    }
}

fn image2d(data: Vec<Vec<u32>>, blacklevel: [u16; 4]) -> RawImage2D {
    let height = data.len();
    let width = if height > 0 { data[0].len() } else { 0 };
    RawImage2D {
        data,
        config: config(height, width, blacklevel),
    }
}

fn sums(px: &BayerSample) -> [(u32, u32); 3] {
    [
        (px.red.sum, px.red.count),
        (px.green.sum, px.green.count),
        (px.blue.sum, px.blue.count),
    ]
}

#[test]
fn from1d_lays_out_rows() {
    let raw = RawImage {
        data: vec![1, 2, 3, 4, 5, 6, 7],
        config: config(2, 3, [0; 4]),
    };
    let img = RawImage2D::from1d(raw);
    assert_eq!(img.data, vec![vec![1u32, 2, 3], vec![4, 5, 6]]);
    assert_eq!(img.config.height, 2);
    assert_eq!(img.config.width, 3);
}

#[test]
fn from1d_empty_image() {
    let raw = RawImage {
        data: vec![],
        config: config(0, 5, [0; 4]),
    };
    let img = RawImage2D::from1d(raw);
    assert!(img.data.is_empty());
}

#[test]
fn blacklevel_subtracts_per_site() {
    // pattern [0, 1, 1, 2]: sites 0, 1, 2, 3 take levels 10, 20, 20, 30
    let mut img = image2d(
        vec![vec![100, 100, 100, 100], vec![100, 100, 100, 100]],
        [10, 20, 30, 40],
    );
    RawProcessor::blacklevel_correction(&mut img);
    assert_eq!(img.data, vec![vec![90, 80, 90, 80], vec![80, 70, 80, 70]]);
}

#[test]
fn blacklevel_saturates_at_zero() {
    let mut img = image2d(vec![vec![5, 100], vec![0, 1000]], [10, 20, 30, 40]);
    blacklevel_correction(&mut img);
    assert_eq!(img.data, vec![vec![0, 80], vec![0, 970]]);
}

#[test]
fn blacklevel_odd_height_reaches_extra_row() {
    // height 1 but a second row is present: the cell covers it too
    let mut img = RawImage2D {
        data: vec![vec![50, 50], vec![50, 50], vec![50, 50]],
        config: config(1, 2, [1, 2, 3, 4]),
    };
    blacklevel_correction(&mut img);
    assert_eq!(img.data, vec![vec![49, 48], vec![48, 47], vec![50, 50]]);
}

#[test]
fn blacklevel_odd_height_without_extra_row() {
    let mut img = image2d(vec![vec![50, 50]], [1, 2, 3, 4]);
    blacklevel_correction(&mut img);
    assert_eq!(img.data, vec![vec![49, 48]]);
}

#[test]
fn blacklevel_zero_levels_leave_image() {
    let data = vec![vec![7, 8, 9, 10], vec![11, 12, 13, 14], vec![1, 2, 3, 4]];
    let mut img = image2d(data.clone(), [0; 4]);
    blacklevel_correction(&mut img);
    assert_eq!(img.data, data);
}

#[test]
fn blacklevel_outside_configured_area_untouched() {
    let mut img = RawImage2D {
        data: vec![vec![9, 9, 9, 9], vec![9, 9, 9, 9], vec![9, 9, 9, 9]],
        config: config(2, 2, [1, 1, 1, 1]),
    };
    blacklevel_correction(&mut img);
    assert_eq!(img.data, vec![vec![8, 8, 9, 9], vec![8, 8, 9, 9], vec![9, 9, 9, 9]]);
}

#[test]
fn demosaic_three_by_three() {
    let img = image2d(vec![vec![1, 2, 3], vec![4, 5, 6], vec![7, 8, 9]], [0; 4]);
    let out = linear_correction(&img);
    assert_eq!(out.len(), 1);
    assert_eq!(out[0].len(), 1);
    // (1, 1) is site 3 (blue): red from the diagonals, green from the cross
    assert_eq!(sums(&out[0][0]), [(1 + 3 + 7 + 9, 4), (4 + 2 + 8 + 6, 4), (5, 1)]);
}

#[test]
fn demosaic_sites_of_four_by_four() {
    let data: Vec<Vec<u32>> = (0..4)
        .map(|r| (0..4).map(|c| (10 * r + c) as u32).collect())
        .collect();
    let img = image2d(data, [0; 4]);
    let out = linear_correction(&img);
    assert_eq!(out.len(), 2);
    assert_eq!(out[0].len(), 2);
    // (1, 1): site 3
    assert_eq!(sums(&out[0][0]), [(0 + 20 + 2 + 22, 4), (10 + 1 + 21 + 12, 4), (11, 1)]);
    // (1, 2): site 2: red horizontal, green centre, blue vertical
    assert_eq!(sums(&out[0][1]), [(11 + 13, 2), (12, 1), (2 + 22, 2)]);
    // (2, 1): site 1: red vertical, green centre, blue horizontal
    assert_eq!(sums(&out[1][0]), [(11 + 31, 2), (21, 1), (20 + 22, 2)]);
    // (2, 2): site 0: red centre, green cross, blue diagonals
    assert_eq!(sums(&out[1][1]), [(22, 1), (21 + 12 + 32 + 23, 4), (11 + 31 + 13 + 33, 4)]);
}

#[test]
fn demosaic_flat_field_averages_to_value() {
    let img = image2d(vec![vec![7; 5]; 5], [0; 4]);
    let out = linear_correction(&img);
    assert_eq!(out.len(), 3);
    for row in &out {
        assert_eq!(row.len(), 3);
        for px in row {
            for (sum, count) in sums(px) {
                assert_eq!(sum, count * 7);
            }
        }
    }
}

#[test]
fn demosaic_two_rows_gives_nothing() {
    let img = image2d(vec![vec![1, 2, 3], vec![4, 5, 6]], [0; 4]);
    assert!(linear_correction(&img).is_empty());
}

#[test]
fn demosaic_own_site_is_single_sample() {
    let c = ChannelSum { sum: 5, count: 1 };
    let img = image2d(vec![vec![1, 2, 3], vec![4, 5, 6], vec![7, 8, 9]], [0; 4]);
    let out = linear_correction(&img);
    assert_eq!((out[0][0].blue.sum, out[0][0].blue.count), (c.sum, c.count));
}

#[test]
fn decode_integer_samples() {
    let raw = decode(DecodedRaw {
        width: 2,
        height: 1,
        cpp: 1,
        blacklevels: [512, 513, 514, 515],
        data: PixelData::Integer(vec![600, 700]),
    })
    .unwrap();
    assert_eq!(raw.data, vec![600, 700]);
    assert_eq!(raw.config.height, 1);
    assert_eq!(raw.config.width, 2);
    assert_eq!(raw.config.cpp, 1);
    assert_eq!(raw.config.max, SENSOR_MAX);
    assert_eq!(raw.config.max, 16300);
    assert_eq!(raw.config.blacklevel, [512, 513, 514, 515]);
    assert_eq!(raw.config.beyer_pattern, [0, 1, 1, 2]);
}

#[test]
fn decode_float_samples_refused() {
    let e = decode(DecodedRaw {
        width: 2,
        height: 1,
        cpp: 1,
        blacklevels: [0; 4],
        data: PixelData::Float,
    })
    .unwrap_err();
    assert_eq!(e.message(), "decode error");
}

#[test]
fn pipeline_decode_lay_out_correct_demosaic() {
    let samples: Vec<u16> = vec![
        110, 120, 130, 140, //
        150, 160, 170, 180, //
        190, 200, 210, 220, //
    ];
    let raw = decode(DecodedRaw {
        width: 4,
        height: 3,
        cpp: 1,
        blacklevels: [10, 20, 30, 40],
        data: PixelData::Integer(samples),
    })
    .unwrap();
    let mut img = RawImage2D::from1d(raw);
    RawProcessor::blacklevel_correction(&mut img);
    // sites 0, 1, 2, 3 take levels 10, 20, 20, 30; the odd last row is covered too
    assert_eq!(
        img.data,
        vec![
            vec![100, 100, 120, 120],
            vec![130, 130, 150, 150],
            vec![180, 180, 200, 200],
        ]
    );
    let out = linear_correction(&img);
    assert_eq!(out.len(), 1);
    assert_eq!(out[0].len(), 2);
    // (1, 1): site 3
    assert_eq!(sums(&out[0][0]), [(100 + 180 + 120 + 200, 4), (130 + 100 + 180 + 150, 4), (130, 1)]);
}

#[test]
fn interleave_pixels_row_major() {
    let rows = vec![
        vec![[1u8, 2, 3], [4, 5, 6]],
        vec![[7u8, 8, 9], [10, 11, 12], [99, 99, 99]],
    ];
    let (w, h, bytes) = interleave_pixels(&rows);
    assert_eq!((w, h), (2, 2));
    assert_eq!(bytes, vec![1, 2, 3, 4, 5, 6, 7, 8, 9, 10, 11, 12]);
}

#[test]
fn interleave_pixels_empty_rows() {
    let rows: Vec<Vec<[u8; 3]>> = vec![vec![], vec![]];
    let (w, h, bytes) = interleave_pixels(&rows);
    assert_eq!((w, h), (0, 2));
    assert!(bytes.is_empty());
}
