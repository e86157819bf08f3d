use raw_rs::raw_processor::blacklevel::correction_applicable;
use raw_rs::rawconfig::{RawConfig, RawImage2D};
use raw_rs::rgb_processor::demosaic::demosaic_applicable;

fn image(data: Vec<Vec<u32>>, height: usize, width: usize, pattern: [usize; 4]) -> RawImage2D {
    RawImage2D {
        data,
        config: RawConfig {
            height,
            width,
            cpp: 1,
            max: 16300,
            blacklevel: [1, 2, 3, 4],
            beyer_pattern: pattern,
        },
    }
}

#[test]
fn correction_applies_to_even_width() {
    let img = image(vec![vec![0; 4]; 3], 3, 4, [0, 1, 1, 2]);
    assert!(correction_applicable(&img));
}

#[test]
fn correction_refuses_odd_width() {
    // the cell at the last column reaches past the next row
    let img = image(vec![vec![0; 3]; 2], 2, 3, [0, 1, 1, 2]);
    assert!(!correction_applicable(&img));
}

#[test]
fn correction_accepts_odd_width_with_longer_rows() {
    let img = image(vec![vec![0; 3], vec![0; 4]], 2, 3, [0, 1, 1, 2]);
    assert!(correction_applicable(&img));
}

#[test]
fn correction_refuses_bad_pattern() {
    let img = image(vec![vec![0; 2]; 2], 2, 2, [0, 1, 4, 2]);
    assert!(!correction_applicable(&img));
}

#[test]
fn correction_bad_pattern_unused_on_empty_image() {
    let img = image(vec![], 0, 2, [9, 9, 9, 9]);
    assert!(correction_applicable(&img));
}

#[test]
fn correction_refuses_missing_rows() {
    let img = image(vec![vec![0; 2]], 4, 2, [0, 1, 1, 2]);
    assert!(!correction_applicable(&img));
}

#[test]
fn demosaic_applies_to_full_image() {
    let img = image(vec![vec![1; 4]; 4], 4, 4, [0, 1, 1, 2]);
    assert!(demosaic_applicable(&img));
}

#[test]
fn demosaic_refuses_single_row() {
    let img = image(vec![vec![1; 4]], 1, 4, [0, 1, 1, 2]);
    assert!(!demosaic_applicable(&img));
}

#[test]
fn demosaic_refuses_short_row() {
    // (1, 2) reads (2, 2), which the last row lacks
    let img = image(vec![vec![1; 4], vec![1; 4], vec![1; 2]], 3, 4, [0, 1, 1, 2]);
    assert!(!demosaic_applicable(&img));
}

#[test]
fn demosaic_accepts_row_short_of_unread_sample() {
    // no pixel reads (2, 3)
    let img = image(vec![vec![1; 4], vec![1; 4], vec![1; 3]], 3, 4, [0, 1, 1, 2]);
    assert!(demosaic_applicable(&img));
}

#[test]
fn demosaic_refuses_overflowing_sum() {
    let mut data = vec![vec![1u32; 3]; 3];
    data[0][1] = u32::MAX;
    // (1, 1) is site 3: green is the cross sum, which overflows
    let img = image(data, 3, 3, [0, 1, 1, 2]);
    assert!(!demosaic_applicable(&img));
}

#[test]
fn demosaic_two_rows_need_no_samples_but_one_row() {
    let img = image(vec![vec![]], 2, 0, [0, 1, 1, 2]);
    assert!(demosaic_applicable(&img));
}
