use rand::Rng;
use raytracer::frame::{channel_byte, frame_from_rows, pack_rgb, row_rng, row_seed};

#[test]
fn row_seed_adds_row_index() {
    assert_eq!(row_seed(100, 7), 107);
    assert_eq!(row_seed(0, 0), 0);
}

#[test]
fn row_seed_wraps_at_u64_max() {
    assert_eq!(row_seed(u64::MAX, 1), 0);
    assert_eq!(row_seed(u64::MAX - 1, 3), 1);
}

#[test]
fn row_rng_is_reproducible() {
    let mut a = row_rng(42, 5).rng;
    let mut b = row_rng(42, 5).rng;
    let xs: Vec<u64> = (0..8).map(|_| a.gen::<u64>()).collect();
    let ys: Vec<u64> = (0..8).map(|_| b.gen::<u64>()).collect();
    assert_eq!(xs, ys);
}

#[test]
fn row_rng_differs_between_rows() {
    let mut a = row_rng(42, 5).rng;
    let mut b = row_rng(42, 6).rng;
    let xs: Vec<u64> = (0..8).map(|_| a.gen::<u64>()).collect();
    let ys: Vec<u64> = (0..8).map(|_| b.gen::<u64>()).collect();
    assert_ne!(xs, ys);
}

#[test]
fn channel_byte_keeps_small_values() {
    assert_eq!(channel_byte(0), 0);
    assert_eq!(channel_byte(128), 128);
    assert_eq!(channel_byte(255), 255);
}

#[test]
fn channel_byte_saturates() {
    assert_eq!(channel_byte(256), 255);
    assert_eq!(channel_byte(u32::MAX), 255);
}

#[test]
fn pack_rgb_places_channels() {
    assert_eq!(pack_rgb(0x12, 0x34, 0x56), 0x0012_3456);
    assert_eq!(pack_rgb(255, 255, 255), 0x00FF_FFFF);
    assert_eq!(pack_rgb(0, 0, 0), 0);
    assert_eq!(pack_rgb(1, 0, 0), 0x0001_0000);
}

#[test]
fn frame_from_rows_is_row_major() {
    let rows = vec![vec![1u32, 2, 3], vec![4, 5, 6]];
    assert_eq!(frame_from_rows(&rows, 3), vec![1, 2, 3, 4, 5, 6]);
}

#[test]
fn frame_from_rows_empty() {
    let rows: Vec<Vec<u32>> = Vec::new();
    assert!(frame_from_rows(&rows, 4).is_empty());
    let zero_width = vec![Vec::new(), Vec::new()];
    assert!(frame_from_rows(&zero_width, 0).is_empty());
}

#[test]
fn same_rows_give_same_frame() {
    let rows = vec![vec![7u32, 8], vec![9, 10], vec![11, 12]];
    assert_eq!(frame_from_rows(&rows, 2), frame_from_rows(&rows.clone(), 2));
}
