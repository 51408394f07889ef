use ascii_art::grid::PixelGrid;
use ascii_art::ramp::{ramp_char, ramp_index};
use ascii_art::render::{render, render_text};
use ascii_art::scale::Scaler;

fn grid(width: u32, height: u32, pixels: Vec<u8>) -> PixelGrid {
    PixelGrid::new(width, height, pixels).expect("dimensions match buffer")
}

#[test]
fn two_by_two_end_to_end() {
    let g = grid(2, 2, vec![0, 128, 255, 64]);
    let lines = render(&g);
    assert_eq!(lines, vec!["$$nn".to_string(), "  qq".to_string()]);
    assert_eq!(render_text(&g), "$$nn\n  qq");
}

#[test]
fn all_dark_renders_densest_char() {
    let g = grid(3, 2, vec![0; 6]);
    let lines = render(&g);
    assert_eq!(lines, vec!["$$$$$$".to_string(), "$$$$$$".to_string()]);
}

#[test]
fn all_bright_renders_sparsest_char() {
    let g = grid(3, 2, vec![255; 6]);
    let lines = render(&g);
    assert_eq!(lines, vec!["      ".to_string(), "      ".to_string()]);
}

#[test]
fn line_count_and_length_invariant() {
    let pixels: Vec<u8> = (0..15u8).map(|i| i * 17).collect();
    let g = grid(3, 5, pixels);
    let lines = render(&g);
    assert_eq!(lines.len(), 5);
    for line in &lines {
        assert_eq!(line.chars().count(), 6);
    }
}

#[test]
fn empty_grid_renders_empty() {
    let g = grid(0, 0, vec![]);
    let lines = render(&g);
    assert!(lines.is_empty());
    assert_eq!(render_text(&g), "");
}

#[test]
fn ramp_boundaries() {
    assert_eq!(ramp_index(0), 0);
    assert_eq!(ramp_index(255), 69);
    assert_eq!(ramp_index(128), 34);
    assert_eq!(ramp_index(64), 17);
    assert_eq!(ramp_char(0), '$');
    assert_eq!(ramp_char(69), ' ');
    assert_eq!(ramp_char(34), 'n');
}

#[test]
fn identity_scale_is_pixel_identical() {
    let g = grid(2, 3, vec![9, 8, 7, 6, 5, 4]);
    let scaled = Scaler(None, None).scale(&g);
    assert_eq!(scaled.width, 2);
    assert_eq!(scaled.height, 3);
    assert_eq!(scaled.pixels, vec![9, 8, 7, 6, 5, 4]);
}

#[test]
fn identity_scale_twice_equals_once() {
    let g = grid(2, 2, vec![1, 2, 3, 4]);
    let scaler = Scaler(None, None);
    let once = scaler.scale(&g);
    let twice = scaler.scale(&once);
    assert_eq!(twice.width, once.width);
    assert_eq!(twice.height, once.height);
    assert_eq!(twice.pixels, once.pixels);
}

#[test]
fn scale_with_both_dimensions_has_exactly_those() {
    let pixels: Vec<u8> = (0..16u8).map(|i| i * 16).collect();
    let g = grid(4, 4, pixels);
    let scaled = Scaler(Some(2), Some(3)).scale(&g);
    assert_eq!(scaled.width, 2);
    assert_eq!(scaled.height, 3);
    assert_eq!(scaled.pixels.len(), 6);
}

#[test]
fn scale_width_only_derives_height() {
    let g = grid(4, 2, vec![10; 8]);
    let scaled = Scaler(Some(2), None).scale(&g);
    assert_eq!(scaled.width, 2);
    assert_eq!(scaled.height, 1);
    assert_eq!(scaled.pixels.len(), 2);
}

#[test]
fn scale_width_only_truncates_toward_zero() {
    let g = grid(5, 3, vec![0; 15]);
    let scaled = Scaler(Some(3), None).scale(&g);
    assert_eq!(scaled.width, 3);
    // 3 * 3 / 5 = 1.8, truncated to 1
    assert_eq!(scaled.height, 1);
}

#[test]
fn scale_height_only_derives_width() {
    let g = grid(2, 4, vec![10; 8]);
    let scaled = Scaler(None, Some(2)).scale(&g);
    assert_eq!(scaled.width, 1);
    assert_eq!(scaled.height, 2);
    assert_eq!(scaled.pixels.len(), 2);
}

#[test]
fn scale_matches_external_resampler() {
    let pixels: Vec<u8> = (0..16u8).map(|i| i * 15).collect();
    let g = grid(4, 4, pixels.clone());
    let scaled = Scaler(Some(2), Some(2)).scale(&g);
    let src = image::GrayImage::from_raw(4, 4, pixels).unwrap();
    let expected =
        image::imageops::resize(&src, 2, 2, image::imageops::FilterType::Lanczos3).into_raw();
    assert_eq!(scaled.pixels, expected);
}

#[test]
fn scale_empty_source_to_both_dimensions() {
    let g = grid(0, 0, vec![]);
    let scaled = Scaler(Some(2), Some(3)).scale(&g);
    assert_eq!(scaled.width, 2);
    assert_eq!(scaled.height, 3);
    assert_eq!(scaled.pixels.len(), 6);
}

#[test]
fn grid_rejects_mismatched_buffer() {
    assert!(PixelGrid::new(2, 2, vec![0, 1, 2]).is_none());
    assert!(PixelGrid::new(2, 2, vec![0, 1, 2, 3]).is_some());
    assert!(PixelGrid::new(0, 5, vec![]).is_some());
}
