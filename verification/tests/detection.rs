use termcam::blend::{blend_channel, blend_pixel};
use termcam::edge::{
    classify, edge_glyph, should_sample, sobel_detect_edge, sobel_sample_rate, SobelEdge,
    EDGE_THRESHOLD,
};
use termcam::frame::Frame;

fn uniform_frame(width: usize, height: usize, rgb: (u8, u8, u8)) -> Frame {
    let mut pixels = Vec::new();
    for _ in 0..width * height {
        pixels.push(rgb.0);
        pixels.push(rgb.1);
        pixels.push(rgb.2);
    }
    Frame::new(width, height, pixels).unwrap()
}

fn split_frame(width: usize, height: usize, vertical_boundary: bool, low: u8, high: u8) -> Frame {
    let mut pixels = Vec::new();
    for y in 0..height {
        for x in 0..width {
            let bright = if vertical_boundary { x >= width / 2 } else { y >= height / 2 };
            let v = if bright { high } else { low };
            pixels.push(v);
            pixels.push(v);
            pixels.push(v);
        }
    }
    Frame::new(width, height, pixels).unwrap()
}

#[test]
fn frame_new_checks_the_buffer_length() {
    assert!(Frame::new(2, 2, vec![0; 12]).is_some());
    assert!(Frame::new(2, 2, vec![0; 11]).is_none());
    assert!(Frame::new(2, 2, vec![0; 13]).is_none());
    assert!(Frame::new(0, 5, vec![]).is_some());
    assert!(Frame::new(0, 5, vec![0; 3]).is_none());
    assert!(Frame::new(usize::MAX, usize::MAX, vec![0; 3]).is_none());
}

#[test]
fn get_pixel_reads_row_major_rgb() {
    let frame = Frame::new(2, 2, vec![1, 2, 3, 4, 5, 6, 7, 8, 9, 10, 11, 12]).unwrap();
    assert_eq!(frame.get_pixel(0, 0), (1, 2, 3));
    assert_eq!(frame.get_pixel(1, 0), (4, 5, 6));
    assert_eq!(frame.get_pixel(0, 1), (7, 8, 9));
    assert_eq!(frame.get_pixel(1, 1), (10, 11, 12));
}

#[test]
fn blend_channel_rounds_to_nearest() {
    assert_eq!(blend_channel(0, 0), 0);
    assert_eq!(blend_channel(255, 255), 255);
    assert_eq!(blend_channel(100, 200), 130);
    assert_eq!(blend_channel(200, 100), 170);
    assert_eq!(blend_channel(1, 0), 1);
    assert_eq!(blend_channel(0, 1), 0);
    assert_eq!(blend_channel(5, 0), 4);
    assert_eq!(blend_channel(255, 0), 179);
    assert_eq!(blend_channel(0, 255), 77);
}

#[test]
fn blend_channel_is_within_half_of_the_weighted_mean() {
    for c in 0..=255u32 {
        for p in 0..=255u32 {
            let out = blend_channel(c as u8, p as u8) as f64;
            let exact = (7.0 * c as f64 + 3.0 * p as f64) / 10.0;
            assert_eq!(out, (exact + 0.5).floor());
        }
    }
}

#[test]
fn blend_without_previous_frame_returns_raw_pixel() {
    let frame = Frame::new(2, 1, vec![10, 20, 30, 40, 50, 60]).unwrap();
    assert_eq!(blend_pixel(&frame, &None, 0, 0), (10, 20, 30));
    assert_eq!(blend_pixel(&frame, &None, 1, 0), (40, 50, 60));
}

#[test]
fn blend_with_previous_frame_mixes_each_channel() {
    let frame = Frame::new(2, 1, vec![10, 20, 30, 40, 50, 60]).unwrap();
    let prev = Some(vec![110, 120, 130, 0, 0, 255]);
    assert_eq!(blend_pixel(&frame, &prev, 0, 0), (40, 50, 60));
    assert_eq!(blend_pixel(&frame, &prev, 1, 0), (28, 35, 119));
}

#[test]
fn blend_with_buffer_of_other_size_returns_raw_pixel() {
    let frame = Frame::new(2, 1, vec![10, 20, 30, 40, 50, 60]).unwrap();
    let shorter = Some(vec![255, 255, 255]);
    let longer = Some(vec![255; 9]);
    assert_eq!(blend_pixel(&frame, &shorter, 0, 0), (10, 20, 30));
    assert_eq!(blend_pixel(&frame, &longer, 1, 0), (40, 50, 60));
}

#[test]
fn uniform_image_has_no_edge_at_threshold_zero() {
    for rgb in [(0u8, 0u8, 0u8), (255, 255, 255), (12, 200, 77)] {
        let frame = uniform_frame(6, 5, rgb);
        for y in 0..5 {
            for x in 0..6 {
                assert_eq!(sobel_detect_edge(&frame, x, y, 0), SobelEdge::NoEdge);
                assert_eq!(sobel_detect_edge(&frame, x, y, EDGE_THRESHOLD), SobelEdge::NoEdge);
            }
        }
    }
}

#[test]
fn vertical_boundary_gives_vertical_edge_inside_and_none_on_border() {
    let frame = split_frame(8, 8, true, 0, 255);
    for y in 1..7 {
        assert_eq!(sobel_detect_edge(&frame, 3, y, EDGE_THRESHOLD), SobelEdge::Vertical);
        assert_eq!(sobel_detect_edge(&frame, 4, y, EDGE_THRESHOLD), SobelEdge::Vertical);
        assert_eq!(sobel_detect_edge(&frame, 1, y, EDGE_THRESHOLD), SobelEdge::NoEdge);
        assert_eq!(sobel_detect_edge(&frame, 6, y, EDGE_THRESHOLD), SobelEdge::NoEdge);
    }
    for i in 0..8 {
        assert_eq!(sobel_detect_edge(&frame, 0, i, EDGE_THRESHOLD), SobelEdge::NoEdge);
        assert_eq!(sobel_detect_edge(&frame, i, 0, EDGE_THRESHOLD), SobelEdge::NoEdge);
        assert_eq!(sobel_detect_edge(&frame, 7, i, EDGE_THRESHOLD), SobelEdge::NoEdge);
        assert_eq!(sobel_detect_edge(&frame, i, 7, EDGE_THRESHOLD), SobelEdge::NoEdge);
    }
}

#[test]
fn border_cells_have_no_edge_whatever_the_contrast() {
    let frame = split_frame(3, 3, true, 0, 255);
    for y in 0..3 {
        for x in 0..3 {
            let expected = if x == 1 && y == 1 { SobelEdge::Vertical } else { SobelEdge::NoEdge };
            assert_eq!(sobel_detect_edge(&frame, x, y, 0), expected);
        }
    }
    assert_eq!(sobel_detect_edge(&frame, 3, 1, 0), SobelEdge::NoEdge);
    assert_eq!(sobel_detect_edge(&frame, 1, 100, 0), SobelEdge::NoEdge);
    let tiny = split_frame(1, 1, true, 0, 255);
    assert_eq!(sobel_detect_edge(&tiny, 0, 0, 0), SobelEdge::NoEdge);
    let empty = Frame::new(0, 0, vec![]).unwrap();
    assert_eq!(sobel_detect_edge(&empty, 0, 0, 0), SobelEdge::NoEdge);
    assert_eq!(sobel_detect_edge(&empty, 5, 5, 0), SobelEdge::NoEdge);
}

#[test]
fn horizontal_boundary_gives_horizontal_edge() {
    let frame = split_frame(8, 8, false, 0, 255);
    for x in 1..7 {
        assert_eq!(sobel_detect_edge(&frame, x, 3, EDGE_THRESHOLD), SobelEdge::Horizontal);
        assert_eq!(sobel_detect_edge(&frame, x, 4, EDGE_THRESHOLD), SobelEdge::Horizontal);
        assert_eq!(sobel_detect_edge(&frame, x, 1, EDGE_THRESHOLD), SobelEdge::NoEdge);
    }
}

#[test]
fn weak_contrast_stays_below_the_threshold() {
    // A step of 7 gives a gradient of 4 * 7 = 28, a step of 8 one of 32.
    let weak = split_frame(8, 8, true, 100, 107);
    let strong = split_frame(8, 8, true, 100, 108);
    assert_eq!(sobel_detect_edge(&weak, 4, 4, EDGE_THRESHOLD), SobelEdge::NoEdge);
    assert_eq!(sobel_detect_edge(&strong, 4, 4, EDGE_THRESHOLD), SobelEdge::Vertical);
    assert_eq!(sobel_detect_edge(&weak, 4, 4, 27), SobelEdge::Vertical);
    assert_eq!(sobel_detect_edge(&weak, 4, 4, 28), SobelEdge::NoEdge);
}

#[test]
fn classify_threshold_is_inclusive() {
    assert_eq!(classify(30, 0, 30), SobelEdge::NoEdge);
    assert_eq!(classify(31, 0, 30), SobelEdge::Vertical);
    assert_eq!(classify(18, 24, 30), SobelEdge::NoEdge);
    assert_eq!(classify(18, 25, 30), SobelEdge::DiagonalDown);
    assert_eq!(classify(0, 0, 0), SobelEdge::NoEdge);
    assert_eq!(classify(1020, 1020, u32::MAX), SobelEdge::NoEdge);
    assert_eq!(classify(i32::MIN, i32::MIN, u32::MAX), SobelEdge::NoEdge);
    assert_eq!(classify(i32::MIN, i32::MAX, 0), SobelEdge::DiagonalUp);
    assert_eq!(classify(i32::MIN, 1, 0), SobelEdge::Vertical);
}

#[test]
fn classify_orientation_bands() {
    assert_eq!(classify(100, 0, 30), SobelEdge::Vertical);
    assert_eq!(classify(-100, 0, 30), SobelEdge::Vertical);
    assert_eq!(classify(0, 100, 30), SobelEdge::Horizontal);
    assert_eq!(classify(0, -100, 30), SobelEdge::Horizontal);
    assert_eq!(classify(100, 100, 30), SobelEdge::DiagonalDown);
    assert_eq!(classify(-100, -100, 30), SobelEdge::DiagonalDown);
    assert_eq!(classify(-100, 100, 30), SobelEdge::DiagonalUp);
    assert_eq!(classify(100, -100, 30), SobelEdge::DiagonalUp);
}

#[test]
fn classify_band_limits_at_odd_multiples_of_22_5_degrees() {
    // tan(22.5 degrees) = 0.41421...
    assert_eq!(classify(1000, 414, 30), SobelEdge::Vertical);
    assert_eq!(classify(1000, 415, 30), SobelEdge::DiagonalDown);
    assert_eq!(classify(414, 1000, 30), SobelEdge::Horizontal);
    assert_eq!(classify(415, 1000, 30), SobelEdge::DiagonalDown);
    assert_eq!(classify(-1000, 414, 30), SobelEdge::Vertical);
    assert_eq!(classify(-1000, 415, 30), SobelEdge::DiagonalUp);
    assert_eq!(classify(1000, -414, 30), SobelEdge::Vertical);
    assert_eq!(classify(1000, -415, 30), SobelEdge::DiagonalUp);
    assert_eq!(classify(-414, -1000, 30), SobelEdge::Horizontal);
    assert_eq!(classify(-415, -1000, 30), SobelEdge::DiagonalDown);
}

#[test]
fn classify_agrees_with_the_angle() {
    for gx in (-1020..=1020i32).step_by(17) {
        for gy in (-1020..=1020i32).step_by(13) {
            if gx * gx + gy * gy <= 900 {
                assert_eq!(classify(gx, gy, 30), SobelEdge::NoEdge);
                continue;
            }
            let mut a = (gy as f64).atan2(gx as f64).to_degrees();
            if a < 0.0 {
                a += 360.0;
            }
            let expected = if a >= 337.5 || a < 22.5 {
                SobelEdge::Vertical
            } else if a < 67.5 {
                SobelEdge::DiagonalDown
            } else if a < 112.5 {
                SobelEdge::Horizontal
            } else if a < 157.5 {
                SobelEdge::DiagonalUp
            } else if a < 202.5 {
                SobelEdge::Vertical
            } else if a < 247.5 {
                SobelEdge::DiagonalDown
            } else if a < 292.5 {
                SobelEdge::Horizontal
            } else {
                SobelEdge::DiagonalUp
            };
            assert_eq!(classify(gx, gy, 30), expected);
        }
    }
}

#[test]
fn sample_rate_steps_at_100k_and_200k_cells() {
    assert_eq!(sobel_sample_rate(0, 0), 1);
    assert_eq!(sobel_sample_rate(80, 24), 1);
    assert_eq!(sobel_sample_rate(1000, 100), 1);
    assert_eq!(sobel_sample_rate(100_001, 1), 10);
    assert_eq!(sobel_sample_rate(500, 400), 10);
    assert_eq!(sobel_sample_rate(200_001, 1), 20);
    assert_eq!(sobel_sample_rate(usize::MAX, usize::MAX), 20);
}

#[test]
fn should_sample_needs_both_coordinates_on_the_grid() {
    assert!(should_sample(3, 7, 1));
    assert!(should_sample(0, 0, 10));
    assert!(should_sample(20, 30, 10));
    assert!(!should_sample(21, 30, 10));
    assert!(!should_sample(20, 31, 10));
    assert!(!should_sample(10, 10, 20));
    assert!(should_sample(40, 20, 20));
}

#[test]
fn edge_glyphs() {
    assert_eq!(edge_glyph(SobelEdge::NoEdge), None);
    assert_eq!(edge_glyph(SobelEdge::Horizontal), Some('═'));
    assert_eq!(edge_glyph(SobelEdge::Vertical), Some('║'));
    assert_eq!(edge_glyph(SobelEdge::DiagonalUp), Some('/'));
    assert_eq!(edge_glyph(SobelEdge::DiagonalDown), Some('\\'));
}
