use face_landmark_mp::image_util::{
    convert_with_padding, resize_keeping_aspect, RgbFrame, Sample, Transform, MAX_RESAMPLED_SIDE,
};

fn frame(width: u32, height: u32, pixel: impl Fn(u32, u32) -> [u8; 3]) -> RgbFrame {
    let mut data = Vec::new();
    for y in 0..height {
        for x in 0..width {
            data.extend_from_slice(&pixel(x, y));
        }
    }
    RgbFrame::new(width, height, data).unwrap()
}

#[test]
fn frame_needs_three_values_per_pixel() {
    assert!(RgbFrame::new(2, 2, vec![0; 12]).is_some());
    assert!(RgbFrame::new(2, 2, vec![0; 11]).is_none());
    assert!(RgbFrame::new(2, 2, vec![0; 13]).is_none());
    assert!(RgbFrame::new(0, 5, vec![]).is_some());
}

#[test]
fn frame_hands_out_its_channels() {
    let f = frame(3, 2, |x, y| [x as u8, y as u8, (10 * y + x) as u8]);
    assert_eq!((f.width(), f.height()), (3, 2));
    assert_eq!(f.data().len(), 18);
    assert_eq!(f.channel(2, 1, 0), 2);
    assert_eq!(f.channel(2, 1, 1), 1);
    assert_eq!(f.channel(2, 1, 2), 12);
    assert_eq!(f.channel(0, 0, 2), 0);
}

#[test]
fn padding_centres_the_frame_and_puts_the_odd_cell_first() {
    // 1 row, 2 columns in a square of side 4: rows 2..3, columns 1..3.
    let f = frame(2, 1, |x, _| [10 + x as u8, 20 + x as u8, 30 + x as u8]);
    let (samples, rect) = convert_with_padding(4, &f).unwrap();
    assert_eq!(rect, (2, 1, 3, 3));
    assert_eq!(samples.len(), 4 * 4 * 3);
    for y in 0..4 {
        for x in 0..4 {
            for c in 0..3 {
                let expected = if y == 2 && (x == 1 || x == 2) {
                    Sample::Channel((10 * (c + 1) + (x - 1)) as u8)
                } else {
                    Sample::Padding
                };
                assert_eq!(samples[12 * y + 3 * x + c], expected);
            }
        }
    }
}

#[test]
fn padding_refuses_a_frame_that_does_not_fit() {
    let f = frame(5, 1, |_, _| [0, 0, 0]);
    assert!(convert_with_padding(4, &f).is_none());
    assert!(convert_with_padding(5, &f).is_some());
}

#[test]
fn frame_with_fitting_longer_side_is_not_resampled() {
    let f = frame(4, 2, |x, y| [x as u8, y as u8, 7]);
    let (samples, transform) = resize_keeping_aspect(4, &f).unwrap();
    assert_eq!(
        transform,
        Transform {
            source_height: 2,
            source_width: 4,
            content_height: 2,
            content_width: 4,
            origin_y: 1,
            origin_x: 0,
        }
    );
    assert_eq!(samples[0], Sample::Padding);
    assert_eq!(samples[12], Sample::Channel(0));
    assert_eq!(samples[12 + 3 * 3], Sample::Channel(3));
    assert_eq!(samples[24 + 1], Sample::Channel(1));
    assert_eq!(samples[36], Sample::Padding);
}

#[test]
fn longer_side_is_scaled_to_the_square_and_shorter_side_rounded() {
    // 4 columns by 2 rows into a square of side 2: 2 columns by 1 row.
    let f = frame(4, 2, |x, _| if x < 2 { [0, 0, 0] } else { [255, 255, 255] });
    let (samples, transform) = resize_keeping_aspect(2, &f).unwrap();
    assert_eq!(
        transform,
        Transform {
            source_height: 2,
            source_width: 4,
            content_height: 1,
            content_width: 2,
            origin_y: 1,
            origin_x: 0,
        }
    );
    assert_eq!(samples.len(), 12);
    for k in 0..6 {
        assert_eq!(samples[k], Sample::Padding);
    }
    // The triangle filter weighs three source columns 3 : 3 : 1.
    for c in 0..3 {
        assert_eq!(samples[6 + c], Sample::Channel(36));
        assert_eq!(samples[9 + c], Sample::Channel(219));
    }
}

#[test]
fn half_is_rounded_up() {
    // 10 rows by 4 columns into 5: the width becomes 5 * 4 / 10 = 2 exactly;
    // 10 by 3 into 5: 1.5 becomes 2; 10 by 5 into 3: 1.5 becomes 2.
    let a = resize_keeping_aspect(5, &frame(4, 10, |_, _| [1, 2, 3])).unwrap().1;
    assert_eq!((a.content_height, a.content_width), (5, 2));
    let b = resize_keeping_aspect(5, &frame(3, 10, |_, _| [1, 2, 3])).unwrap().1;
    assert_eq!((b.content_height, b.content_width), (5, 2));
    assert_eq!((b.origin_y, b.origin_x), (0, 2));
    let c = resize_keeping_aspect(3, &frame(5, 10, |_, _| [1, 2, 3])).unwrap().1;
    assert_eq!((c.content_height, c.content_width), (3, 2));
    assert_eq!((c.origin_y, c.origin_x), (0, 1));
}

#[test]
fn uniform_frame_stays_uniform() {
    let f = frame(6, 3, |_, _| [40, 80, 120]);
    let (samples, _) = resize_keeping_aspect(8, &f).unwrap();
    // 8 columns by 4 rows, rows 2..6
    for y in 0..8usize {
        for x in 0..8usize {
            for c in 0..3usize {
                let expected = if (2..6).contains(&y) {
                    Sample::Channel(40 * (c as u8 + 1))
                } else {
                    Sample::Padding
                };
                assert_eq!(samples[24 * y + 3 * x + c], expected);
            }
        }
    }
}

#[test]
fn corners_of_the_content_map_back_to_the_corners_of_the_frame() {
    let f = frame(300, 200, |_, _| [0, 0, 0]);
    let t = resize_keeping_aspect(128, &f).unwrap().1;
    // 200 * 128 / 300 = 85.33 -> 85 rows
    assert_eq!((t.content_height, t.content_width), (85, 128));
    assert_eq!((t.origin_y, t.origin_x), (22, 0));
    let back = |source: usize, content: usize, origin: usize, p: usize| {
        (source * (p - origin)) as f64 / content as f64
    };
    assert_eq!(back(t.source_height, t.content_height, t.origin_y, 22), 0.0);
    assert!((back(t.source_height, t.content_height, t.origin_y, 22 + 85) - 200.0).abs() < 1e-3);
    assert_eq!(back(t.source_width, t.content_width, t.origin_x, 0), 0.0);
    assert!((back(t.source_width, t.content_width, t.origin_x, 128) - 300.0).abs() < 1e-3);
}

#[test]
fn empty_frames_and_empty_contents_are_refused() {
    assert!(resize_keeping_aspect(4, &frame(0, 3, |_, _| [0, 0, 0])).is_none());
    assert!(resize_keeping_aspect(4, &frame(3, 0, |_, _| [0, 0, 0])).is_none());
    assert!(resize_keeping_aspect(0, &frame(3, 3, |_, _| [0, 0, 0])).is_none());
    // 1 column by 1000 rows into 128: the width would be 0.128 -> 0
    assert!(resize_keeping_aspect(128, &frame(1, 1000, |_, _| [0, 0, 0])).is_none());
}

#[test]
fn sides_beyond_the_resampling_limit_are_refused() {
    assert_eq!(MAX_RESAMPLED_SIDE, 1 << 20);
    let f = frame(2, 2, |_, _| [0, 0, 0]);
    assert!(resize_keeping_aspect(MAX_RESAMPLED_SIDE + 1, &f).is_none());
    let wide = frame(1 << 21, 1, |_, _| [0, 0, 0]);
    assert!(resize_keeping_aspect(1 << 20, &wide).is_none());
}
