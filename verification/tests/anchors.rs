use face_landmark_mp::face_detector::FaceDetector;
use face_landmark_mp::ssd::{generate, Anchor, AnchorShape, ConfigError, Options};

fn reference() -> Options {
    Options::new(128, 128, 4, vec![], vec![], vec![8, 16, 16, 16], 1, false, true, true).unwrap()
}

#[test]
fn reference_grid_has_896_unit_anchors() {
    let anchors = generate(&reference());
    assert_eq!(anchors.len(), 896);
    for a in anchors.iter() {
        assert_eq!(a.shape, AnchorShape::Unit);
        assert!(a.cell_y < a.grid_height);
        assert!(a.cell_x < a.grid_width);
    }
}

#[test]
fn reference_grid_order_is_row_major_with_two_boxes_per_cell() {
    let anchors = generate(&reference());
    let at = |cell_y, cell_x, side| Anchor {
        cell_y,
        cell_x,
        grid_height: side,
        grid_width: side,
        shape: AnchorShape::Unit,
    };
    assert_eq!(anchors[0], at(0, 0, 16));
    assert_eq!(anchors[1], at(0, 0, 16));
    assert_eq!(anchors[2], at(0, 1, 16));
    assert_eq!(anchors[31], at(0, 15, 16));
    assert_eq!(anchors[32], at(1, 0, 16));
    assert_eq!(anchors[511], at(15, 15, 16));
}

#[test]
fn layers_with_one_stride_share_their_cells() {
    let anchors = generate(&reference());
    let at = |cell_y, cell_x| Anchor {
        cell_y,
        cell_x,
        grid_height: 8,
        grid_width: 8,
        shape: AnchorShape::Unit,
    };
    for k in 512..518 {
        assert_eq!(anchors[k], at(0, 0));
    }
    assert_eq!(anchors[518], at(0, 1));
    assert_eq!(anchors[512 + 6 * 8], at(1, 0));
    assert_eq!(anchors[895], at(7, 7));
}

#[test]
fn shapes_follow_the_layers_of_a_group() {
    let options =
        Options::new(32, 32, 3, vec![], vec![], vec![16, 16, 32], 2, false, true, false).unwrap();
    let anchors = generate(&options);
    // 2x2 cells with (2 + 1) * 2 boxes, then 1 cell with 3 boxes.
    assert_eq!(anchors.len(), 2 * 2 * 6 + 3);
    let shapes: Vec<AnchorShape> = anchors[0..6].iter().map(|a| a.shape).collect();
    assert_eq!(
        shapes,
        vec![
            AnchorShape::Configured { layer: 0, ratio: 0 },
            AnchorShape::Configured { layer: 0, ratio: 1 },
            AnchorShape::Interpolated { layer: 0 },
            AnchorShape::Configured { layer: 1, ratio: 0 },
            AnchorShape::Configured { layer: 1, ratio: 1 },
            AnchorShape::Interpolated { layer: 1 },
        ]
    );
    assert_eq!(
        anchors[24],
        Anchor {
            cell_y: 0,
            cell_x: 0,
            grid_height: 1,
            grid_width: 1,
            shape: AnchorShape::Configured { layer: 2, ratio: 0 },
        }
    );
    assert_eq!(anchors[26].shape, AnchorShape::Interpolated { layer: 2 });
}

#[test]
fn lowest_layer_can_be_reduced_to_three_boxes() {
    let options =
        Options::new(16, 16, 2, vec![], vec![], vec![8, 16], 1, true, false, false).unwrap();
    let anchors = generate(&options);
    assert_eq!(anchors.len(), 2 * 2 * 3 + 1);
    assert_eq!(anchors[0].shape, AnchorShape::LowestSquare);
    assert_eq!(anchors[1].shape, AnchorShape::LowestWide);
    assert_eq!(anchors[2].shape, AnchorShape::LowestTall);
    assert_eq!(anchors[3].shape, AnchorShape::LowestSquare);
    assert_eq!(anchors[3].cell_x, 1);
    assert_eq!(anchors[12].shape, AnchorShape::Configured { layer: 1, ratio: 0 });
}

#[test]
fn grid_rounds_partial_cells_up() {
    let options = Options::new(10, 17, 1, vec![], vec![], vec![8], 1, false, false, true).unwrap();
    let anchors = generate(&options);
    // width 10 -> 2 columns, height 17 -> 3 rows
    assert_eq!(anchors.len(), 6);
    assert_eq!(anchors[0].grid_height, 3);
    assert_eq!(anchors[0].grid_width, 2);
    assert_eq!((anchors[5].cell_y, anchors[5].cell_x), (2, 1));
}

#[test]
fn explicit_feature_maps_replace_the_strides() {
    let options =
        Options::new(128, 128, 2, vec![3, 1], vec![2, 1], vec![0, 1], 1, false, false, true)
            .unwrap();
    let anchors = generate(&options);
    assert_eq!(anchors.len(), 2 * 3 + 1);
    assert_eq!((anchors[0].grid_height, anchors[0].grid_width), (2, 3));
    assert_eq!((anchors[5].cell_y, anchors[5].cell_x), (1, 2));
    assert_eq!((anchors[6].grid_height, anchors[6].grid_width), (1, 1));
}

#[test]
fn empty_input_gives_no_anchor() {
    let options = Options::new(0, 128, 1, vec![], vec![], vec![8], 1, false, true, true).unwrap();
    assert_eq!(generate(&options).len(), 0);
    let none = Options::new(128, 128, 0, vec![], vec![], vec![], 1, false, true, true).unwrap();
    assert_eq!(generate(&none).len(), 0);
}

#[test]
fn stride_count_must_match_the_layers() {
    let made = Options::new(128, 128, 4, vec![], vec![], vec![8, 16, 16], 1, false, true, true);
    assert_eq!(made.err(), Some(ConfigError::StrideCount));
}

#[test]
fn feature_map_lists_must_match_the_layers() {
    let uneven = Options::new(128, 128, 2, vec![1, 2], vec![1], vec![8, 16], 1, false, true, true);
    assert_eq!(uneven.err(), Some(ConfigError::FeatureMapCount));
    let short = Options::new(128, 128, 2, vec![1], vec![1], vec![8, 16], 1, false, true, true);
    assert_eq!(short.err(), Some(ConfigError::FeatureMapCount));
}

#[test]
fn zero_stride_is_refused_without_feature_maps() {
    let made = Options::new(128, 128, 2, vec![], vec![], vec![8, 0], 1, false, true, true);
    assert_eq!(made.err(), Some(ConfigError::ZeroStride));
}

#[test]
fn options_hand_back_what_they_hold() {
    let options = reference();
    assert_eq!(options.num_layers(), 4);
    assert_eq!(options.strides(), &vec![8, 16, 16, 16]);
    assert_eq!(options.num_aspect_ratios(), 1);
    assert!(options.fixed_anchor_size());
}

#[test]
fn detector_holds_the_reference_grid() {
    let detector = FaceDetector::new();
    assert_eq!(detector.size(), 128);
    assert_eq!(detector.anchors().len(), 896);
    assert_eq!(detector.anchors(), &generate(&reference()));
}
