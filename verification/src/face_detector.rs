//! The face detector: its anchor grid, and where the values of each box stand
//! in the detector's raw output.

use crate::ssd::{
    anchor_count, anchor_count_from, anchor_grid, cells_along, config_fault, generate,
    group_end, group_shape_count, has_zero_stride, lemma_anchor_grid, same_stride_run, Anchor,
    Options, OptionsView,
};
use vstd::prelude::*;

verus! {

/// Values that the raw box tensor holds for each anchor: two for the centre,
/// two for the size, and two for each key point.
pub const BOX_VALUES: usize = 16;

/// Key points that the detector gives with each box.
pub const KEY_POINTS: usize = 6;

/// Where a pair of values stands in the raw box tensor. The tensor gives the
/// column value first and the row value after it; a box is read row first.
#[derive(Clone, Copy, Debug, PartialEq, Eq, Structural)]
pub struct PairSlot {
    /// Index of the value along the rows (y).
    pub row: usize,
    /// Index of the value along the columns (x).
    pub column: usize,
}

/// Where the values of one box stand in the raw tensors.
#[derive(Clone, Copy, Debug)]
pub struct BoxSlots {
    /// The offsets of the centre from the anchor's centre.
    pub center: PairSlot,
    /// The height and the width.
    pub size: PairSlot,
    /// The offsets of the key points from the anchor's centre.
    pub key_points: [PairSlot; 6],
    /// Index of the raw score in the score tensor.
    pub score: usize,
}

/// Pair number `pair` of anchor `anchor`: pair 0 is the centre, pair 1 the
/// size, pairs 2 to 7 the key points.
pub open spec fn pair_slot(anchor: int, pair: int) -> PairSlot {
    PairSlot {
        row: (16 * anchor + 2 * pair + 1) as usize,
        column: (16 * anchor + 2 * pair) as usize,
    }
}

/// Where the values of the box of anchor `anchor` stand.
pub open spec fn box_slots(anchor: int) -> BoxSlots {
    BoxSlots {
        center: pair_slot(anchor, 0),
        size: pair_slot(anchor, 1),
        key_points: [
            pair_slot(anchor, 2),
            pair_slot(anchor, 3),
            pair_slot(anchor, 4),
            pair_slot(anchor, 5),
            pair_slot(anchor, 6),
            pair_slot(anchor, 7),
        ],
        score: anchor as usize,
    }
}

/// The options of the reference face detector: a square input of 128
/// pixels, four layers with strides 8, 16, 16 and 16, one configured aspect
/// ratio and the interpolated one, and anchors of fixed size.
pub open spec fn reference_options() -> OptionsView {
    OptionsView {
        input_size_width: 128,
        input_size_height: 128,
        num_layers: 4,
        feature_map_width: Seq::empty(),
        feature_map_height: Seq::empty(),
        strides: seq![8usize, 16usize, 16usize, 16usize],
        num_aspect_ratios: 1,
        reduce_boxes_in_lowest_layer: false,
        interpolated_scale: true,
        fixed_anchor_size: true,
    }
}

/// The reference options are valid and yield 896 anchors.
pub proof fn lemma_reference_options()
    ensures
        config_fault(reference_options()) is None,
        anchor_grid(reference_options()).len() == 896,
{
    let cfg = reference_options();
    assert(!has_zero_stride(cfg.strides, 4));
    reveal_with_fuel(same_stride_run, 5);
    reveal_with_fuel(group_shape_count, 5);
    reveal_with_fuel(anchor_count_from, 4);
    assert(group_end(cfg.strides, 0) == 1);
    assert(group_end(cfg.strides, 1) == 4);
    assert(cells_along(128, 8) == 16);
    assert(cells_along(128, 16) == 8);
    assert(group_shape_count(cfg, 0, 1) == 2);
    assert(group_shape_count(cfg, 1, 4) == 6);
    assert(anchor_count_from(cfg, 4) == 0);
    assert(anchor_count_from(cfg, 1) == 8 * 8 * 6 + anchor_count_from(cfg, 4));
    assert(anchor_count_from(cfg, 0) == 16 * 16 * 2 + anchor_count_from(cfg, 1));
    assert(anchor_count(cfg) == 896);
    lemma_anchor_grid(cfg);
}

/// The face detector's fixed data: the side of its square input and its
/// anchors, in the order of the rows of its output.
pub struct FaceDetector {
    size: usize,
    anchors: Vec<Anchor>,
}

impl FaceDetector {
    /// The side of the square input.
    pub closed spec fn spec_size(&self) -> usize {
        self.size
    }

    /// The anchors.
    pub closed spec fn spec_anchors(&self) -> Seq<Anchor> {
        self.anchors@
    }

    /// The reference face detector.
    pub fn new() -> (detector: Self)
        ensures
            detector.spec_size() == 128,
            detector.spec_anchors() == anchor_grid(reference_options()),
            detector.spec_anchors().len() == 896,
    {
        let size: usize = 128;
        let mut strides: Vec<usize> = Vec::new();
        strides.push(8);
        strides.push(16);
        strides.push(16);
        strides.push(16);
        proof {
            lemma_reference_options();
            assert(strides@ =~= reference_options().strides);
        }
        let anchors = match Options::new(
            size,
            size,
            4,
            Vec::new(),
            Vec::new(),
            strides,
            1,
            false,
            true,
            true,
        ) {
            Ok(options) => {
                assert(options@ =~= reference_options()) by {
                    assert(options@.feature_map_width =~= Seq::<usize>::empty());
                    assert(options@.feature_map_height =~= Seq::<usize>::empty());
                }
                generate(&options)
            },
            Err(_) => {
                assert(false);
                Vec::new()
            },
        };
        FaceDetector { size, anchors }
    }

    /// The side of the square input.
    pub fn size(&self) -> (size: usize)
        ensures
            size == self.spec_size(),
    {
        self.size
    }

    /// The anchors, in the order of the rows of the detector's output.
    pub fn anchors(&self) -> (anchors: &Vec<Anchor>)
        ensures
            anchors@ == self.spec_anchors(),
    {
        &self.anchors
    }

    /// Where the values of each anchor's box stand in a raw box tensor of
    /// `boxes_len` values and a raw score tensor of `scores_len` values: one
    /// entry per anchor, in the order of the anchors. There is none if the
    /// tensors are too short for the anchors.
    pub fn decode_output(&self, boxes_len: usize, scores_len: usize) -> (slots: Option<
        Vec<BoxSlots>,
    >)
        ensures
            slots is Some <==> 16 * self.spec_anchors().len() <= boxes_len
                && self.spec_anchors().len() <= scores_len,
            slots matches Some(list) ==> {
                &&& list@.len() == self.spec_anchors().len()
                &&& forall|i: int| 0 <= i < list@.len() ==> #[trigger] list@[i] == box_slots(i)
                &&& forall|i: int, pair: int|
                    0 <= i < list@.len() && 0 <= pair < 8 ==> 0 <= #[trigger] pair_slot(
                        i,
                        pair,
                    ).column < pair_slot(i, pair).row < boxes_len
            },
    {
        let count = self.anchors.len();
        if count > scores_len || count > boxes_len / BOX_VALUES {
            return None;
        }
        let mut list: Vec<BoxSlots> = Vec::new();
        let mut i: usize = 0;
        while i < count
            invariant
                i <= count,
                16 * count <= boxes_len,
                list@.len() == i,
                forall|k: int| 0 <= k < i ==> #[trigger] list@[k] == box_slots(k),
            decreases count - i,
        {
            let base = BOX_VALUES * i;
            let slots = BoxSlots {
                center: PairSlot { row: base + 1, column: base },
                size: PairSlot { row: base + 3, column: base + 2 },
                key_points: [
                    PairSlot { row: base + 5, column: base + 4 },
                    PairSlot { row: base + 7, column: base + 6 },
                    PairSlot { row: base + 9, column: base + 8 },
                    PairSlot { row: base + 11, column: base + 10 },
                    PairSlot { row: base + 13, column: base + 12 },
                    PairSlot { row: base + 15, column: base + 14 },
                ],
                score: i,
            };
            assert(slots.key_points =~= box_slots(i as int).key_points);
            list.push(slots);
            i += 1;
        }
        Some(list)
    }
}

} // verus!
