//! The anchor grid of a single-shot detector.
//!
//! An anchor is described exactly: the grid cell it sits in, the size of that
//! grid, and a symbolic shape. The order of the generated anchors is the order
//! of the rows of the detector's output.

use crate::row_major::{lemma_row_major_parts, lemma_row_major_split};
use vstd::prelude::*;

verus! {

/// Why a set of grid options is rejected.
#[derive(Clone, Copy, Debug, PartialEq, Eq, Structural)]
pub enum ConfigError {
    /// The number of strides differs from the number of layers.
    StrideCount,
    /// The feature-map height and width lists differ in length, or they are
    /// given and do not have one entry per layer.
    FeatureMapCount,
    /// No feature-map sizes are given and some stride is zero.
    ZeroStride,
}

/// The shape of an anchor box, as the rule that produced it.
#[derive(Clone, Copy, Debug, PartialEq, Eq, Structural)]
pub enum AnchorShape {
    /// Height and width are both one, whatever the layer.
    Unit,
    /// First box of the reduced lowest layer: aspect ratio one at the fixed
    /// scale of one tenth.
    LowestSquare,
    /// Second box of the reduced lowest layer: aspect ratio two at the scale
    /// of layer zero.
    LowestWide,
    /// Third box of the reduced lowest layer: aspect ratio one half at the
    /// scale of layer zero.
    LowestTall,
    /// The configured aspect ratio number `ratio` at the scale of `layer`.
    Configured { layer: usize, ratio: usize },
    /// The interpolated aspect ratio at the geometric mean of the scales of
    /// `layer` and of the layer after it (scale one past the last layer).
    Interpolated { layer: usize },
}

/// One prior box. Its centre is `(cell_y + offset_y) / grid_height` along the
/// rows and `(cell_x + offset_x) / grid_width` along the columns.
#[derive(Clone, Copy, Debug, PartialEq, Eq, Structural)]
pub struct Anchor {
    pub cell_y: usize,
    pub cell_x: usize,
    pub grid_height: usize,
    pub grid_width: usize,
    pub shape: AnchorShape,
}

/// What a set of grid options holds, as plain values.
pub struct OptionsView {
    pub input_size_width: usize,
    pub input_size_height: usize,
    pub num_layers: usize,
    pub feature_map_width: Seq<usize>,
    pub feature_map_height: Seq<usize>,
    pub strides: Seq<usize>,
    pub num_aspect_ratios: usize,
    pub reduce_boxes_in_lowest_layer: bool,
    pub interpolated_scale: bool,
    pub fixed_anchor_size: bool,
}

/// The first fault of a set of options, if it has one.
pub open spec fn config_fault(cfg: OptionsView) -> Option<ConfigError> {
    if cfg.strides.len() != cfg.num_layers {
        Some(ConfigError::StrideCount)
    } else if cfg.feature_map_height.len() != cfg.feature_map_width.len()
        || (cfg.feature_map_height.len() != 0 && cfg.feature_map_height.len() != cfg.num_layers) {
        Some(ConfigError::FeatureMapCount)
    } else if cfg.feature_map_height.len() == 0 && has_zero_stride(
        cfg.strides,
        cfg.strides.len() as int,
    ) {
        Some(ConfigError::ZeroStride)
    } else {
        None
    }
}

/// Number of grid cells along one axis when `input_size` pixels are covered
/// with one cell per `stride` pixels, the last cell possibly partial.
pub open spec fn cells_along(input_size: int, stride: int) -> int {
    if input_size <= 0 {
        0
    } else {
        (input_size - 1) / stride + 1
    }
}

/// Number of layers from `next` on, without a gap, whose stride equals that
/// of layer `first`.
pub open spec fn same_stride_run(strides: Seq<usize>, first: int, next: int) -> nat
    decreases strides.len() - next,
{
    if 0 <= first < strides.len() && 0 <= next < strides.len() && strides[next] == strides[first] {
        1 + same_stride_run(strides, first, next + 1)
    } else {
        0
    }
}

/// The layer after the group that starts at `first`: a group is a maximal run
/// of neighbouring layers with one stride.
pub open spec fn group_end(strides: Seq<usize>, first: int) -> int {
    first + 1 + same_stride_run(strides, first, first + 1)
}

/// The shapes that layer `layer` contributes to each cell, in order.
pub open spec fn layer_shapes(cfg: OptionsView, layer: int) -> Seq<AnchorShape> {
    if cfg.fixed_anchor_size {
        Seq::new(layer_shape_count(cfg, layer), |k: int| AnchorShape::Unit)
    } else if layer == 0 && cfg.reduce_boxes_in_lowest_layer {
        seq![AnchorShape::LowestSquare, AnchorShape::LowestWide, AnchorShape::LowestTall]
    } else {
        let configured = Seq::new(
            cfg.num_aspect_ratios as nat,
            |r: int| AnchorShape::Configured { layer: layer as usize, ratio: r as usize },
        );
        if cfg.interpolated_scale {
            configured.push(AnchorShape::Interpolated { layer: layer as usize })
        } else {
            configured
        }
    }
}

/// How many boxes layer `layer` contributes to each cell.
pub open spec fn layer_shape_count(cfg: OptionsView, layer: int) -> nat {
    if layer == 0 && cfg.reduce_boxes_in_lowest_layer {
        3
    } else if cfg.interpolated_scale {
        cfg.num_aspect_ratios as nat + 1
    } else {
        cfg.num_aspect_ratios as nat
    }
}

/// The shapes of the layers `first..end`, layer after layer.
pub open spec fn group_shapes(cfg: OptionsView, first: int, end: int) -> Seq<AnchorShape>
    decreases end - first,
{
    if first >= end {
        Seq::empty()
    } else {
        group_shapes(cfg, first, end - 1) + layer_shapes(cfg, end - 1)
    }
}

/// Rows of the feature map of layer `layer`.
pub open spec fn grid_height(cfg: OptionsView, layer: int) -> int {
    if cfg.feature_map_height.len() != 0 {
        cfg.feature_map_height[layer] as int
    } else {
        cells_along(cfg.input_size_height as int, cfg.strides[layer] as int)
    }
}

/// Columns of the feature map of layer `layer`.
pub open spec fn grid_width(cfg: OptionsView, layer: int) -> int {
    if cfg.feature_map_width.len() != 0 {
        cfg.feature_map_width[layer] as int
    } else {
        cells_along(cfg.input_size_width as int, cfg.strides[layer] as int)
    }
}

/// Anchor number `k` of one grid: cells are counted row by row, and each cell
/// holds one anchor per shape.
pub open spec fn grid_anchor_at(height: int, width: int, shapes: Seq<AnchorShape>, k: int) -> Anchor {
    let cell = k / shapes.len() as int;
    Anchor {
        cell_y: (cell / width) as usize,
        cell_x: (cell % width) as usize,
        grid_height: height as usize,
        grid_width: width as usize,
        shape: shapes[k % shapes.len() as int],
    }
}

/// The anchors of one grid: row after row, within a row cell after cell,
/// within a cell shape after shape.
pub open spec fn grid_anchors(height: int, width: int, shapes: Seq<AnchorShape>) -> Seq<Anchor> {
    Seq::new(
        (height * width * shapes.len()) as nat,
        |k: int| grid_anchor_at(height, width, shapes, k),
    )
}

/// A run of equal strides ends within the list.
pub proof fn lemma_run_within(strides: Seq<usize>, first: int, next: int)
    requires
        0 <= next <= strides.len(),
    ensures
        next + same_stride_run(strides, first, next) <= strides.len(),
    decreases strides.len() - next,
{
    if 0 <= first < strides.len() && next < strides.len() && strides[next] == strides[first] {
        lemma_run_within(strides, first, next + 1);
    }
}

/// The anchors of the groups that start at layer `first` or later.
pub open spec fn anchors_from(cfg: OptionsView, first: int) -> Seq<Anchor>
    decreases cfg.strides.len() - first,
    via anchors_from_decreases
{
    if first < 0 || first >= cfg.strides.len() {
        Seq::empty()
    } else {
        let end = group_end(cfg.strides, first);
        grid_anchors(grid_height(cfg, first), grid_width(cfg, first), group_shapes(cfg, first, end))
            + anchors_from(cfg, end)
    }
}

#[via_fn]
proof fn anchors_from_decreases(cfg: OptionsView, first: int) {
    if 0 <= first < cfg.strides.len() {
        lemma_run_within(cfg.strides, first, first + 1);
    }
}

/// The whole anchor list of a set of options.
pub open spec fn anchor_grid(cfg: OptionsView) -> Seq<Anchor> {
    anchors_from(cfg, 0)
}

/// Grid options that have been checked: one stride per layer, and feature-map
/// sizes either absent or one pair per layer.
pub struct Options {
    input_size_width: usize,
    input_size_height: usize,
    num_layers: usize,
    feature_map_width: Vec<usize>,
    feature_map_height: Vec<usize>,
    strides: Vec<usize>,
    num_aspect_ratios: usize,
    reduce_boxes_in_lowest_layer: bool,
    interpolated_scale: bool,
    fixed_anchor_size: bool,
}

impl View for Options {
    type V = OptionsView;

    closed spec fn view(&self) -> OptionsView {
        OptionsView {
            input_size_width: self.input_size_width,
            input_size_height: self.input_size_height,
            num_layers: self.num_layers,
            feature_map_width: self.feature_map_width@,
            feature_map_height: self.feature_map_height@,
            strides: self.strides@,
            num_aspect_ratios: self.num_aspect_ratios,
            reduce_boxes_in_lowest_layer: self.reduce_boxes_in_lowest_layer,
            interpolated_scale: self.interpolated_scale,
            fixed_anchor_size: self.fixed_anchor_size,
        }
    }
}

/// Whether some entry of `strides` before `end` is zero.
pub open spec fn has_zero_stride(strides: Seq<usize>, end: int) -> bool {
    exists|i: int| 0 <= i < end && strides[i] == 0
}

fn find_zero_stride(strides: &Vec<usize>) -> (found: bool)
    ensures
        found == has_zero_stride(strides@, strides@.len() as int),
{
    let mut i: usize = 0;
    while i < strides.len()
        invariant
            i <= strides.len(),
            !has_zero_stride(strides@, i as int),
        decreases strides.len() - i,
    {
        if strides[i] == 0 {
            return true;
        }
        i += 1;
    }
    false
}

impl Options {
    #[verifier::type_invariant]
    spec fn well_formed(self) -> bool {
        config_fault(self@) is None
    }

    /// Number of layers.
    pub fn num_layers(&self) -> (n: usize)
        ensures
            n == self@.num_layers,
            n == self@.strides.len(),
    {
        proof {
            use_type_invariant(self);
        }
        self.num_layers
    }

    /// The stride of each layer.
    pub fn strides(&self) -> (strides: &Vec<usize>)
        ensures
            strides@ == self@.strides,
    {
        &self.strides
    }

    /// Length of the configured aspect-ratio list.
    pub fn num_aspect_ratios(&self) -> (n: usize)
        ensures
            n == self@.num_aspect_ratios,
    {
        self.num_aspect_ratios
    }

    /// Whether every anchor has the unit shape.
    pub fn fixed_anchor_size(&self) -> (fixed: bool)
        ensures
            fixed == self@.fixed_anchor_size,
    {
        self.fixed_anchor_size
    }

    /// Checks the options and keeps them. `num_aspect_ratios` is the length
    /// of the configured aspect-ratio list; `interpolated_scale` says whether
    /// the interpolated aspect ratio is greater than zero.
    pub fn new(
        input_size_width: usize,
        input_size_height: usize,
        num_layers: usize,
        feature_map_width: Vec<usize>,
        feature_map_height: Vec<usize>,
        strides: Vec<usize>,
        num_aspect_ratios: usize,
        reduce_boxes_in_lowest_layer: bool,
        interpolated_scale: bool,
        fixed_anchor_size: bool,
    ) -> (made: Result<Options, ConfigError>)
        ensures
            match config_fault(
                (OptionsView {
                    input_size_width,
                    input_size_height,
                    num_layers,
                    feature_map_width: feature_map_width@,
                    feature_map_height: feature_map_height@,
                    strides: strides@,
                    num_aspect_ratios,
                    reduce_boxes_in_lowest_layer,
                    interpolated_scale,
                    fixed_anchor_size,
                }),
            ) {
                Some(fault) => made == Err::<Options, ConfigError>(fault),
                None => made is Ok && made->Ok_0@ == (OptionsView {
                    input_size_width,
                    input_size_height,
                    num_layers,
                    feature_map_width: feature_map_width@,
                    feature_map_height: feature_map_height@,
                    strides: strides@,
                    num_aspect_ratios,
                    reduce_boxes_in_lowest_layer,
                    interpolated_scale,
                    fixed_anchor_size,
                }),
            },
    {
        if strides.len() != num_layers {
            return Err(ConfigError::StrideCount);
        }
        if feature_map_height.len() != feature_map_width.len() || (feature_map_height.len() != 0
            && feature_map_height.len() != num_layers) {
            return Err(ConfigError::FeatureMapCount);
        }
        if feature_map_height.len() == 0 && find_zero_stride(&strides) {
            return Err(ConfigError::ZeroStride);
        }
        Ok(
            Options {
                input_size_width,
                input_size_height,
                num_layers,
                feature_map_width,
                feature_map_height,
                strides,
                num_aspect_ratios,
                reduce_boxes_in_lowest_layer,
                interpolated_scale,
                fixed_anchor_size,
            },
        )
    }
}

/// The order within a grid: anchor `a` of the cell in row `y` and column `x`
/// is number `(y * width + x) * shapes.len() + a`.
pub proof fn lemma_grid_position(
    height: int,
    width: int,
    shapes: Seq<AnchorShape>,
    y: int,
    x: int,
    a: int,
)
    requires
        0 <= y < height,
        0 <= x < width,
        0 <= a < shapes.len(),
    ensures
        0 <= (y * width + x) * shapes.len() + a < height * width * shapes.len(),
        grid_anchors(height, width, shapes)[(y * width + x) * shapes.len() + a] == (Anchor {
            cell_y: y as usize,
            cell_x: x as usize,
            grid_height: height as usize,
            grid_width: width as usize,
            shape: shapes[a],
        }),
{
    lemma_row_major_split(height, width, shapes.len() as int, y, x, a);
}

/// Appends the anchors of one grid.
fn append_grid(anchors: &mut Vec<Anchor>, height: usize, width: usize, shapes: &Vec<AnchorShape>)
    ensures
        final(anchors)@ == old(anchors)@ + grid_anchors(height as int, width as int, shapes@),
{
    let ghost before = anchors@;
    let ghost grid = grid_anchors(height as int, width as int, shapes@);
    let ghost n = shapes@.len() as int;
    let ghost cell: int = 0;
    let ghost count: int = 0;
    let mut y: usize = 0;
    while y < height
        invariant
            y <= height,
            n == shapes@.len(),
            grid == grid_anchors(height as int, width as int, shapes@),
            cell == y * width,
            count == cell * n,
            anchors@.len() == before.len() + count,
            forall|k: int| 0 <= k < before.len() ==> anchors@[k] == before[k],
            forall|k: int|
                before.len() <= k < anchors@.len() ==> #[trigger] anchors@[k] == grid[k
                    - before.len()],
        decreases height - y,
    {
        let mut x: usize = 0;
        while x < width
            invariant
                y < height,
                x <= width,
                n == shapes@.len(),
                grid == grid_anchors(height as int, width as int, shapes@),
                cell == y * width + x,
                count == cell * n,
                anchors@.len() == before.len() + count,
                forall|k: int| 0 <= k < before.len() ==> anchors@[k] == before[k],
                forall|k: int|
                before.len() <= k < anchors@.len() ==> #[trigger] anchors@[k] == grid[k
                    - before.len()],
            decreases width - x,
        {
            let mut a: usize = 0;
            while a < shapes.len()
                invariant
                    y < height,
                    x < width,
                    a <= shapes.len(),
                    n == shapes@.len(),
                    grid == grid_anchors(height as int, width as int, shapes@),
                    cell == y * width + x,
                    count == cell * n + a,
                    anchors@.len() == before.len() + count,
                    forall|k: int| 0 <= k < before.len() ==> anchors@[k] == before[k],
                    forall|k: int|
                before.len() <= k < anchors@.len() ==> #[trigger] anchors@[k] == grid[k
                    - before.len()],
                decreases shapes.len() - a,
            {
                proof {
                    lemma_grid_position(
                        height as int,
                        width as int,
                        shapes@,
                        y as int,
                        x as int,
                        a as int,
                    );
                }
                anchors.push(
                    Anchor {
                        cell_y: y,
                        cell_x: x,
                        grid_height: height,
                        grid_width: width,
                        shape: shapes[a],
                    },
                );
                a += 1;
                proof {
                    count = count + 1;
                }
            }
            x += 1;
            proof {
                assert((cell + 1) * n == cell * n + n) by (nonlinear_arith);
                cell = cell + 1;
            }
        }
        y += 1;
        proof {
            assert((y - 1) * width + width == y * width) by (nonlinear_arith);
        }
    }
    assert(anchors@ =~= before + grid);
}

/// Appends the shapes that one layer contributes to each cell.
fn push_layer_shapes(options: &Options, layer: usize, shapes: &mut Vec<AnchorShape>)
    ensures
        final(shapes)@ == old(shapes)@ + layer_shapes(options@, layer as int),
{
    let ghost before = shapes@;
    let ghost cfg = options@;
    if layer == 0 && options.reduce_boxes_in_lowest_layer {
        if options.fixed_anchor_size {
            shapes.push(AnchorShape::Unit);
            shapes.push(AnchorShape::Unit);
            shapes.push(AnchorShape::Unit);
        } else {
            shapes.push(AnchorShape::LowestSquare);
            shapes.push(AnchorShape::LowestWide);
            shapes.push(AnchorShape::LowestTall);
        }
        assert(shapes@ =~= before + layer_shapes(cfg, layer as int));
    } else {
        let mut ratio: usize = 0;
        while ratio < options.num_aspect_ratios
            invariant
                cfg == options@,
                ratio <= options.num_aspect_ratios,
                !(layer == 0 && cfg.reduce_boxes_in_lowest_layer),
                shapes@.len() == before.len() + ratio,
                forall|k: int| 0 <= k < before.len() ==> shapes@[k] == before[k],
                forall|k: int|
                    before.len() <= k < shapes@.len() ==> #[trigger] shapes@[k] == (
                    if cfg.fixed_anchor_size {
                        AnchorShape::Unit
                    } else {
                        AnchorShape::Configured { layer, ratio: (k - before.len()) as usize }
                    }),
            decreases options.num_aspect_ratios - ratio,
        {
            if options.fixed_anchor_size {
                shapes.push(AnchorShape::Unit);
            } else {
                shapes.push(AnchorShape::Configured { layer, ratio });
            }
            ratio += 1;
        }
        if options.interpolated_scale {
            if options.fixed_anchor_size {
                shapes.push(AnchorShape::Unit);
            } else {
                shapes.push(AnchorShape::Interpolated { layer });
            }
        }
        assert(shapes@ =~= before + layer_shapes(cfg, layer as int));
    }
}

fn grid_extent(input_size: usize, stride: usize) -> (cells: usize)
    requires
        stride > 0,
    ensures
        cells == cells_along(input_size as int, stride as int),
{
    if input_size == 0 {
        0
    } else {
        (input_size - 1) / stride + 1
    }
}

/// Generates the anchors of the checked options, in the order of the rows of
/// the detector's output: group after group of layers with one stride, within
/// a group row after row, cell after cell, and within a cell the shapes of the
/// group's layers in layer order.
pub fn generate(options: &Options) -> (anchors: Vec<Anchor>)
    ensures
        anchors@ == anchor_grid(options@),
{
    proof {
        use_type_invariant(options);
    }
    let ghost cfg = options@;
    let mut anchors: Vec<Anchor> = Vec::new();
    let mut layer_id: usize = 0;
    while layer_id < options.num_layers
        invariant
            cfg == options@,
            config_fault(cfg) is None,
            layer_id <= options.num_layers,
            anchors@ + anchors_from(cfg, layer_id as int) == anchor_grid(cfg),
        decreases options.num_layers - layer_id,
    {
        let mut shapes: Vec<AnchorShape> = Vec::new();
        let mut last: usize = layer_id;
        while last < options.strides.len() && options.strides[last] == options.strides[layer_id]
            invariant
                cfg == options@,
                layer_id < options.strides.len(),
                layer_id <= last <= options.strides.len(),
                last == layer_id || last + same_stride_run(cfg.strides, layer_id as int, last as int)
                    == group_end(cfg.strides, layer_id as int),
                shapes@ == group_shapes(cfg, layer_id as int, last as int),
            decreases options.strides.len() - last,
        {
            push_layer_shapes(options, last, &mut shapes);
            last += 1;
        }
        assert(last == group_end(cfg.strides, layer_id as int));
        let height: usize;
        let width: usize;
        if options.feature_map_height.len() != 0 {
            height = options.feature_map_height[layer_id];
            width = options.feature_map_width[layer_id];
        } else {
            let stride = options.strides[layer_id];
            assert(stride != 0) by {
                if stride == 0 {
                    assert(has_zero_stride(cfg.strides, cfg.strides.len() as int));
                }
            }
            height = grid_extent(options.input_size_height, stride);
            width = grid_extent(options.input_size_width, stride);
        }
        let ghost done = anchors@;
        append_grid(&mut anchors, height, width, &shapes);
        proof {
            let grid = grid_anchors(height as int, width as int, shapes@);
            assert(anchors_from(cfg, layer_id as int) == grid + anchors_from(cfg, last as int));
            assert((done + grid) + anchors_from(cfg, last as int) =~= done + (grid + anchors_from(
                cfg,
                last as int,
            )));
        }
        layer_id = last;
    }
    assert(anchors_from(cfg, layer_id as int) =~= Seq::<Anchor>::empty());
    assert(anchors@ =~= anchors@ + Seq::<Anchor>::empty());
    anchors
}

/// How many boxes the layers `first..end` contribute to each cell.
pub open spec fn group_shape_count(cfg: OptionsView, first: int, end: int) -> nat
    decreases end - first,
{
    if first >= end {
        0
    } else {
        group_shape_count(cfg, first, end - 1) + layer_shape_count(cfg, end - 1)
    }
}

/// How many anchors the groups that start at layer `first` or later hold.
pub open spec fn anchor_count_from(cfg: OptionsView, first: int) -> int
    decreases cfg.strides.len() - first,
    via anchor_count_from_decreases
{
    if first < 0 || first >= cfg.strides.len() {
        0
    } else {
        let end = group_end(cfg.strides, first);
        grid_height(cfg, first) * grid_width(cfg, first) * group_shape_count(cfg, first, end)
            + anchor_count_from(cfg, end)
    }
}

#[via_fn]
proof fn anchor_count_from_decreases(cfg: OptionsView, first: int) {
    if 0 <= first < cfg.strides.len() {
        lemma_run_within(cfg.strides, first, first + 1);
    }
}

/// How many anchors a set of options yields: for each group of layers with one
/// stride, rows times columns times the boxes that its layers give a cell.
pub open spec fn anchor_count(cfg: OptionsView) -> int {
    anchor_count_from(cfg, 0)
}

/// A group has as many shapes as its layers contribute, and with a fixed
/// anchor size each of them is the unit shape.
pub proof fn lemma_group_shapes(cfg: OptionsView, first: int, end: int)
    ensures
        group_shapes(cfg, first, end).len() == group_shape_count(cfg, first, end),
        cfg.fixed_anchor_size ==> forall|k: int|
            0 <= k < group_shapes(cfg, first, end).len() ==> #[trigger] group_shapes(
                cfg,
                first,
                end,
            )[k] == AnchorShape::Unit,
    decreases end - first,
{
    if first < end {
        lemma_group_shapes(cfg, first, end - 1);
    }
}

/// The grid of a layer of valid options fits the machine's integers.
proof fn lemma_grid_bounds(cfg: OptionsView, layer: int)
    requires
        config_fault(cfg) is None,
        0 <= layer < cfg.strides.len(),
    ensures
        0 <= grid_height(cfg, layer) <= usize::MAX,
        0 <= grid_width(cfg, layer) <= usize::MAX,
{
    if cfg.feature_map_height.len() == 0 {
        let stride = cfg.strides[layer] as int;
        assert(stride > 0) by {
            if stride == 0 {
                assert(has_zero_stride(cfg.strides, cfg.strides.len() as int));
            }
        }
        let h = cfg.input_size_height as int;
        let w = cfg.input_size_width as int;
        assert(h > 0 ==> 0 <= (h - 1) / stride <= h - 1) by (nonlinear_arith)
            requires
                stride > 0,
        ;
        assert(w > 0 ==> 0 <= (w - 1) / stride <= w - 1) by (nonlinear_arith)
            requires
                stride > 0,
        ;
    }
}

/// Every anchor of a grid lies in a cell of that grid.
proof fn lemma_grid_anchor_inside(height: int, width: int, shapes: Seq<AnchorShape>, k: int)
    requires
        0 <= height <= usize::MAX,
        0 <= width <= usize::MAX,
        0 <= k < height * width * shapes.len(),
    ensures
        grid_anchor_at(height, width, shapes, k).cell_y < height,
        grid_anchor_at(height, width, shapes, k).cell_x < width,
        grid_anchor_at(height, width, shapes, k).grid_height == height,
        grid_anchor_at(height, width, shapes, k).grid_width == width,
        0 <= k % (shapes.len() as int) < shapes.len(),
{
    lemma_row_major_parts(height, width, shapes.len() as int, k);
}

/// What holds of the anchors of the groups from layer `first` on.
proof fn lemma_anchors_from(cfg: OptionsView, first: int)
    requires
        config_fault(cfg) is None,
        0 <= first,
    ensures
        anchors_from(cfg, first).len() == anchor_count_from(cfg, first),
        forall|i: int|
            0 <= i < anchors_from(cfg, first).len() ==> {
                let a = #[trigger] anchors_from(cfg, first)[i];
                &&& a.cell_y < a.grid_height
                &&& a.cell_x < a.grid_width
                &&& cfg.fixed_anchor_size ==> a.shape == AnchorShape::Unit
            },
    decreases cfg.strides.len() - first,
{
    if first < cfg.strides.len() {
        let end = group_end(cfg.strides, first);
        lemma_run_within(cfg.strides, first, first + 1);
        lemma_anchors_from(cfg, end);
        lemma_group_shapes(cfg, first, end);
        lemma_grid_bounds(cfg, first);
        let height = grid_height(cfg, first);
        let width = grid_width(cfg, first);
        let shapes = group_shapes(cfg, first, end);
        let grid = grid_anchors(height, width, shapes);
        assert(height * width * shapes.len() >= 0) by (nonlinear_arith)
            requires
                height >= 0,
                width >= 0,
                shapes.len() >= 0,
        ;
        assert forall|i: int| 0 <= i < anchors_from(cfg, first).len() implies {
            let a = #[trigger] anchors_from(cfg, first)[i];
            &&& a.cell_y < a.grid_height
            &&& a.cell_x < a.grid_width
            &&& cfg.fixed_anchor_size ==> a.shape == AnchorShape::Unit
        } by {
            if i < grid.len() {
                lemma_grid_anchor_inside(height, width, shapes, i);
                assert(anchors_from(cfg, first)[i] == grid[i]);
            } else {
                assert(anchors_from(cfg, first)[i] == anchors_from(cfg, end)[i - grid.len()]);
            }
        }
    }
}

/// The generated list has `anchor_count` entries. Each anchor lies in a cell
/// of its own grid, so with offsets strictly between zero and one its centre
/// lies strictly inside the unit square; and where the anchor size is fixed,
/// every anchor has the unit shape.
pub proof fn lemma_anchor_grid(cfg: OptionsView)
    requires
        config_fault(cfg) is None,
    ensures
        anchor_grid(cfg).len() == anchor_count(cfg),
        forall|i: int|
            0 <= i < anchor_grid(cfg).len() ==> {
                let a = #[trigger] anchor_grid(cfg)[i];
                &&& a.cell_y < a.grid_height
                &&& a.cell_x < a.grid_width
                &&& cfg.fixed_anchor_size ==> a.shape == AnchorShape::Unit
            },
{
    lemma_anchors_from(cfg, 0);
}

} // verus!
