//! Fitting a frame of any size into the square input of a model: the frame is
//! scaled so that its longer side fills the square, centred, and the rest of
//! the square is padding. The mapping back from the square to the frame is
//! kept as exact ratios.

use crate::row_major::{lemma_row_major_parts, lemma_row_major_split, row_major_index};
use vstd::prelude::*;

verus! {

/// What an RGB frame holds: its size and its channel values, row after row,
/// three to a pixel.
pub struct RgbFrameView {
    pub width: int,
    pub height: int,
    pub data: Seq<u8>,
}

/// An RGB frame with eight bits to a channel. It holds exactly three values
/// for each of its pixels.
pub struct RgbFrame {
    width: u32,
    height: u32,
    data: Vec<u8>,
}

impl View for RgbFrame {
    type V = RgbFrameView;

    closed spec fn view(&self) -> RgbFrameView {
        RgbFrameView { width: self.width as int, height: self.height as int, data: self.data@ }
    }
}

impl RgbFrame {
    #[verifier::type_invariant]
    spec fn well_formed(self) -> bool {
        self.data@.len() == self.height * self.width * 3
    }

    /// Makes a frame of the given size from its channel values, if there are
    /// exactly three for each pixel.
    pub fn new(width: u32, height: u32, data: Vec<u8>) -> (made: Option<RgbFrame>)
        ensures
            made is Some <==> data@.len() == height * width * 3,
            made matches Some(frame) ==> frame@ == (RgbFrameView {
                width: width as int,
                height: height as int,
                data: data@,
            }),
    {
        assert(height * width <= 0xffff_ffff * 0xffff_ffff) by (nonlinear_arith)
            requires
                0 <= height <= 0xffff_ffff,
                0 <= width <= 0xffff_ffff,
        ;
        let wanted: u128 = height as u128 * width as u128 * 3;
        if data.len() as u128 == wanted {
            Some(RgbFrame { width, height, data })
        } else {
            None
        }
    }

    pub fn width(&self) -> (width: u32)
        ensures
            width == self@.width,
    {
        self.width
    }

    pub fn height(&self) -> (height: u32)
        ensures
            height == self@.height,
    {
        self.height
    }

    /// The channel values, row after row.
    pub fn data(&self) -> (data: &Vec<u8>)
        ensures
            data@ == self@.data,
            data@.len() == self@.height * self@.width * 3,
    {
        proof {
            use_type_invariant(self);
        }
        &self.data
    }

    /// Channel `c` of the pixel in column `x` of row `y`.
    pub fn channel(&self, x: usize, y: usize, c: usize) -> (value: u8)
        requires
            x < self@.width,
            y < self@.height,
            c < 3,
        ensures
            value == self@.data[row_major_index(self@.width, 3, y as int, x as int, c as int)],
    {
        proof {
            use_type_invariant(self);
            lemma_row_major_split(
                self.height as int,
                self.width as int,
                3,
                y as int,
                x as int,
                c as int,
            );
            let w = self.width as int;
            let row = y as int;
            assert(0 <= row * w) by (nonlinear_arith)
                requires
                    0 <= row,
                    0 <= w,
            ;
            assert(row_major_index(w, 3, row, x as int, c as int) == (row * w + x) * 3 + c);
            assert(self.data@.len() == self.data.len() <= usize::MAX);
            assert(row * w == y * (self.width as usize));
        }
        let width = self.width as usize;
        self.data[(y * width + x) * 3 + c]
    }
}

/// One value of the square model input.
#[derive(Clone, Copy, Debug, PartialEq, Eq, Structural)]
pub enum Sample {
    /// Outside the frame: the neutral fill.
    Padding,
    /// A channel value of the frame.
    Channel(u8),
}

/// The mapping from the square model input back to the frame, one axis at a
/// time: a position `p` of the square lies at
/// `source * (p - origin) / content` in the frame.
#[derive(Clone, Copy, Debug, PartialEq, Eq, Structural)]
pub struct Transform {
    pub source_height: usize,
    pub source_width: usize,
    pub content_height: usize,
    pub content_width: usize,
    pub origin_y: usize,
    pub origin_x: usize,
}

/// Cells of padding before a content of `extent` cells centred in `size`
/// cells; where the padding is odd, the larger half comes first.
pub open spec fn padding_before(size: int, extent: int) -> int {
    (1 + size - extent) / 2
}

/// Value number `k` of the square of side `size` that holds `frame` in its
/// centre.
pub open spec fn padded_sample(size: int, frame: RgbFrameView, k: int) -> Sample {
    let y = (k / 3) / size;
    let x = (k / 3) % size;
    let c = k % 3;
    let y0 = padding_before(size, frame.height);
    let x0 = padding_before(size, frame.width);
    if y0 <= y < y0 + frame.height && x0 <= x < x0 + frame.width {
        Sample::Channel(frame.data[row_major_index(frame.width, 3, y - y0, x - x0, c)])
    } else {
        Sample::Padding
    }
}

/// The square of side `size` that holds `frame` in its centre: row after row,
/// three values to a pixel.
pub open spec fn padded(size: int, frame: RgbFrameView) -> Seq<Sample> {
    Seq::new((size * size * 3) as nat, |k: int| padded_sample(size, frame, k))
}

/// Centres a frame in a square of side `size` without scaling it. Returns the
/// values of the square and the rows and columns `(y0, x0, y1, x1)` that the
/// frame takes, or nothing if the frame does not fit.
pub fn convert_with_padding(size: usize, src: &RgbFrame) -> (out: Option<
    (Vec<Sample>, (usize, usize, usize, usize)),
>)
    ensures
        out is Some <==> src@.height <= size && src@.width <= size,
        out matches Some((samples, rect)) ==> {
            &&& samples@ == padded(size as int, src@)
            &&& rect.0 == padding_before(size as int, src@.height)
            &&& rect.1 == padding_before(size as int, src@.width)
            &&& rect.2 == rect.0 + src@.height
            &&& rect.3 == rect.1 + src@.width
            &&& rect.2 <= size
            &&& rect.3 <= size
        },
{
    let height = src.height() as usize;
    let width = src.width() as usize;
    if height > size || width > size {
        return None;
    }
    let y0 = (size - height) / 2 + (size - height) % 2;
    let x0 = (size - width) / 2 + (size - width) % 2;
    let y1 = y0 + height;
    let x1 = x0 + width;
    let ghost want = padded(size as int, src@);
    let ghost cell: int = 0;
    let mut samples: Vec<Sample> = Vec::new();
    let mut y: usize = 0;
    while y < size
        invariant
            y <= size,
            height == src@.height,
            width == src@.width,
            y0 == padding_before(size as int, height as int),
            x0 == padding_before(size as int, width as int),
            y1 == y0 + height,
            x1 == x0 + width,
            want == padded(size as int, src@),
            cell == y * size,
            samples@.len() == cell * 3,
            forall|k: int| 0 <= k < samples@.len() ==> #[trigger] samples@[k] == want[k],
        decreases size - y,
    {
        let mut x: usize = 0;
        while x < size
            invariant
                y < size,
                x <= size,
                height == src@.height,
                width == src@.width,
                y0 == padding_before(size as int, height as int),
                x0 == padding_before(size as int, width as int),
                y1 == y0 + height,
                x1 == x0 + width,
                want == padded(size as int, src@),
                cell == y * size + x,
                samples@.len() == cell * 3,
                forall|k: int| 0 <= k < samples@.len() ==> #[trigger] samples@[k] == want[k],
            decreases size - x,
        {
            let mut c: usize = 0;
            while c < 3
                invariant
                    y < size,
                    x < size,
                    c <= 3,
                    height == src@.height,
                    width == src@.width,
                    y0 == padding_before(size as int, height as int),
                    x0 == padding_before(size as int, width as int),
                    y1 == y0 + height,
                    x1 == x0 + width,
                    want == padded(size as int, src@),
                    cell == y * size + x,
                    samples@.len() == cell * 3 + c,
                    forall|k: int| 0 <= k < samples@.len() ==> #[trigger] samples@[k] == want[k],
                decreases 3 - c,
            {
                proof {
                    lemma_row_major_split(
                        size as int,
                        size as int,
                        3,
                        y as int,
                        x as int,
                        c as int,
                    );
                }
                if y0 <= y && y < y1 && x0 <= x && x < x1 {
                    samples.push(Sample::Channel(src.channel(x - x0, y - y0, c)));
                } else {
                    samples.push(Sample::Padding);
                }
                c += 1;
            }
            x += 1;
            proof {
                cell = cell + 1;
            }
        }
        y += 1;
        proof {
            assert((y - 1) * size + size == y * size) by (nonlinear_arith);
        }
    }
    assert(samples@ =~= want);
    Some((samples, (y0, x0, y1, x1)))
}

/// The channel values that triangle-filter resampling makes of the channel
/// values `data` of a frame `width` by `height`, for a frame `new_width` by
/// `new_height`.
pub uninterp spec fn triangle_resized(
    data: Seq<u8>,
    width: u32,
    height: u32,
    new_width: u32,
    new_height: u32,
) -> Seq<u8>;

/// The longest side, in pixels, that a frame may have before or after
/// resampling. The resampler places pixels in single precision, and up to this
/// side every position it works with is told apart from its neighbours.
pub const MAX_RESAMPLED_SIDE: usize = 1048576;

/// Whether a frame `width` by `height` can be resampled to `new_width` by
/// `new_height` on this machine: no side is longer than
/// `MAX_RESAMPLED_SIDE`, and the two buffers that resampling allocates can be
/// had, an intermediate frame of the old width and the new height with four
/// four-byte values to a pixel, and the new frame.
pub open spec fn can_resample(width: int, height: int, new_width: int, new_height: int) -> bool {
    &&& width <= MAX_RESAMPLED_SIDE
    &&& height <= MAX_RESAMPLED_SIDE
    &&& new_width <= MAX_RESAMPLED_SIDE
    &&& new_height <= MAX_RESAMPLED_SIDE
    &&& 16 * width * new_height <= isize::MAX
    &&& 3 * new_width * new_height <= isize::MAX
}

/// `image::imageops::resize` with `FilterType::Triangle`, on a frame given as
/// its raw channel values. The result is that function's answer for these
/// arguments, and it holds three values for each pixel of the new size; the
/// values themselves are not described here. Left out are the sizes on which
/// that function may stop the program: those whose buffers exceed what a
/// vector can hold, and those so long that two neighbouring pixels fall on one
/// position in single precision, which leaves a pixel without any weight.
#[verifier::external_body]
fn resize_triangle(data: &Vec<u8>, width: u32, height: u32, new_width: u32, new_height: u32) -> (out:
    Vec<u8>)
    requires
        data@.len() == height * width * 3,
        can_resample(width as int, height as int, new_width as int, new_height as int),
    ensures
        out@ == triangle_resized(data@, width, height, new_width, new_height),
        out@.len() == new_height * new_width * 3,
{
    let frame = image::ImageBuffer::<image::Rgb<u8>, &[u8]>::from_raw(
        width,
        height,
        data.as_slice(),
    ).unwrap();
    image::imageops::resize(
        &frame,
        new_width,
        new_height,
        image::imageops::FilterType::Triangle,
    ).into_raw()
}

/// The smaller of two numbers.
pub open spec fn lesser(a: int, b: int) -> int {
    if a <= b {
        a
    } else {
        b
    }
}

/// Rows of a frame `height` by `width` once its longer side is scaled to
/// `size`: the exact quotient rounded to the nearest integer, halves up.
pub open spec fn scaled_height(size: int, height: int, width: int) -> int {
    (size * lesser(height, width) + width / 2) / width
}

/// Columns of a frame `height` by `width` once its longer side is scaled to
/// `size`.
pub open spec fn scaled_width(size: int, height: int, width: int) -> int {
    (size * lesser(height, width) + height / 2) / height
}

/// Whether the frame is placed as it is: its longer side is `size` already.
pub open spec fn keeps_size(size: int, height: int, width: int) -> bool {
    (if height >= width {
        height
    } else {
        width
    }) == size
}

/// Rows that the frame takes in the square.
pub open spec fn content_height(size: int, height: int, width: int) -> int {
    if keeps_size(size, height, width) {
        height
    } else {
        scaled_height(size, height, width)
    }
}

/// Columns that the frame takes in the square.
pub open spec fn content_width(size: int, height: int, width: int) -> int {
    if keeps_size(size, height, width) {
        width
    } else {
        scaled_width(size, height, width)
    }
}

/// Whether a frame `height` by `width` can be fitted into a square of side
/// `size`: the frame is not empty, what it takes in the square is not empty,
/// and where it has to be resampled, it can be.
pub open spec fn can_letterbox(size: int, height: int, width: int) -> bool {
    &&& height > 0
    &&& width > 0
    &&& content_height(size, height, width) > 0
    &&& content_width(size, height, width) > 0
    &&& !keeps_size(size, height, width) ==> can_resample(
        width,
        height,
        content_width(size, height, width),
        content_height(size, height, width),
    )
}

/// The frame as it stands in the square: itself, or resampled.
pub open spec fn content_frame(size: int, frame: RgbFrameView) -> RgbFrameView {
    if keeps_size(size, frame.height, frame.width) {
        frame
    } else {
        RgbFrameView {
            width: scaled_width(size, frame.height, frame.width),
            height: scaled_height(size, frame.height, frame.width),
            data: triangle_resized(
                frame.data,
                frame.width as u32,
                frame.height as u32,
                scaled_width(size, frame.height, frame.width) as u32,
                scaled_height(size, frame.height, frame.width) as u32,
            ),
        }
    }
}

/// The mapping from a square of side `size` back to a frame `height` by
/// `width` that was fitted into it.
pub open spec fn letterbox_transform(size: int, height: int, width: int) -> Transform {
    Transform {
        source_height: height as usize,
        source_width: width as usize,
        content_height: content_height(size, height, width) as usize,
        content_width: content_width(size, height, width) as usize,
        origin_y: padding_before(size, content_height(size, height, width)) as usize,
        origin_x: padding_before(size, content_width(size, height, width)) as usize,
    }
}

/// The longer side is scaled to `size` exactly, and the other side to no more.
pub proof fn lemma_scaled_sides(size: int, height: int, width: int)
    requires
        0 <= size,
        0 < height,
        0 < width,
    ensures
        height >= width ==> scaled_height(size, height, width) == size,
        width >= height ==> scaled_width(size, height, width) == size,
        0 <= scaled_height(size, height, width) <= size,
        0 <= scaled_width(size, height, width) <= size,
{
    lemma_rounded_quotient(size, lesser(height, width), width);
    lemma_rounded_quotient(size, lesser(height, width), height);
}

/// `size * part / whole`, rounded, is at most `size` where `part` is at most
/// `whole`, and is `size` where the two are equal.
proof fn lemma_rounded_quotient(size: int, part: int, whole: int)
    requires
        0 <= size,
        0 <= part <= whole,
        0 < whole,
    ensures
        0 <= (size * part + whole / 2) / whole <= size,
        part == whole ==> (size * part + whole / 2) / whole == size,
{
    let half = whole / 2;
    let top = size * part + half;
    assert(0 <= size * part <= size * whole) by (nonlinear_arith)
        requires
            0 <= size,
            0 <= part <= whole,
    ;
    assert(0 <= top / whole <= size) by (nonlinear_arith)
        requires
            0 <= top < size * whole + whole,
            0 < whole,
    ;
    if part == whole {
        assert(top == whole * size + half) by (nonlinear_arith)
            requires
                top == size * whole + half,
        ;
        vstd::arithmetic::div_mod::lemma_fundamental_div_mod_converse(top, whole, size, half);
    }
}

/// The mapping of a frame that can be fitted has no empty side, and the rows
/// and columns that the frame takes lie within the square.
pub proof fn lemma_letterbox_transform(size: int, height: int, width: int)
    requires
        0 <= size <= usize::MAX,
        height <= u32::MAX,
        width <= u32::MAX,
        can_letterbox(size, height, width),
    ensures
        letterbox_transform(size, height, width).source_height == height > 0,
        letterbox_transform(size, height, width).source_width == width > 0,
        letterbox_transform(size, height, width).content_height == content_height(
            size,
            height,
            width,
        ) > 0,
        letterbox_transform(size, height, width).content_width == content_width(
            size,
            height,
            width,
        ) > 0,
        letterbox_transform(size, height, width).origin_y + content_height(size, height, width)
            <= size,
        letterbox_transform(size, height, width).origin_x + content_width(size, height, width)
            <= size,
        height >= width ==> content_height(size, height, width) == size,
        width >= height ==> content_width(size, height, width) == size,
{
    lemma_scaled_sides(size, height, width);
}

/// Fits a frame into a square of side `size`: the frame is resampled, unless
/// its longer side is `size` already, so that the longer side fills the
/// square, and is centred in it. Returns the values of the square and the
/// mapping from the square back to the frame, or nothing where
/// `can_letterbox` does not hold.
pub fn resize_keeping_aspect(size: usize, src: &RgbFrame) -> (out: Option<(Vec<Sample>, Transform)>)
    ensures
        out is Some <==> can_letterbox(size as int, src@.height, src@.width),
        out matches Some((samples, transform)) ==> {
            &&& samples@ == padded(size as int, content_frame(size as int, src@))
            &&& transform == letterbox_transform(size as int, src@.height, src@.width)
        },
{
    let height = src.height();
    let width = src.width();
    if height == 0 || width == 0 {
        return None;
    }
    let longer = if height >= width {
        height
    } else {
        width
    };
    if longer as usize == size {
        match convert_with_padding(size, src) {
            Some((samples, rect)) => Some(
                (
                    samples,
                    Transform {
                        source_height: height as usize,
                        source_width: width as usize,
                        content_height: height as usize,
                        content_width: width as usize,
                        origin_y: rect.0,
                        origin_x: rect.1,
                    },
                ),
            ),
            None => None,
        }
    } else {
        let shorter = if height <= width {
            height
        } else {
            width
        };
        proof {
            lemma_scaled_sides(size as int, height as int, width as int);
            assert(0 <= size * shorter <= 0xffff_ffff_ffff_ffff * 0xffff_ffff) by (nonlinear_arith)
                requires
                    0 <= size <= 0xffff_ffff_ffff_ffff,
                    0 <= shorter <= 0xffff_ffff,
            ;
        }
        let scale: u128 = size as u128 * shorter as u128;
        let scaled_h: u128 = (scale + (width / 2) as u128) / width as u128;
        let scaled_w: u128 = (scale + (height / 2) as u128) / height as u128;
        if scaled_h == 0 || scaled_w == 0 {
            return None;
        }
        if width as usize > MAX_RESAMPLED_SIDE || height as usize > MAX_RESAMPLED_SIDE || scaled_w
            > MAX_RESAMPLED_SIDE as u128 || scaled_h > MAX_RESAMPLED_SIDE as u128 {
            return None;
        }
        proof {
            assert(0 <= 16 * width * scaled_h <= 16 * 0xffff_ffff * 0xffff_ffff) by (nonlinear_arith)
                requires
                    0 <= width <= 0xffff_ffff,
                    0 <= scaled_h <= 0xffff_ffff,
            ;
            assert(0 <= 3 * scaled_w * scaled_h <= 3 * 0xffff_ffff * 0xffff_ffff) by (nonlinear_arith)
                requires
                    0 <= scaled_w <= 0xffff_ffff,
                    0 <= scaled_h <= 0xffff_ffff,
            ;
        }
        if 16 * (width as u128) * scaled_h > isize::MAX as u128 || 3 * scaled_w * scaled_h
            > isize::MAX as u128 {
            return None;
        }
        let new_height = scaled_h as u32;
        let new_width = scaled_w as u32;
        let resized = resize_triangle(src.data(), width, height, new_width, new_height);
        let content = RgbFrame { width: new_width, height: new_height, data: resized };
        match convert_with_padding(size, &content) {
            Some((samples, rect)) => Some(
                (
                    samples,
                    Transform {
                        source_height: height as usize,
                        source_width: width as usize,
                        content_height: new_height as usize,
                        content_width: new_width as usize,
                        origin_y: rect.0,
                        origin_x: rect.1,
                    },
                ),
            ),
            None => None,
        }
    }
}

/// A position along one axis as an exact fraction `num / den`.
pub struct Ratio {
    pub num: int,
    pub den: int,
}

impl Ratio {
    /// The fraction with the value of the whole number `n`.
    pub open spec fn whole(n: int) -> Ratio {
        Ratio { num: n, den: 1 }
    }

    /// Whether two fractions have one value.
    pub open spec fn same_value(self, other: Ratio) -> bool {
        self.num * other.den == other.num * self.den
    }
}

impl Transform {
    /// Where row `p` of the square lies in the frame:
    /// `source_height * (p - origin_y) / content_height`.
    pub open spec fn source_row(self, p: Ratio) -> Ratio {
        Ratio {
            num: self.source_height * (p.num - self.origin_y * p.den),
            den: self.content_height * p.den,
        }
    }

    /// Where column `p` of the square lies in the frame.
    pub open spec fn source_column(self, p: Ratio) -> Ratio {
        Ratio {
            num: self.source_width * (p.num - self.origin_x * p.den),
            den: self.content_width * p.den,
        }
    }

    /// Where row `s` of the frame comes to lie in the square:
    /// `origin_y + s * content_height / source_height`.
    pub open spec fn model_row(self, s: Ratio) -> Ratio {
        Ratio {
            num: self.origin_y * (self.source_height * s.den) + s.num * self.content_height,
            den: self.source_height * s.den,
        }
    }

    /// Where column `s` of the frame comes to lie in the square.
    pub open spec fn model_column(self, s: Ratio) -> Ratio {
        Ratio {
            num: self.origin_x * (self.source_width * s.den) + s.num * self.content_width,
            den: self.source_width * s.den,
        }
    }

    /// A position of the frame that is taken into the square and back is where
    /// it was, exactly, along either axis.
    pub proof fn lemma_round_trip(self, s: Ratio)
        requires
            s.den != 0,
            self.source_height > 0,
            self.source_width > 0,
            self.content_height > 0,
            self.content_width > 0,
        ensures
            self.source_row(self.model_row(s)).den != 0,
            self.source_row(self.model_row(s)).same_value(s),
            self.source_column(self.model_column(s)).den != 0,
            self.source_column(self.model_column(s)).same_value(s),
    {
        lemma_there_and_back(
            self.source_height as int,
            self.content_height as int,
            self.origin_y as int,
            s.num,
            s.den,
        );
        lemma_there_and_back(
            self.source_width as int,
            self.content_width as int,
            self.origin_x as int,
            s.num,
            s.den,
        );
    }

    /// The corners of the frame lie at the corners of the rows and columns
    /// that it takes in the square, and those corners are mapped back to the
    /// corners of the frame.
    pub proof fn lemma_corners(self)
        requires
            self.source_height > 0,
            self.source_width > 0,
            self.content_height > 0,
            self.content_width > 0,
        ensures
            self.model_row(Ratio::whole(0)).same_value(Ratio::whole(self.origin_y as int)),
            self.model_row(Ratio::whole(self.source_height as int)).same_value(
                Ratio::whole(self.origin_y + self.content_height),
            ),
            self.model_column(Ratio::whole(0)).same_value(Ratio::whole(self.origin_x as int)),
            self.model_column(Ratio::whole(self.source_width as int)).same_value(
                Ratio::whole(self.origin_x + self.content_width),
            ),
            self.source_row(Ratio::whole(self.origin_y as int)).same_value(Ratio::whole(0)),
            self.source_row(Ratio::whole(self.origin_y + self.content_height)).same_value(
                Ratio::whole(self.source_height as int),
            ),
            self.source_column(Ratio::whole(self.origin_x as int)).same_value(Ratio::whole(0)),
            self.source_column(Ratio::whole(self.origin_x + self.content_width)).same_value(
                Ratio::whole(self.source_width as int),
            ),
    {
        lemma_corner_values(
            self.source_height as int,
            self.content_height as int,
            self.origin_y as int,
        );
        lemma_corner_values(
            self.source_width as int,
            self.content_width as int,
            self.origin_x as int,
        );
    }
}

proof fn lemma_there_and_back(source: int, content: int, origin: int, num: int, den: int)
    by (nonlinear_arith)
    requires
        source > 0,
        content > 0,
        den != 0,
    ensures
        content * (source * den) != 0,
        (source * ((origin * (source * den) + num * content) - origin * (source * den))) * den
            == num * (content * (source * den)),
{
}

proof fn lemma_corner_values(source: int, content: int, origin: int)
    by (nonlinear_arith)
    ensures
        (origin * (source * 1) + 0 * content) * 1 == origin * (source * 1),
        (origin * (source * 1) + source * content) * 1 == (origin + content) * (source * 1),
        (source * (origin - origin * 1)) * 1 == 0 * (content * 1),
        (source * ((origin + content) - origin * 1)) * 1 == source * (content * 1),
{
}

} // verus!
