//! Gradient fills as the gradient shader takes them: a table of fifteen color stops and
//! a few tags.

use vstd::prelude::*;
use crate::gl::{ColorSpace, GradientStop, Rgba8, Scalar, StopColor};

verus! {

/// The shape of a gradient.
#[derive(Clone, Copy, Debug, PartialEq, Eq, Structural)]
pub enum GradientType {
    Linear,
    Radial,
    Focal,
}

/// What a gradient does outside its stops.
#[derive(Clone, Copy, Debug, PartialEq, Eq, Structural)]
pub enum GradientSpread {
    Pad,
    Reflect,
    Repeat,
}

/// The color space in which a gradient blends between its stops.
#[derive(Clone, Copy, Debug, PartialEq, Eq, Structural)]
pub enum GradientInterpolation {
    Rgb,
    LinearRgb,
}

/// A stop as a shape defines it: a position in 255ths and an sRGB color.
#[derive(Clone, Copy, Debug, PartialEq, Eq, Structural)]
pub struct GradientRecord {
    pub ratio: u8,
    pub color: Rgba8,
}

/// A gradient as the tessellator hands it over. The focal point is in 256ths.
#[derive(Clone, Debug, PartialEq, Eq)]
pub struct TessGradient {
    pub gradient_type: GradientType,
    pub repeat_mode: GradientSpread,
    pub focal_point: i16,
    pub interpolation: GradientInterpolation,
    pub records: Vec<GradientRecord>,
}

/// `color` expressed in linear space. A color that is linear already is left as it is.
pub open spec fn linear_of(color: StopColor) -> StopColor {
    StopColor { rgba: color.rgba, space: ColorSpace::Linear }
}

/// Converts a color from sRGB to linear space.
pub fn srgb_to_linear(color: StopColor) -> (linear: StopColor)
    ensures
        linear == linear_of(color),
        color.space == ColorSpace::Linear ==> linear == color,
{
    StopColor { rgba: color.rgba, space: ColorSpace::Linear }
}

/// Converting to linear space twice is converting once, and a linear color is a fixed
/// point of the conversion.
pub proof fn lemma_linear_conversion_idempotent(color: StopColor)
    ensures
        linear_of(linear_of(color)) == linear_of(color),
        color.space == ColorSpace::Linear ==> linear_of(color) == color,
{
}

/// The space in which the stops of a gradient with that interpolation are kept.
pub open spec fn stop_space(interpolation: GradientInterpolation) -> ColorSpace {
    match interpolation {
        GradientInterpolation::Rgb => ColorSpace::Srgb,
        GradientInterpolation::LinearRgb => ColorSpace::Linear,
    }
}

/// The table entry made from a record.
pub open spec fn stop_of(record: GradientRecord, interpolation: GradientInterpolation) -> GradientStop {
    GradientStop {
        ratio: record.ratio,
        color: StopColor { rgba: record.color, space: stop_space(interpolation) },
    }
}

/// The entry that fills the table where there is no record at all.
pub open spec fn empty_stop(interpolation: GradientInterpolation) -> GradientStop {
    GradientStop {
        ratio: 0,
        color: StopColor {
            rgba: Rgba8 { r: 0, g: 0, b: 0, a: 0 },
            space: stop_space(interpolation),
        },
    }
}

/// The largest number of stops a gradient keeps.
pub const MAX_GRADIENT_COLORS: usize = 15;

/// How many records a gradient keeps: all of them, up to fifteen.
pub open spec fn kept(records: Seq<GradientRecord>) -> int {
    if records.len() < MAX_GRADIENT_COLORS {
        records.len() as int
    } else {
        MAX_GRADIENT_COLORS as int
    }
}

/// Entry `i` of the table made from `records`: the record at `i` if it is kept, else the
/// last record kept.
pub open spec fn table_entry(
    records: Seq<GradientRecord>,
    interpolation: GradientInterpolation,
    i: int,
) -> GradientStop {
    if kept(records) == 0 {
        empty_stop(interpolation)
    } else if i < kept(records) {
        stop_of(records[i], interpolation)
    } else {
        stop_of(records[kept(records) - 1], interpolation)
    }
}

/// The number the shader knows a gradient type by.
pub open spec fn gradient_type_code(gradient_type: GradientType) -> i32 {
    match gradient_type {
        GradientType::Linear => 0,
        GradientType::Radial => 1,
        GradientType::Focal => 2,
    }
}

/// The number the shader knows a spread mode by.
pub open spec fn repeat_mode_code(spread: GradientSpread) -> i32 {
    match spread {
        GradientSpread::Pad => 0,
        GradientSpread::Repeat => 1,
        GradientSpread::Reflect => 2,
    }
}

/// The largest focal point, in 12800ths: 0.98. At 1 the shader would divide by zero.
pub const FOCAL_POINT_LIMIT: i32 = 12544;

/// A focal point in 256ths as one in 12800ths, held within 0.98 of the center.
pub open spec fn clamped_focal_point(focal_point: i16) -> i32 {
    if focal_point * 50 > FOCAL_POINT_LIMIT {
        FOCAL_POINT_LIMIT
    } else if focal_point * 50 < -FOCAL_POINT_LIMIT {
        (-FOCAL_POINT_LIMIT) as i32
    } else {
        (focal_point * 50) as i32
    }
}

/// Whether `made` is the gradient for the shader that belongs to `gradient` and
/// `matrix`: the tags translated, the focal point held within its limit, and the table
/// filled from the records.
pub open spec fn gradient_made_from(
    made: Gradient,
    gradient: TessGradient,
    matrix: [[Scalar; 3]; 3],
) -> bool {
    &&& made.matrix == matrix
    &&& made.gradient_type == gradient_type_code(gradient.gradient_type)
    &&& made.repeat_mode == repeat_mode_code(gradient.repeat_mode)
    &&& made.focal_point == clamped_focal_point(gradient.focal_point)
    &&& made.interpolation == gradient.interpolation
    &&& forall|i: int|
        0 <= i < MAX_GRADIENT_COLORS ==> #[trigger] made.stops@[i] == table_entry(
            gradient.records@,
            gradient.interpolation,
            i,
        )
}

/// A gradient fill as the gradient shader takes it.
#[derive(Clone, Copy, Debug, PartialEq, Eq)]
pub struct Gradient {
    /// Takes a point of the shape to a point of the gradient.
    pub matrix: [[Scalar; 3]; 3],
    pub gradient_type: i32,
    pub stops: [GradientStop; 15],
    pub repeat_mode: i32,
    /// In 12800ths.
    pub focal_point: i32,
    pub interpolation: GradientInterpolation,
}

impl Gradient {
    /// Every stop is kept in the space of the interpolation, and the focal point is
    /// within its limit.
    pub open spec fn wf(self) -> bool {
        &&& forall|i: int|
            0 <= i < MAX_GRADIENT_COLORS ==> (#[trigger] self.stops@[i]).color.space == stop_space(
                self.interpolation,
            )
        &&& -FOCAL_POINT_LIMIT <= self.focal_point <= FOCAL_POINT_LIMIT
    }

    /// Stop `n` of the table. Past the end of the table it is the last one.
    pub open spec fn spec_stop(self, n: int) -> GradientStop {
        if n < MAX_GRADIENT_COLORS {
            self.stops@[n]
        } else {
            self.stops@[MAX_GRADIENT_COLORS - 1]
        }
    }

    /// The gradient for the shader. Of more than fifteen records the first fifteen are
    /// kept; of fewer, the last one fills the rest of the table. With linear
    /// interpolation the colors are converted to linear space.
    pub fn new(gradient: &TessGradient, matrix: [[Scalar; 3]; 3]) -> (made: Gradient)
        ensures
            gradient_made_from(made, *gradient, matrix),
            made.wf(),
    {
        let num_colors = if gradient.records.len() < MAX_GRADIENT_COLORS {
            gradient.records.len()
        } else {
            MAX_GRADIENT_COLORS
        };
        let space = match gradient.interpolation {
            GradientInterpolation::Rgb => ColorSpace::Srgb,
            GradientInterpolation::LinearRgb => ColorSpace::Linear,
        };
        let blank = GradientStop {
            ratio: 0,
            color: StopColor { rgba: Rgba8 { r: 0, g: 0, b: 0, a: 0 }, space },
        };
        let mut stops = [blank; 15];
        let mut i: usize = 0;
        while i < num_colors
            invariant
                i <= num_colors,
                num_colors == kept(gradient.records@),
                num_colors <= gradient.records.len(),
                space == stop_space(gradient.interpolation),
                blank == empty_stop(gradient.interpolation),
                forall|j: int| 0 <= j < i ==> #[trigger] stops@[j] == stop_of(
                    gradient.records@[j],
                    gradient.interpolation,
                ),
                forall|j: int| i <= j < MAX_GRADIENT_COLORS ==> #[trigger] stops@[j] == blank,
            decreases num_colors - i,
        {
            let record = gradient.records[i];
            let mut color = StopColor { rgba: record.color, space: ColorSpace::Srgb };
            match gradient.interpolation {
                GradientInterpolation::Rgb => {},
                GradientInterpolation::LinearRgb => {
                    color = srgb_to_linear(color);
                },
            }
            stops[i] = GradientStop { ratio: record.ratio, color };
            i = i + 1;
        }
        if num_colors > 0 {
            let mut k: usize = num_colors;
            while k < MAX_GRADIENT_COLORS
                invariant
                    0 < num_colors <= k <= MAX_GRADIENT_COLORS,
                    num_colors == kept(gradient.records@),
                    forall|j: int| 0 <= j < num_colors ==> #[trigger] stops@[j] == stop_of(
                        gradient.records@[j],
                        gradient.interpolation,
                    ),
                    forall|j: int| num_colors <= j < k ==> #[trigger] stops@[j] == stop_of(
                        gradient.records@[num_colors - 1],
                        gradient.interpolation,
                    ),
                decreases MAX_GRADIENT_COLORS - k,
            {
                stops[k] = stops[k - 1];
                k = k + 1;
            }
        }
        let scaled: i32 = gradient.focal_point as i32 * 50;
        let focal_point = if scaled > FOCAL_POINT_LIMIT {
            FOCAL_POINT_LIMIT
        } else if scaled < -FOCAL_POINT_LIMIT {
            -FOCAL_POINT_LIMIT
        } else {
            scaled
        };
        Gradient {
            matrix,
            gradient_type: match gradient.gradient_type {
                GradientType::Linear => 0,
                GradientType::Radial => 1,
                GradientType::Focal => 2,
            },
            stops,
            repeat_mode: match gradient.repeat_mode {
                GradientSpread::Pad => 0,
                GradientSpread::Repeat => 1,
                GradientSpread::Reflect => 2,
            },
            focal_point,
            interpolation: gradient.interpolation,
        }
    }

    /// Stop `n` of the table. Past the end of the table it is the last one.
    pub fn stop(&self, n: usize) -> (stop: GradientStop)
        ensures
            stop == self.spec_stop(n as int),
            n >= MAX_GRADIENT_COLORS - 1 ==> stop == self.spec_stop(MAX_GRADIENT_COLORS - 1),
    {
        if n < MAX_GRADIENT_COLORS {
            self.stops[n]
        } else {
            self.stops[MAX_GRADIENT_COLORS - 1]
        }
    }
}

/// A gradient made from more than fifteen records keeps the first fifteen, and asking
/// for any stop from the fifteenth on gives the fifteenth. A gradient made from fewer
/// records, but at least one, gives its last record for every stop past them.
pub proof fn lemma_stops_past_the_end(gradient: Gradient, records: Seq<GradientRecord>, n: int)
    requires
        records.len() > 0,
        forall|i: int|
            0 <= i < MAX_GRADIENT_COLORS ==> #[trigger] gradient.stops@[i] == table_entry(
                records,
                gradient.interpolation,
                i,
            ),
        n >= kept(records) - 1,
    ensures
        gradient.spec_stop(n) == stop_of(records[kept(records) - 1], gradient.interpolation),
        records.len() > MAX_GRADIENT_COLORS ==> gradient.spec_stop(n) == gradient.spec_stop(
            MAX_GRADIENT_COLORS - 1,
        ),
{
    let m = if n < MAX_GRADIENT_COLORS { n } else { MAX_GRADIENT_COLORS - 1 };
    assert(gradient.stops@[m] == table_entry(records, gradient.interpolation, m));
    assert(gradient.stops@[MAX_GRADIENT_COLORS - 1] == table_entry(
        records,
        gradient.interpolation,
        MAX_GRADIENT_COLORS - 1,
    ));
}

} // verus!
