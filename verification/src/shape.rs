//! Shapes: the drawable objects that a canvas holds.

use vstd::prelude::*;

verus! {

/// A real-valued coordinate or length, held as the 64 bits of its IEEE 754
/// double. The library stores and hands on such values and never computes
/// with them.
pub type Scalar = u64;

/// One drawable object.
#[derive(Debug, Clone, PartialEq)]
pub enum ShapeModel {
    Rect {
        x: Scalar,
        y: Scalar,
        width: Scalar,
        height: Scalar,
        stroke_width: Scalar,
        stroke_color: String,
        fill_color: String,
    },
    Ellipse {
        x: Scalar,
        y: Scalar,
        radius_x: Scalar,
        radius_y: Scalar,
        stroke_width: Scalar,
        stroke_color: String,
        fill_color: String,
    },
    Vector { points: Vec<Scalar>, stroke_width: Scalar, stroke_color: String },
    Text { font_size: i32, color: String, x: Scalar, y: Scalar, width: Scalar, height: Scalar },
}

/// What a shape is, field for field.
pub enum ShapeSpec {
    Rect {
        x: Scalar,
        y: Scalar,
        width: Scalar,
        height: Scalar,
        stroke_width: Scalar,
        stroke_color: Seq<char>,
        fill_color: Seq<char>,
    },
    Ellipse {
        x: Scalar,
        y: Scalar,
        radius_x: Scalar,
        radius_y: Scalar,
        stroke_width: Scalar,
        stroke_color: Seq<char>,
        fill_color: Seq<char>,
    },
    Vector { points: Seq<Scalar>, stroke_width: Scalar, stroke_color: Seq<char> },
    Text { font_size: i32, color: Seq<char>, x: Scalar, y: Scalar, width: Scalar, height: Scalar },
}

impl View for ShapeModel {
    type V = ShapeSpec;

    open spec fn view(&self) -> ShapeSpec {
        match *self {
            ShapeModel::Rect { x, y, width, height, stroke_width, stroke_color, fill_color } => {
                ShapeSpec::Rect {
                    x,
                    y,
                    width,
                    height,
                    stroke_width,
                    stroke_color: stroke_color@,
                    fill_color: fill_color@,
                }
            },
            ShapeModel::Ellipse {
                x,
                y,
                radius_x,
                radius_y,
                stroke_width,
                stroke_color,
                fill_color,
            } => ShapeSpec::Ellipse {
                x,
                y,
                radius_x,
                radius_y,
                stroke_width,
                stroke_color: stroke_color@,
                fill_color: fill_color@,
            },
            ShapeModel::Vector { points, stroke_width, stroke_color } => ShapeSpec::Vector {
                points: points@,
                stroke_width,
                stroke_color: stroke_color@,
            },
            ShapeModel::Text { font_size, color, x, y, width, height } => ShapeSpec::Text {
                font_size,
                color: color@,
                x,
                y,
                width,
                height,
            },
        }
    }
}

impl ShapeModel {
    /// A copy of the shape, equal to it field for field.
    pub fn duplicate(&self) -> (r: ShapeModel)
        ensures
            r@ == self@,
    {
        match self {
            ShapeModel::Rect { x, y, width, height, stroke_width, stroke_color, fill_color } => {
                ShapeModel::Rect {
                    x: *x,
                    y: *y,
                    width: *width,
                    height: *height,
                    stroke_width: *stroke_width,
                    stroke_color: stroke_color.clone(),
                    fill_color: fill_color.clone(),
                }
            },
            ShapeModel::Ellipse {
                x,
                y,
                radius_x,
                radius_y,
                stroke_width,
                stroke_color,
                fill_color,
            } => ShapeModel::Ellipse {
                x: *x,
                y: *y,
                radius_x: *radius_x,
                radius_y: *radius_y,
                stroke_width: *stroke_width,
                stroke_color: stroke_color.clone(),
                fill_color: fill_color.clone(),
            },
            ShapeModel::Vector { points, stroke_width, stroke_color } => {
                let copied = points.clone();
                assert(copied@ =~= points@);
                ShapeModel::Vector {
                    points: copied,
                    stroke_width: *stroke_width,
                    stroke_color: stroke_color.clone(),
                }
            },
            ShapeModel::Text { font_size, color, x, y, width, height } => ShapeModel::Text {
                font_size: *font_size,
                color: color.clone(),
                x: *x,
                y: *y,
                width: *width,
                height: *height,
            },
        }
    }
}

/// The views of a list of shapes, in order.
pub open spec fn shapes_view(shapes: Seq<ShapeModel>) -> Seq<ShapeSpec> {
    shapes.map_values(|s: ShapeModel| s@)
}

/// The views of the shapes of a map, key by key.
pub open spec fn shape_map_view(shapes: Map<u128, ShapeModel>) -> Map<u128, ShapeSpec> {
    shapes.map_values(|s: ShapeModel| s@)
}

} // verus!
