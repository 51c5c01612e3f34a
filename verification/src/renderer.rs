//! Sampling of a function into a polyline that can be drawn many times.
//!
//! The sampler walks pixel columns from left to right. A column `i`
//! stands for the abscissa `x = i * x_stretch`; the function answers
//! with a `y`, which is drawn in the row `win_height / 2 - y * y_stretch`:
//! the x-axis runs through the middle of the window, and rows are
//! counted downwards while `y` grows upwards.
//!
//! The number type `S` of `x` and `y` is left open. Its arithmetic is
//! that of its operators `*`, `/` and `-`, whatever they compute; what is
//! proved is which operations are carried out on which operands.

use core::ops::{Div, Mul, Sub};
use vstd::prelude::*;
use crate::graphable::{is_deterministic, GraphableFn};
use crate::primitive::ColorRgb;

verus! {

/// A type of numbers that can be multiplied, divided and subtracted.
/// Every type with these operators is one.
pub trait Number: Copy + Mul<Output = Self> + Div<Output = Self> + Sub<Output = Self> {
}

impl<T: Copy + Mul<Output = T> + Div<Output = T> + Sub<Output = T>> Number for T {
}

/// The product `a * b` can be taken.
pub open spec fn can_multiply<S: Number>(a: S, b: S) -> bool {
    call_requires(S::mul, (a, b))
}

/// `a * b` can give `product`.
pub open spec fn is_product<S: Number>(a: S, b: S, product: S) -> bool {
    call_ensures(S::mul, (a, b), product)
}

/// The quotient `a / b` can be taken.
pub open spec fn can_divide<S: Number>(a: S, b: S) -> bool {
    call_requires(S::div, (a, b))
}

/// `a / b` can give `quotient`.
pub open spec fn is_quotient<S: Number>(a: S, b: S, quotient: S) -> bool {
    call_ensures(S::div, (a, b), quotient)
}

/// The difference `a - b` can be taken.
pub open spec fn can_subtract<S: Number>(a: S, b: S) -> bool {
    call_requires(S::sub, (a, b))
}

/// `a - b` can give `difference`.
pub open spec fn is_difference<S: Number>(a: S, b: S, difference: S) -> bool {
    call_ensures(S::sub, (a, b), difference)
}

/// One corner of a polyline.
#[derive(Clone, Copy, Debug, PartialEq)]
pub struct Vertex<S> {
    /// Horizontal screen position: the pixel column.
    pub x: u32,
    /// Vertical screen position: the pixel row, counted downwards.
    pub y: S,
    pub color: ColorRgb,
}

/// Number of pixel columns in `[beg, end)`.
pub open spec fn span(beg: u32, end: u32) -> nat {
    if beg <= end {
        (end - beg) as nat
    } else {
        0
    }
}

/// The row of the x-axis can be computed for a window of this height.
pub open spec fn can_find_axis<S: Number, N: Fn(u32) -> S>(number: N, win_height: u32) -> bool {
    &&& number.requires((win_height,))
    &&& number.requires((2u32,))
    &&& forall|height: S, two: S|
        #[trigger] number.ensures((win_height,), height) && #[trigger] number.ensures((2u32,), two)
            ==> can_divide(height, two)
}

/// `axis` is the row of the x-axis in a window of this height:
/// `win_height / 2`.
pub open spec fn is_axis<S: Number, N: Fn(u32) -> S>(number: N, win_height: u32, axis: S) -> bool {
    exists|height: S, two: S|
        {
            &&& #[trigger] number.ensures((win_height,), height)
            &&& #[trigger] number.ensures((2u32,), two)
            &&& is_quotient(height, two, axis)
        }
}

/// The abscissa of this pixel column can be computed.
pub open spec fn can_find_abscissa<S: Number, N: Fn(u32) -> S>(
    number: N,
    x_stretch: S,
    column: u32,
) -> bool {
    &&& number.requires((column,))
    &&& forall|pixel: S| #[trigger]
        number.ensures((column,), pixel) ==> can_multiply(pixel, x_stretch)
}

/// `x` is the abscissa that the pixel column stands for:
/// `column * x_stretch`.
pub open spec fn is_abscissa<S: Number, N: Fn(u32) -> S>(
    number: N,
    x_stretch: S,
    column: u32,
    x: S,
) -> bool {
    exists|pixel: S| #[trigger] number.ensures((column,), pixel) && is_product(pixel, x_stretch, x)
}

/// The row in which the value `y` is drawn can be computed.
pub open spec fn can_find_row<S: Number>(axis: S, y_stretch: S, y: S) -> bool {
    &&& can_multiply(y, y_stretch)
    &&& forall|rise: S| #[trigger] is_product(y, y_stretch, rise) ==> can_subtract(axis, rise)
}

/// `row` is the row in which the value `y` is drawn:
/// `axis - y * y_stretch`.
pub open spec fn is_row<S: Number>(axis: S, y_stretch: S, y: S, row: S) -> bool {
    exists|rise: S| #[trigger] is_product(y, y_stretch, rise) && is_difference(axis, rise, row)
}

/// The function can be sampled at this pixel column, whatever it
/// answers there.
pub open spec fn can_sample<S: Number, F: GraphableFn<S> + ?Sized, N: Fn(u32) -> S>(
    figure: &F,
    number: N,
    x_stretch: S,
    y_stretch: S,
    axis: S,
    column: u32,
) -> bool {
    &&& can_find_abscissa(number, x_stretch, column)
    &&& forall|x: S, y: S, color: ColorRgb|
        is_abscissa(number, x_stretch, column, x) && #[trigger] figure.admits(x, y, color)
            ==> can_find_row(axis, y_stretch, y)
}

/// `vertex` is a sample of the function at this pixel column: it stands
/// in that column, in the row of a value that the function gives for the
/// abscissa of the column, and has the color given with that value.
pub open spec fn is_sample<S: Number, F: GraphableFn<S> + ?Sized, N: Fn(u32) -> S>(
    figure: &F,
    number: N,
    x_stretch: S,
    y_stretch: S,
    axis: S,
    column: u32,
    vertex: Vertex<S>,
) -> bool {
    &&& vertex.x == column
    &&& exists|x: S, y: S|
        {
            &&& is_abscissa(number, x_stretch, column, x)
            &&& #[trigger] figure.admits(x, y, vertex.color)
            &&& is_row(axis, y_stretch, y, vertex.y)
        }
}

/// Every step of a render over `[beg, end)` can be computed.
pub open spec fn can_render<S: Number, F: GraphableFn<S> + ?Sized, N: Fn(u32) -> S>(
    figure: &F,
    beg: u32,
    end: u32,
    x_stretch: S,
    y_stretch: S,
    win_height: u32,
    number: N,
) -> bool {
    &&& can_find_axis(number, win_height)
    &&& forall|axis: S, column: u32|
        is_axis(number, win_height, axis) && beg <= column < end ==> #[trigger] can_sample(
            figure,
            number,
            x_stretch,
            y_stretch,
            axis,
            column,
        )
}

/// `vertices` is a rendering of the function over the pixel columns
/// `[beg, end)`: one sample for each column, in ascending order of the
/// columns, all drawn against the same x-axis.
pub open spec fn is_rendering<S: Number, F: GraphableFn<S> + ?Sized, N: Fn(u32) -> S>(
    figure: &F,
    beg: u32,
    end: u32,
    x_stretch: S,
    y_stretch: S,
    win_height: u32,
    number: N,
    vertices: Seq<Vertex<S>>,
) -> bool {
    &&& vertices.len() == span(beg, end)
    &&& exists|axis: S|
        {
            &&& #[trigger] is_axis(number, win_height, axis)
            &&& forall|k: int|
                0 <= k < vertices.len() ==> is_sample(
                    figure,
                    number,
                    x_stretch,
                    y_stretch,
                    axis,
                    (beg + k) as u32,
                    #[trigger] vertices[k],
                )
        }
}

/// The vertices stand in consecutive pixel columns, from left to right.
pub open spec fn is_line_strip<S>(vertices: Seq<Vertex<S>>) -> bool {
    forall|k: int| 0 <= k < vertices.len() ==> (#[trigger] vertices[k]).x == vertices[0].x + k
}

/// Stores a rendered figure that can be drawn to the screen.
pub struct RenderCache<S> {
    vtx_arr: Vec<Vertex<S>>,
}

impl<S> View for RenderCache<S> {
    type V = Seq<Vertex<S>>;

    closed spec fn view(&self) -> Seq<Vertex<S>> {
        self.vtx_arr@
    }
}

impl<S> RenderCache<S> {
    #[verifier::type_invariant]
    spec fn columns_are_consecutive(self) -> bool {
        is_line_strip(self.vtx_arr@)
    }

    /// Return a reference to the cached vertices, in drawing order.
    pub fn vtx_arr(&self) -> (vertices: &Vec<Vertex<S>>)
        ensures
            vertices@ == self@,
            is_line_strip(vertices@),
    {
        proof {
            use_type_invariant(self);
        }
        &self.vtx_arr
    }
}

impl<S: Number> RenderCache<S> {
    /// Perform a render of the figure and return the rendered figure
    /// encapsulated in an instance of `RenderCache`.
    ///
    /// The function `figure` is evaluated once for each pixel column of
    /// the interval `[beg, end)`, from `beg` upwards, at the abscissa
    /// `column * x_stretch`. The value `y` that it gives there is drawn
    /// in the row `win_height / 2 - y * y_stretch`. A range with
    /// `end <= beg` has no columns and gives an empty cache.
    ///
    /// `number` turns a count of pixels into a number of the type `S`.
    /// What the arithmetic of `S` gives is stored as it comes: a value
    /// that is not finite is not treated differently from any other.
    pub fn render<F: GraphableFn<S> + ?Sized, N: Fn(u32) -> S>(
        figure: &F,
        beg: u32,
        end: u32,
        x_stretch: S,
        y_stretch: S,
        win_height: u32,
        number: N,
    ) -> (cache: RenderCache<S>)
        requires
            can_render(figure, beg, end, x_stretch, y_stretch, win_height, number),
        ensures
            is_rendering(figure, beg, end, x_stretch, y_stretch, win_height, number, cache@),
            cache@.len() == span(beg, end),
            forall|k: int| 0 <= k < cache@.len() ==> (#[trigger] cache@[k]).x == beg + k,
    {
        let mut vtx_arr: Vec<Vertex<S>> = Vec::new();
        let x_axis = number(win_height) / number(2);
        let mut i: u32 = beg;
        while i < end
            invariant
                beg <= i,
                i <= end || i == beg,
                can_render(figure, beg, end, x_stretch, y_stretch, win_height, number),
                is_axis(number, win_height, x_axis),
                vtx_arr@.len() == span(beg, i),
                forall|k: int|
                    0 <= k < vtx_arr@.len() ==> is_sample(
                        figure,
                        number,
                        x_stretch,
                        y_stretch,
                        x_axis,
                        (beg + k) as u32,
                        #[trigger] vtx_arr@[k],
                    ),
            decreases end - i,
        {
            assert(can_sample(figure, number, x_stretch, y_stretch, x_axis, i));
            let x = number(i) * x_stretch;
            assert(is_abscissa(number, x_stretch, i, x));
            let (y, color) = figure.evaluate(x);
            let rise = y * y_stretch;
            assert(is_product(y, y_stretch, rise));
            let vertex = Vertex { x: i, y: x_axis - rise, color };
            assert(figure.admits(x, y, vertex.color) && is_row(x_axis, y_stretch, y, vertex.y));
            vtx_arr.push(vertex);
            i = i + 1;
        }
        RenderCache { vtx_arr }
    }
}

/// The arithmetic of `S` is deterministic: a product, a quotient and a
/// difference have one value each.
pub open spec fn deterministic_arithmetic<S: Number>() -> bool {
    &&& forall|a: S, b: S, p: S, q: S|
        #[trigger] is_product(a, b, p) && #[trigger] is_product(a, b, q) ==> p == q
    &&& forall|a: S, b: S, p: S, q: S|
        #[trigger] is_quotient(a, b, p) && #[trigger] is_quotient(a, b, q) ==> p == q
    &&& forall|a: S, b: S, p: S, q: S|
        #[trigger] is_difference(a, b, p) && #[trigger] is_difference(a, b, q) ==> p == q
}

/// A count of pixels is turned into one number only.
pub open spec fn deterministic_numbers<S, N: Fn(u32) -> S>(number: N) -> bool {
    forall|count: u32, a: S, b: S|
        #[trigger] number.ensures((count,), a) && #[trigger] number.ensures((count,), b) ==> a
            == b
}

/// The window has one x-axis: with deterministic numbers and arithmetic,
/// two rows that are the axis are the same row.
pub proof fn lemma_axis_is_unique<S: Number, N: Fn(u32) -> S>(
    number: N,
    win_height: u32,
    axis: S,
    other: S,
)
    requires
        deterministic_numbers(number),
        deterministic_arithmetic::<S>(),
        is_axis(number, win_height, axis),
        is_axis(number, win_height, other),
    ensures
        axis == other,
{
}

/// Rendering is repeatable: with a deterministic function, deterministic
/// numbers and deterministic arithmetic, two renderings with the same
/// arguments are the same sequence of vertices.
pub proof fn lemma_rendering_is_unique<S: Number, F: GraphableFn<S> + ?Sized, N: Fn(u32) -> S>(
    figure: &F,
    beg: u32,
    end: u32,
    x_stretch: S,
    y_stretch: S,
    win_height: u32,
    number: N,
    first: Seq<Vertex<S>>,
    second: Seq<Vertex<S>>,
)
    requires
        is_deterministic(figure),
        deterministic_numbers(number),
        deterministic_arithmetic::<S>(),
        is_rendering(figure, beg, end, x_stretch, y_stretch, win_height, number, first),
        is_rendering(figure, beg, end, x_stretch, y_stretch, win_height, number, second),
    ensures
        first == second,
{
    let axis = choose|axis: S|
        {
            &&& #[trigger] is_axis(number, win_height, axis)
            &&& forall|k: int|
                0 <= k < first.len() ==> is_sample(
                    figure,
                    number,
                    x_stretch,
                    y_stretch,
                    axis,
                    (beg + k) as u32,
                    #[trigger] first[k],
                )
        };
    let other = choose|other: S|
        {
            &&& #[trigger] is_axis(number, win_height, other)
            &&& forall|k: int|
                0 <= k < second.len() ==> is_sample(
                    figure,
                    number,
                    x_stretch,
                    y_stretch,
                    other,
                    (beg + k) as u32,
                    #[trigger] second[k],
                )
        };
    lemma_axis_is_unique(number, win_height, axis, other);
    assert forall|k: int| 0 <= k < first.len() implies first[k] == second[k] by {
        let column = (beg + k) as u32;
        assert(is_sample(figure, number, x_stretch, y_stretch, axis, column, first[k]));
        assert(is_sample(figure, number, x_stretch, y_stretch, axis, column, second[k]));
    }
    assert(first =~= second);
}

/// A function that has one value everywhere is drawn as a level line:
/// where `value` is the only `y` that the function gives, every vertex
/// of a rendering lies in the row of that value.
pub proof fn lemma_constant_function_is_level<
    S: Number,
    F: GraphableFn<S> + ?Sized,
    N: Fn(u32) -> S,
>(
    figure: &F,
    beg: u32,
    end: u32,
    x_stretch: S,
    y_stretch: S,
    win_height: u32,
    number: N,
    vertices: Seq<Vertex<S>>,
    value: S,
    axis: S,
    row: S,
)
    requires
        deterministic_numbers(number),
        deterministic_arithmetic::<S>(),
        is_rendering(figure, beg, end, x_stretch, y_stretch, win_height, number, vertices),
        forall|x: S, y: S, color: ColorRgb| #[trigger] figure.admits(x, y, color) ==> y == value,
        is_axis(number, win_height, axis),
        is_row(axis, y_stretch, value, row),
    ensures
        forall|k: int| 0 <= k < vertices.len() ==> (#[trigger] vertices[k]).y == row,
{
    let drawn = choose|drawn: S|
        {
            &&& #[trigger] is_axis(number, win_height, drawn)
            &&& forall|k: int|
                0 <= k < vertices.len() ==> is_sample(
                    figure,
                    number,
                    x_stretch,
                    y_stretch,
                    drawn,
                    (beg + k) as u32,
                    #[trigger] vertices[k],
                )
        };
    lemma_axis_is_unique(number, win_height, axis, drawn);
    assert forall|k: int| 0 <= k < vertices.len() implies (#[trigger] vertices[k]).y == row by {
        assert(is_sample(figure, number, x_stretch, y_stretch, axis, (beg + k) as u32, vertices[k]));
    }
}

} // verus!
