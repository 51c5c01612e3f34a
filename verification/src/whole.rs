//! The coordinate transform on whole numbers.
//!
//! The sampler is proved for any number type, and so says of a row only
//! which operations gave it. Where the numbers are whole, the operations
//! are exact as long as their results fit, and the rows can be written
//! down: the column `i` stands for `x = i * x_stretch`, and a value `y`
//! there is drawn in the row `win_height / 2 - y * y_stretch`.

use vstd::prelude::*;
use crate::graphable::GraphableFn;
use crate::primitive::ColorRgb;
use crate::renderer::{
    is_abscissa, is_axis, is_difference, is_product, is_quotient, is_rendering, is_row,
    is_sample, Vertex,
};

verus! {

/// `number` gives a count of pixels as the whole number that it is.
pub open spec fn is_whole<N: Fn(u32) -> i64>(number: N) -> bool {
    forall|count: u32, n: i64| #[trigger] number.ensures((count,), n) ==> n == count
}

/// The whole number `n` can be held in an `i64`.
pub open spec fn fits(n: int) -> bool {
    i64::MIN <= n <= i64::MAX
}

/// No row of a value of the function is too far from the axis to be
/// held in an `i64`.
pub open spec fn rows_fit<F: GraphableFn<i64> + ?Sized>(
    figure: &F,
    y_stretch: i64,
    win_height: u32,
) -> bool {
    forall|x: i64, y: i64, color: ColorRgb| #[trigger]
        figure.admits(x, y, color) ==> fits(y * y_stretch) && fits(
            win_height / 2 - y * y_stretch,
        )
}

/// The x-axis of a window lies in its middle row.
pub proof fn lemma_axis_is_middle<N: Fn(u32) -> i64>(number: N, win_height: u32, axis: i64)
    requires
        is_whole(number),
        is_axis(number, win_height, axis),
    ensures
        axis == win_height / 2,
{
    let (height, two) = choose|height: i64, two: i64|
        {
            &&& #[trigger] number.ensures((win_height,), height)
            &&& #[trigger] number.ensures((2u32,), two)
            &&& is_quotient(height, two, axis)
        };
    assert(height == win_height && two == 2);
}

/// The transform in closed form: the vertex of the column `i` lies in
/// the row `win_height / 2 - y * y_stretch`, for a value `y` that the
/// function gives at `x = i * x_stretch`.
pub proof fn lemma_row_of_column<F: GraphableFn<i64> + ?Sized, N: Fn(u32) -> i64>(
    figure: &F,
    beg: u32,
    end: u32,
    x_stretch: i64,
    y_stretch: i64,
    win_height: u32,
    number: N,
    vertices: Seq<Vertex<i64>>,
    k: int,
)
    requires
        is_whole(number),
        is_rendering(figure, beg, end, x_stretch, y_stretch, win_height, number, vertices),
        0 <= k < vertices.len(),
        fits((beg + k) * x_stretch),
        rows_fit(figure, y_stretch, win_height),
    ensures
        vertices[k].x == beg + k,
        exists|y: i64|
            {
                &&& #[trigger] figure.admits(
                    ((beg + k) * x_stretch) as i64,
                    y,
                    vertices[k].color,
                )
                &&& vertices[k].y == win_height / 2 - y * y_stretch
            },
{
    let vertex = vertices[k];
    let column = (beg + k) as u32;
    let axis = choose|axis: i64|
        {
            &&& #[trigger] is_axis(number, win_height, axis)
            &&& forall|j: int|
                0 <= j < vertices.len() ==> is_sample(
                    figure,
                    number,
                    x_stretch,
                    y_stretch,
                    axis,
                    (beg + j) as u32,
                    #[trigger] vertices[j],
                )
        };
    lemma_axis_is_middle(number, win_height, axis);
    assert(is_sample(figure, number, x_stretch, y_stretch, axis, column, vertex));
    let (x, y) = choose|x: i64, y: i64|
        {
            &&& is_abscissa(number, x_stretch, column, x)
            &&& #[trigger] figure.admits(x, y, vertex.color)
            &&& is_row(axis, y_stretch, y, vertex.y)
        };
    let pixel = choose|pixel: i64| #[trigger]
        number.ensures((column,), pixel) && is_product(pixel, x_stretch, x);
    assert(pixel == column);
    assert(x == (beg + k) * x_stretch);
    let rise = choose|rise: i64| #[trigger]
        is_product(y, y_stretch, rise) && is_difference(axis, rise, vertex.y);
    assert(rise == y * y_stretch);
    assert(vertex.y == axis - rise);
}

/// The zero function is drawn on the x-axis: every vertex lies in the
/// middle row of the window.
pub proof fn lemma_zero_lies_on_axis<F: GraphableFn<i64> + ?Sized, N: Fn(u32) -> i64>(
    figure: &F,
    beg: u32,
    end: u32,
    x_stretch: i64,
    y_stretch: i64,
    win_height: u32,
    number: N,
    vertices: Seq<Vertex<i64>>,
)
    requires
        is_whole(number),
        is_rendering(figure, beg, end, x_stretch, y_stretch, win_height, number, vertices),
        forall|x: i64, y: i64, color: ColorRgb| #[trigger] figure.admits(x, y, color) ==> y == 0,
    ensures
        forall|k: int| 0 <= k < vertices.len() ==> (#[trigger] vertices[k]).y == win_height / 2,
{
    let axis = choose|axis: i64|
        {
            &&& #[trigger] is_axis(number, win_height, axis)
            &&& forall|j: int|
                0 <= j < vertices.len() ==> is_sample(
                    figure,
                    number,
                    x_stretch,
                    y_stretch,
                    axis,
                    (beg + j) as u32,
                    #[trigger] vertices[j],
                )
        };
    lemma_axis_is_middle(number, win_height, axis);
    assert forall|k: int| 0 <= k < vertices.len() implies (#[trigger] vertices[k]).y == win_height
        / 2 by {
        let vertex = vertices[k];
        assert(is_sample(figure, number, x_stretch, y_stretch, axis, (beg + k) as u32, vertex));
        let (x, y) = choose|x: i64, y: i64|
            {
                &&& is_abscissa(number, x_stretch, (beg + k) as u32, x)
                &&& #[trigger] figure.admits(x, y, vertex.color)
                &&& is_row(axis, y_stretch, y, vertex.y)
            };
        let rise = choose|rise: i64| #[trigger]
            is_product(y, y_stretch, rise) && is_difference(axis, rise, vertex.y);
        assert(y == 0);
        assert(0 * y_stretch == 0);
        assert(rise == 0);
    }
}

/// The transform turns the axis of `y` upside down: under a positive
/// stretch, a function that is positive everywhere is drawn above the
/// middle row of the window, in rows with smaller numbers, and one that
/// is negative everywhere below it.
pub proof fn lemma_sign_of_row<F: GraphableFn<i64> + ?Sized, N: Fn(u32) -> i64>(
    figure: &F,
    beg: u32,
    end: u32,
    x_stretch: i64,
    y_stretch: i64,
    win_height: u32,
    number: N,
    vertices: Seq<Vertex<i64>>,
)
    requires
        is_whole(number),
        is_rendering(figure, beg, end, x_stretch, y_stretch, win_height, number, vertices),
        rows_fit(figure, y_stretch, win_height),
        0 < y_stretch,
    ensures
        (forall|x: i64, y: i64, color: ColorRgb| #[trigger] figure.admits(x, y, color) ==> 0 < y)
            ==> forall|k: int|
            0 <= k < vertices.len() ==> (#[trigger] vertices[k]).y < win_height / 2,
        (forall|x: i64, y: i64, color: ColorRgb| #[trigger] figure.admits(x, y, color) ==> y < 0)
            ==> forall|k: int|
            0 <= k < vertices.len() ==> (#[trigger] vertices[k]).y > win_height / 2,
{
    let axis = choose|axis: i64|
        {
            &&& #[trigger] is_axis(number, win_height, axis)
            &&& forall|j: int|
                0 <= j < vertices.len() ==> is_sample(
                    figure,
                    number,
                    x_stretch,
                    y_stretch,
                    axis,
                    (beg + j) as u32,
                    #[trigger] vertices[j],
                )
        };
    lemma_axis_is_middle(number, win_height, axis);
    assert forall|k: int| 0 <= k < vertices.len() implies exists|x: i64, y: i64|
        {
            &&& #[trigger] figure.admits(x, y, vertices[k].color)
            &&& 0 < y ==> (#[trigger] vertices[k]).y < win_height / 2
            &&& y < 0 ==> vertices[k].y > win_height / 2
        } by {
        let vertex = vertices[k];
        assert(is_sample(figure, number, x_stretch, y_stretch, axis, (beg + k) as u32, vertex));
        let (x, y) = choose|x: i64, y: i64|
            {
                &&& is_abscissa(number, x_stretch, (beg + k) as u32, x)
                &&& #[trigger] figure.admits(x, y, vertex.color)
                &&& is_row(axis, y_stretch, y, vertex.y)
            };
        let rise = choose|rise: i64| #[trigger]
            is_product(y, y_stretch, rise) && is_difference(axis, rise, vertex.y);
        assert(rise == y * y_stretch);
        assert(vertex.y == axis - rise);
        assert(0 < y ==> 0 < y * y_stretch) by (nonlinear_arith)
            requires
                0 < y_stretch,
        ;
        assert(y < 0 ==> y * y_stretch < 0) by (nonlinear_arith)
            requires
                0 < y_stretch,
        ;
    }
}

} // verus!
