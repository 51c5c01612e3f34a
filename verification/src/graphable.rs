//! The capability a plotted function has to offer.

use vstd::prelude::*;
use crate::primitive::ColorRgb;

verus! {

/// A mathematical function that can be drawn: for an `x` it gives a `y`
/// and the color of the point `(x, y)`. `S` is the number type of both
/// coordinates.
pub trait GraphableFn<S> {
    /// Whether `evaluate` may answer `(y, color)` when asked for `x`.
    ///
    /// This is the graph of the function as proofs see it. A verified
    /// implementation may narrow it down to what its `evaluate` does
    /// give. One that states nothing admits every answer, so that
    /// nothing is claimed of code that was not proved.
    open spec fn admits(&self, x: S, y: S, color: ColorRgb) -> bool {
        true
    }

    /// Evaluate the function for the given `x` (the independent
    /// variable), returning the `y` output (the dependent variable) and
    /// the color of the point. If colors vary across evaluations, they
    /// will be interpolated along the line.
    fn evaluate(&self, x: S) -> (out: (S, ColorRgb))
        ensures
            self.admits(x, out.0, out.1),
    ;
}

/// A boxed function is the function in the box. This lets functions of
/// different types stand side by side, as `Box<dyn GraphableFn<S>>`.
impl<S, T: GraphableFn<S> + ?Sized> GraphableFn<S> for Box<T> {
    open spec fn admits(&self, x: S, y: S, color: ColorRgb) -> bool {
        (**self).admits(x, y, color)
    }

    fn evaluate(&self, x: S) -> (out: (S, ColorRgb)) {
        (**self).evaluate(x)
    }
}

/// The function is deterministic: it answers every `x` in one way only.
pub open spec fn is_deterministic<S, F: GraphableFn<S> + ?Sized>(figure: &F) -> bool {
    forall|x: S, y1: S, c1: ColorRgb, y2: S, c2: ColorRgb|
        #[trigger] figure.admits(x, y1, c1) && #[trigger] figure.admits(x, y2, c2) ==> y1 == y2
            && c1 == c2
}

} // verus!
