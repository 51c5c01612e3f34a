//! The graphing context: the figures that were registered and the rules
//! of the frame loop.
//!
//! The context owns no window. Whoever drives it polls the window for
//! events, hands them to [`Context::tick`] and carries out the commands
//! of the [`Frame`] that comes back. All decisions are taken here: which
//! events end the loop, and what is drawn, in which order.

use vstd::prelude::*;
use crate::event::{Event, LoopState};
use crate::graphable::GraphableFn;
use crate::primitive::{ColorRgb, Vec2};
use crate::renderer::{
    can_divide, can_render, is_quotient, is_rendering, Number, RenderCache, Vertex,
};

verus! {

/// Pixel columns per unit of `x`: the horizontal stretch is the
/// hundredth part of a unit.
pub const X_PIXELS_PER_UNIT: u32 = 100;

/// Pixel rows per unit of `y`: the vertical stretch is a hundred.
pub const Y_PIXELS_PER_UNIT: u32 = 100;

/// The stretches of a context can be computed.
pub open spec fn can_find_stretch<S: Number, N: Fn(u32) -> S>(number: N) -> bool {
    &&& number.requires((1u32,))
    &&& number.requires((X_PIXELS_PER_UNIT,))
    &&& number.requires((Y_PIXELS_PER_UNIT,))
    &&& forall|one: S, columns: S|
        #[trigger] number.ensures((1u32,), one) && #[trigger] number.ensures(
            (X_PIXELS_PER_UNIT,),
            columns,
        ) ==> can_divide(one, columns)
}

/// `x_stretch` is the horizontal stretch of a context:
/// `1 / X_PIXELS_PER_UNIT`.
pub open spec fn is_x_stretch<S: Number, N: Fn(u32) -> S>(number: N, x_stretch: S) -> bool {
    exists|one: S, columns: S|
        {
            &&& #[trigger] number.ensures((1u32,), one)
            &&& #[trigger] number.ensures((X_PIXELS_PER_UNIT,), columns)
            &&& is_quotient(one, columns, x_stretch)
        }
}

/// `y_stretch` is the vertical stretch of a context: `Y_PIXELS_PER_UNIT`.
pub open spec fn is_y_stretch<S: Number, N: Fn(u32) -> S>(number: N, y_stretch: S) -> bool {
    number.ensures((Y_PIXELS_PER_UNIT,), y_stretch)
}

/// Every step of adding this figure to a context can be computed.
pub open spec fn can_add_figure<S: Number, F: GraphableFn<S> + ?Sized, N: Fn(u32) -> S>(
    figure: &F,
    surface: Vec2<u32>,
    number: N,
) -> bool {
    &&& can_find_stretch(number)
    &&& forall|x_stretch: S, y_stretch: S|
        #[trigger] is_x_stretch(number, x_stretch) && #[trigger] is_y_stretch(number, y_stretch)
            ==> can_render(figure, 0, surface.x, x_stretch, y_stretch, surface.y, number)
}

/// `vertices` is what a context caches for this figure: a rendering over
/// all pixel columns of the surface, at the stretches of a context and
/// against the height of the surface.
pub open spec fn is_cache_of<S: Number, F: GraphableFn<S> + ?Sized, N: Fn(u32) -> S>(
    figure: &F,
    surface: Vec2<u32>,
    number: N,
    vertices: Seq<Vertex<S>>,
) -> bool {
    exists|x_stretch: S, y_stretch: S|
        {
            &&& #[trigger] is_x_stretch(number, x_stretch)
            &&& #[trigger] is_y_stretch(number, y_stretch)
            &&& is_rendering(
                figure,
                0,
                surface.x,
                x_stretch,
                y_stretch,
                surface.y,
                number,
                vertices,
            )
        }
}

/// Color that the surface is cleared to before the figures are drawn:
/// white.
pub open spec fn spec_background() -> ColorRgb {
    ColorRgb { r: 255, g: 255, b: 255 }
}

/// Color that the surface is cleared to before the figures are drawn:
/// white.
#[verifier::when_used_as_spec(spec_background)]
pub fn background() -> (color: ColorRgb)
    ensures
        color == spec_background(),
{
    ColorRgb { r: 255, g: 255, b: 255 }
}

/// One call on the drawing surface.
#[derive(Clone, Copy, Debug, PartialEq, Eq, Structural)]
pub enum Command {
    /// Fill the surface with a color.
    Clear(ColorRgb),
    /// Draw the cached vertices of the figure with this index, each
    /// joined to the next by a line.
    DrawLineStrip(usize),
    /// Present what was drawn.
    Display,
}

/// The draw calls for `count` figures: one line strip each, in the order
/// in which the figures were added.
pub open spec fn draw_commands(count: nat) -> Seq<Command> {
    Seq::new(count, |k: int| Command::DrawLineStrip(k as usize))
}

/// The calls that make one frame showing `count` figures: clear to the
/// background, draw every figure, present.
pub open spec fn frame_commands(count: nat) -> Seq<Command> {
    seq![Command::Clear(background())] + draw_commands(count) + seq![Command::Display]
}

/// What one turn of the loop leaves to its driver.
pub struct Frame {
    /// The calls to make on the surface, in this order.
    pub commands: Vec<Command>,
    /// `true` if the loop should go on, `false` if the user wants to
    /// quit.
    pub running: bool,
}

/// A registered function together with its rendering.
pub struct Figure<S, F> {
    pub function: F,
    pub cache: RenderCache<S>,
}

/// The figures of a graph, in the order in which they were added, and
/// the state of its frame loop.
///
/// `S` is the number type of the coordinates and `F` the type of the
/// functions. With `Box<dyn GraphableFn<S>>` for `F`, functions of any
/// type can be added to one context.
pub struct Context<S, F> {
    figures: Vec<Figure<S, F>>,
    state: LoopState,
}

impl<S, F> Context<S, F> {
    /// The registered figures, oldest first.
    pub closed spec fn figures(&self) -> Seq<Figure<S, F>> {
        self.figures@
    }

    /// The state of the frame loop.
    pub closed spec fn state(&self) -> LoopState {
        self.state
    }

    /// Create a new `Context`: no figures yet, and the loop running.
    pub fn new() -> (context: Context<S, F>)
        ensures
            context.figures().len() == 0,
            context.state() == LoopState::Running,
    {
        Context { figures: Vec::new(), state: LoopState::Running }
    }

    /// Number of registered figures.
    pub fn figure_count(&self) -> (count: usize)
        ensures
            count == self.figures().len(),
    {
        self.figures.len()
    }

    /// The rendering of the figure with this index, if there is one.
    pub fn cache(&self, index: usize) -> (cache: Option<&RenderCache<S>>)
        ensures
            index < self.figures().len() ==> cache == Some(&self.figures()[index as int].cache),
            index >= self.figures().len() ==> cache.is_none(),
    {
        if index < self.figures.len() {
            Some(&self.figures[index].cache)
        } else {
            None
        }
    }

    /// Whether the loop has not been asked to stop yet.
    pub fn is_running(&self) -> (running: bool)
        ensures
            running == (self.state() == LoopState::Running),
    {
        match self.state {
            LoopState::Running => true,
            LoopState::Stopped => false,
        }
    }

    /// The draw calls of one frame: a line strip for every figure, in the
    /// order in which the figures were added.
    pub fn test(&self) -> (commands: Vec<Command>)
        ensures
            commands@ == draw_commands(self.figures().len()),
    {
        let mut commands: Vec<Command> = Vec::new();
        let mut i: usize = 0;
        while i < self.figures.len()
            invariant
                i <= self.figures@.len(),
                commands@ == draw_commands(i as nat),
            decreases self.figures@.len() - i,
        {
            commands.push(Command::DrawLineStrip(i));
            i = i + 1;
            proof {
                assert(commands@ =~= draw_commands(i as nat));
            }
        }
        commands
    }

    /// Execute one frame of the main loop.
    ///
    /// `events` are the window's pending events, oldest first. They are
    /// all taken note of; then the frame is laid out from the cached
    /// renderings, without sampling any function again.
    ///
    /// # Return value
    /// The calls that draw the frame, and whether the simulation should
    /// continue. Once an event has asked to quit, this and every later
    /// frame says that it should not.
    pub fn tick(&mut self, events: &[Event]) -> (frame: Frame)
        ensures
            final(self).state() == old(self).state().after(events@),
            final(self).figures() == old(self).figures(),
            frame.running == (final(self).state() == LoopState::Running),
            frame.commands@ == frame_commands(old(self).figures().len()),
    {
        self.state = self.state.drain(events);
        let mut commands: Vec<Command> = Vec::new();
        commands.push(Command::Clear(background()));
        let mut draws = self.test();
        commands.append(&mut draws);
        commands.push(Command::Display);
        proof {
            assert(commands@ =~= frame_commands(self.figures@.len()));
        }
        Frame { commands, running: self.is_running() }
    }
}

impl<S: Number, F: GraphableFn<S>> Context<S, F> {
    /// Add a figure, represented by a `GraphableFn`, to the graph. The
    /// figure will be retained for the lifetime of the `Context`.
    ///
    /// The function is sampled here, once for every pixel column of a
    /// surface of size `surface`, and never again: calls to this
    /// function can be very expensive. The new figure is drawn after
    /// those that were added before.
    ///
    /// `number` turns a count of pixels into a number of the type `S`.
    pub fn add_figure<N: Fn(u32) -> S>(&mut self, figure: F, surface: Vec2<u32>, number: N)
        requires
            can_add_figure(&figure, surface, number),
        ensures
            final(self).state() == old(self).state(),
            final(self).figures().len() == old(self).figures().len() + 1,
            final(self).figures().drop_last() == old(self).figures(),
            final(self).figures().last().function == figure,
            is_cache_of(&figure, surface, number, final(self).figures().last().cache@),
    {
        let x_stretch = number(1) / number(X_PIXELS_PER_UNIT);
        let y_stretch = number(Y_PIXELS_PER_UNIT);
        assert(is_x_stretch(number, x_stretch));
        assert(is_y_stretch(number, y_stretch));
        let cache = RenderCache::render(
            &figure,
            0,
            surface.x,
            x_stretch,
            y_stretch,
            surface.y,
            number,
        );
        self.figures.push(Figure { function: figure, cache });
    }
}

} // verus!
