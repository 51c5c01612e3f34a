use std::cell::RefCell;
use std::rc::Rc;

use grapher::context::{background, Command, Context, X_PIXELS_PER_UNIT, Y_PIXELS_PER_UNIT};
use grapher::event::{Event, Key, LoopState};
use grapher::graphable::GraphableFn;
use grapher::primitive::{ColorRgb, Vec2};

const WHITE: ColorRgb = ColorRgb { r: 255, g: 255, b: 255 };

type Boxed = Box<dyn GraphableFn<f32>>;

fn number(count: u32) -> f32 {
    count as f32
}

/// A constant function that remembers what it was asked.
struct Level {
    y: f32,
    asked: Rc<RefCell<Vec<f32>>>,
}

impl Level {
    fn boxed(y: f32) -> (Boxed, Rc<RefCell<Vec<f32>>>) {
        let asked = Rc::new(RefCell::new(Vec::new()));
        (Box::new(Level { y, asked: asked.clone() }), asked)
    }
}

impl GraphableFn<f32> for Level {
    fn evaluate(&self, x: f32) -> (f32, ColorRgb) {
        self.asked.borrow_mut().push(x);
        (self.y, ColorRgb::new((255, 127, 200)))
    }
}

struct Ramp;

impl GraphableFn<f32> for Ramp {
    fn evaluate(&self, x: f32) -> (f32, ColorRgb) {
        (x, ColorRgb::new((0, 0, 0)))
    }
}

fn rows(context: &Context<f32, Boxed>, index: usize) -> Vec<f32> {
    context.cache(index).unwrap().vtx_arr().iter().map(|v| v.y).collect()
}

#[test]
fn there_are_a_hundred_pixels_to_the_unit() {
    assert_eq!(X_PIXELS_PER_UNIT, 100);
    assert_eq!(Y_PIXELS_PER_UNIT, 100);
}

#[test]
fn background_is_white() {
    assert_eq!(background(), WHITE);
}

#[test]
fn only_closing_and_escape_ask_to_quit() {
    assert!(Event::Closed.asks_to_quit());
    assert!(Event::KeyPressed { code: Key::Escape }.asks_to_quit());
    assert!(!Event::KeyPressed { code: Key::Other }.asks_to_quit());
    assert!(!Event::Other.asks_to_quit());
}

#[test]
fn loop_state_stops_on_a_quit_event_and_stays_stopped() {
    assert_eq!(LoopState::Running.on_event(&Event::Other), LoopState::Running);
    assert_eq!(
        LoopState::Running.on_event(&Event::KeyPressed { code: Key::Other }),
        LoopState::Running
    );
    assert_eq!(LoopState::Running.on_event(&Event::Closed), LoopState::Stopped);
    assert_eq!(
        LoopState::Running.on_event(&Event::KeyPressed { code: Key::Escape }),
        LoopState::Stopped
    );
    assert_eq!(LoopState::Stopped.on_event(&Event::Other), LoopState::Stopped);
    assert_eq!(LoopState::Stopped.on_event(&Event::Closed), LoopState::Stopped);
}

#[test]
fn drain_sees_every_pending_event() {
    assert_eq!(LoopState::Running.drain(&[]), LoopState::Running);
    assert_eq!(LoopState::Running.drain(&[Event::Other, Event::Other]), LoopState::Running);
    assert_eq!(
        LoopState::Running.drain(&[Event::Other, Event::Closed, Event::Other]),
        LoopState::Stopped
    );
    assert_eq!(
        LoopState::Running.drain(&[Event::Other, Event::KeyPressed { code: Key::Escape }]),
        LoopState::Stopped
    );
    assert_eq!(LoopState::Stopped.drain(&[]), LoopState::Stopped);
    assert_eq!(LoopState::Stopped.drain(&[Event::Other]), LoopState::Stopped);
}

#[test]
fn new_context_is_empty_and_running() {
    let context: Context<f32, Boxed> = Context::new();
    assert_eq!(context.figure_count(), 0);
    assert!(context.is_running());
    assert!(context.cache(0).is_none());
    assert!(context.test().is_empty());
}

#[test]
fn tick_without_figures_clears_and_presents() {
    let mut context: Context<f32, Boxed> = Context::new();
    for _ in 0..3 {
        let frame = context.tick(&[]);
        assert!(frame.running);
        assert_eq!(frame.commands, vec![Command::Clear(WHITE), Command::Display]);
    }
    let frame = context.tick(&[Event::Other, Event::KeyPressed { code: Key::Other }]);
    assert!(frame.running);
    let frame = context.tick(&[Event::KeyPressed { code: Key::Escape }]);
    assert!(!frame.running);
    assert_eq!(frame.commands, vec![Command::Clear(WHITE), Command::Display]);
}

#[test]
fn closed_event_ends_the_same_tick() {
    let mut context: Context<f32, Boxed> = Context::new();
    assert!(context.tick(&[]).running);
    let frame = context.tick(&[Event::Other, Event::Closed, Event::Other]);
    assert!(!frame.running);
    assert!(!context.is_running());
}

#[test]
fn escape_ends_the_tick_and_other_keys_do_not() {
    let mut context: Context<f32, Boxed> = Context::new();
    assert!(context.tick(&[Event::KeyPressed { code: Key::Other }]).running);
    assert!(!context.tick(&[Event::KeyPressed { code: Key::Escape }]).running);
}

#[test]
fn stopped_context_never_runs_again() {
    let mut context: Context<f32, Boxed> = Context::new();
    assert!(!context.tick(&[Event::Closed]).running);
    assert!(!context.tick(&[]).running);
    assert!(!context.tick(&[Event::Other]).running);
    assert!(!context.is_running());
}

#[test]
fn add_figure_samples_every_column_of_the_surface() {
    let mut context: Context<f32, Boxed> = Context::new();
    context.add_figure(Box::new(Ramp), Vec2::new((4, 600)), number);
    assert_eq!(context.figure_count(), 1);
    let vertices = context.cache(0).unwrap().vtx_arr();
    let columns: Vec<u32> = vertices.iter().map(|v| v.x).collect();
    assert_eq!(columns, vec![0, 1, 2, 3]);
    assert_eq!(
        rows(&context, 0),
        vec![
            300.0 - 0.0f32 * 0.01 * 100.0,
            300.0 - 1.0f32 * 0.01 * 100.0,
            300.0 - 2.0f32 * 0.01 * 100.0,
            300.0 - 3.0f32 * 0.01 * 100.0,
        ]
    );
    assert_eq!(rows(&context, 0)[0], 300.0);
    assert!(context.cache(1).is_none());
}

#[test]
fn add_figure_asks_the_function_at_every_hundredth() {
    let mut context: Context<f32, Boxed> = Context::new();
    let (level, asked) = Level::boxed(0.0);
    context.add_figure(level, Vec2::new((5, 10)), number);
    assert_eq!(
        *asked.borrow(),
        vec![0.0f32, 0.01, 2.0 * 0.01, 3.0 * 0.01, 4.0 * 0.01]
    );
}

#[test]
fn add_figure_stretches_values_a_hundredfold() {
    let mut context: Context<f32, Boxed> = Context::new();
    let (up, _) = Level::boxed(1.5);
    let (down, _) = Level::boxed(-0.25);
    context.add_figure(up, Vec2::new((2, 600)), number);
    context.add_figure(down, Vec2::new((2, 601)), number);
    assert_eq!(rows(&context, 0), vec![150.0, 150.0]);
    assert_eq!(rows(&context, 1), vec![325.5, 325.5]);
}

#[test]
fn add_figure_on_an_empty_surface_caches_nothing() {
    let mut context: Context<f32, Boxed> = Context::new();
    let (level, asked) = Level::boxed(1.0);
    context.add_figure(level, Vec2::new((0, 600)), number);
    assert_eq!(context.figure_count(), 1);
    assert!(context.cache(0).unwrap().vtx_arr().is_empty());
    assert!(asked.borrow().is_empty());
    let frame = context.tick(&[]);
    assert_eq!(
        frame.commands,
        vec![Command::Clear(WHITE), Command::DrawLineStrip(0), Command::Display]
    );
}

#[test]
fn figures_are_kept_and_drawn_in_insertion_order() {
    let mut context: Context<f32, Boxed> = Context::new();
    let (first, _) = Level::boxed(1.0);
    let (second, _) = Level::boxed(-1.0);
    let (third, _) = Level::boxed(0.0);
    context.add_figure(first, Vec2::new((2, 600)), number);
    context.add_figure(second, Vec2::new((3, 600)), number);
    context.add_figure(third, Vec2::new((1, 400)), number);
    assert_eq!(context.figure_count(), 3);
    assert_eq!(rows(&context, 0), vec![200.0, 200.0]);
    assert_eq!(rows(&context, 1), vec![400.0, 400.0, 400.0]);
    assert_eq!(rows(&context, 2), vec![200.0]);
    assert_eq!(
        context.test(),
        vec![Command::DrawLineStrip(0), Command::DrawLineStrip(1), Command::DrawLineStrip(2)]
    );
    let frame = context.tick(&[]);
    assert!(frame.running);
    assert_eq!(
        frame.commands,
        vec![
            Command::Clear(WHITE),
            Command::DrawLineStrip(0),
            Command::DrawLineStrip(1),
            Command::DrawLineStrip(2),
            Command::Display,
        ]
    );
}

#[test]
fn tick_draws_from_the_cache_without_sampling_again() {
    let mut context: Context<f32, Boxed> = Context::new();
    let (level, asked) = Level::boxed(0.5);
    context.add_figure(level, Vec2::new((800, 600)), number);
    assert_eq!(asked.borrow().len(), 800);
    let before = rows(&context, 0);
    for _ in 0..5 {
        assert!(context.tick(&[Event::Other]).running);
    }
    assert!(!context.tick(&[Event::Closed]).running);
    assert_eq!(asked.borrow().len(), 800);
    assert_eq!(before, rows(&context, 0));
    assert_eq!(before, vec![250.0; 800]);
}

#[test]
fn add_figure_leaves_the_loop_state_alone() {
    let mut context: Context<f32, Boxed> = Context::new();
    context.add_figure(Box::new(Ramp), Vec2::new((1, 1)), number);
    assert!(context.is_running());
    assert!(!context.tick(&[Event::Closed]).running);
    context.add_figure(Box::new(Ramp), Vec2::new((1, 1)), number);
    assert!(!context.is_running());
    assert_eq!(context.figure_count(), 2);
}

#[test]
fn context_of_one_kind_of_function_needs_no_box() {
    let mut context: Context<f32, Ramp> = Context::new();
    context.add_figure(Ramp, Vec2::new((3, 2)), number);
    let rows: Vec<f32> = context.cache(0).unwrap().vtx_arr().iter().map(|v| v.y).collect();
    assert_eq!(rows, vec![1.0, 1.0 - 0.01f32 * 100.0, 1.0 - 2.0f32 * 0.01 * 100.0]);
}
