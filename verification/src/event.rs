//! The events of a window and what they mean for the frame loop.
//!
//! The loop is either running or stopped. It stops when the window is
//! closed or escape is pressed, and then stays stopped: no event starts
//! it again. Every other event is taken note of and ignored.

use vstd::prelude::*;

verus! {

/// A key of the keyboard, as far as the loop tells keys apart.
#[derive(Clone, Copy, Debug, PartialEq, Eq, Structural)]
pub enum Key {
    Escape,
    Other,
}

/// Something that happened to the window.
#[derive(Clone, Copy, Debug, PartialEq, Eq, Structural)]
pub enum Event {
    KeyPressed { code: Key },
    Closed,
    Other,
}

impl Event {
    /// The event asks to end the loop: the window was closed, or escape
    /// was pressed.
    pub open spec fn is_quit(self) -> bool {
        self == Event::Closed || self == (Event::KeyPressed { code: Key::Escape })
    }

    /// Whether the event asks to end the loop.
    pub fn asks_to_quit(&self) -> (quit: bool)
        ensures
            quit == self.is_quit(),
    {
        match self {
            Event::KeyPressed { code } => match code {
                Key::Escape => true,
                _ => false,
            },
            Event::Closed => true,
            _ => false,
        }
    }
}

/// State of the frame loop. `Stopped` is final.
#[derive(Clone, Copy, Debug, PartialEq, Eq, Structural)]
pub enum LoopState {
    Running,
    Stopped,
}

impl LoopState {
    /// State after one event was seen.
    pub open spec fn step(self, event: Event) -> LoopState {
        if self == LoopState::Running && !event.is_quit() {
            LoopState::Running
        } else {
            LoopState::Stopped
        }
    }

    /// State after all of `events` were seen: the loop goes on only if it
    /// was running before and none of them asks to quit.
    pub open spec fn after(self, events: Seq<Event>) -> LoopState {
        if self == LoopState::Running && forall|i: int|
            0 <= i < events.len() ==> !(#[trigger] events[i]).is_quit() {
            LoopState::Running
        } else {
            LoopState::Stopped
        }
    }

    /// Take note of one event.
    pub fn on_event(self, event: &Event) -> (next: LoopState)
        ensures
            next == self.step(*event),
    {
        match self {
            LoopState::Running => if event.asks_to_quit() {
                LoopState::Stopped
            } else {
                LoopState::Running
            },
            LoopState::Stopped => LoopState::Stopped,
        }
    }

    /// Take note of all pending events, in the order they came.
    pub fn drain(self, events: &[Event]) -> (next: LoopState)
        ensures
            next == self.after(events@),
    {
        let mut state = self;
        let mut i: usize = 0;
        while i < events.len()
            invariant
                i <= events.len(),
                state == self.after(events@.take(i as int)),
            decreases events.len() - i,
        {
            proof {
                lemma_after_push(self, events@.take(i as int), events@[i as int]);
                assert(events@.take(i as int).push(events@[i as int]) =~= events@.take(i + 1));
            }
            state = state.on_event(&events[i]);
            i = i + 1;
        }
        proof {
            assert(events@.take(i as int) =~= events@);
        }
        state
    }
}

/// Seeing events one by one or all together leads to the same state.
pub proof fn lemma_after_push(state: LoopState, events: Seq<Event>, event: Event)
    ensures
        state.after(events.push(event)) == state.after(events).step(event),
{
    let longer = events.push(event);
    if state.after(events) == LoopState::Running && !event.is_quit() {
        assert forall|i: int| 0 <= i < longer.len() implies !(#[trigger] longer[i]).is_quit() by {
            if i < events.len() {
                assert(longer[i] == events[i]);
            }
        }
    } else if state.after(events) == LoopState::Running {
        assert(longer[events.len() as int].is_quit());
    } else if state == LoopState::Running {
        let i = choose|i: int| 0 <= i < events.len() && (#[trigger] events[i]).is_quit();
        assert(longer[i] == events[i]);
    }
}

/// `Stopped` is final: no event leads back to `Running`.
pub proof fn lemma_stopped_is_final(events: Seq<Event>)
    ensures
        LoopState::Stopped.after(events) == LoopState::Stopped,
        forall|event: Event| LoopState::Stopped.step(event) == LoopState::Stopped,
{
}

/// One event that asks to quit stops the loop, whatever else is pending.
pub proof fn lemma_quit_event_stops(state: LoopState, events: Seq<Event>, i: int)
    requires
        0 <= i < events.len(),
        events[i].is_quit(),
    ensures
        state.after(events) == LoopState::Stopped,
{
}

} // verus!
