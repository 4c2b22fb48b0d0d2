//! The refresh cycle of a widget.
//!
//! A widget starts `Loading` and asks for a fetch. When the fetch settles its
//! state becomes `Ready` or `Error` and a timer is armed for the configured
//! interval. When the timer expires the widget is rebuilt from scratch: a new
//! generation starts `Loading` and asks for a new fetch. Results and timers of
//! an older generation are discarded.
use vstd::prelude::*;

use crate::components::{settled, LoadState};

verus! {

/// What the caller has to do next for a widget.
#[derive(Debug, Clone, Copy, PartialEq, Eq, Structural)]
pub enum Action {
    /// Run the fetch of this generation and hand its outcome to `settle`.
    Fetch { generation: u64 },
    /// Wait this many seconds, then call `expire` with this generation.
    Wait { generation: u64, seconds: u64 },
    /// Nothing: the event was stale or out of turn.
    Nothing,
}

/// One self-refreshing widget: its generation and what it shows.
#[derive(Debug)]
pub struct Widget<T, E> {
    generation: u64,
    interval: u64,
    state: LoadState<T, E>,
}

/// The state after a fetch of generation `g` settled with `result`: only a
/// loading state of the same generation takes it.
pub open spec fn after_settle<T, E>(
    generation: u64,
    state: LoadState<T, E>,
    g: u64,
    result: Result<T, E>,
) -> LoadState<T, E> {
    if g == generation && state is Loading {
        settled(result)
    } else {
        state
    }
}

/// Generation and state after the timer of generation `g` expired: a settled
/// widget of that generation is rebuilt, loading, as the next generation.
pub open spec fn after_expire<T, E>(generation: u64, state: LoadState<T, E>, g: u64) -> (
    u64,
    LoadState<T, E>,
) {
    if g == generation && !(state is Loading) {
        ((generation + 1) as u64, LoadState::Loading)
    } else {
        (generation, state)
    }
}

impl<T, E> Widget<T, E> {
    pub closed spec fn generation_spec(&self) -> u64 {
        self.generation
    }

    pub closed spec fn interval_spec(&self) -> u64 {
        self.interval
    }

    pub closed spec fn state_spec(&self) -> LoadState<T, E> {
        self.state
    }

    /// A new widget, loading, with its first fetch to run.
    pub fn new(interval_seconds: u64) -> (r: (Self, Action))
        ensures
            r.0.generation_spec() == 0,
            r.0.interval_spec() == interval_seconds,
            r.0.state_spec() is Loading,
            r.1 == (Action::Fetch { generation: 0 }),
    {
        (Widget { generation: 0, interval: interval_seconds, state: LoadState::Loading }, Action::Fetch {
            generation: 0,
        })
    }

    pub fn generation(&self) -> (r: u64)
        ensures
            r == self.generation_spec(),
    {
        self.generation
    }

    pub fn state(&self) -> (r: &LoadState<T, E>)
        ensures
            *r == self.state_spec(),
    {
        &self.state
    }

    /// The fetch of generation `generation` settled with `result`. A loading
    /// widget of that generation shows it and arms its timer; anything else
    /// discards it.
    pub fn settle(&mut self, generation: u64, result: Result<T, E>) -> (r: Action)
        ensures
            final(self).generation_spec() == old(self).generation_spec(),
            final(self).interval_spec() == old(self).interval_spec(),
            final(self).state_spec() == after_settle(
                old(self).generation_spec(),
                old(self).state_spec(),
                generation,
                result,
            ),
            r == (if generation == old(self).generation_spec() && old(self).state_spec() is Loading {
                Action::Wait { generation, seconds: old(self).interval_spec() }
            } else {
                Action::Nothing
            }),
    {
        if generation == self.generation && self.state.is_loading() {
            self.state = LoadState::from_result(result);
            Action::Wait { generation, seconds: self.interval }
        } else {
            Action::Nothing
        }
    }

    /// The timer of generation `generation` expired. A settled widget of that
    /// generation is discarded and rebuilt: the next generation, loading, with
    /// a new fetch to run. Anything else is a stale timer and does nothing.
    pub fn expire(&mut self, generation: u64) -> (r: Action)
        requires
            old(self).generation_spec() < u64::MAX,
        ensures
            final(self).interval_spec() == old(self).interval_spec(),
            (final(self).generation_spec(), final(self).state_spec()) == after_expire(
                old(self).generation_spec(),
                old(self).state_spec(),
                generation,
            ),
            r == (if generation == old(self).generation_spec() && !(old(self).state_spec() is Loading) {
                Action::Fetch { generation: (generation + 1) as u64 }
            } else {
                Action::Nothing
            }),
    {
        if generation == self.generation && !self.state.is_loading() {
            self.generation = generation + 1;
            self.state = LoadState::Loading;
            Action::Fetch { generation: self.generation }
        } else {
            Action::Nothing
        }
    }
}

/// A load state is observed as loading and then ready, or loading and then
/// failed: within one generation it settles at most once, and a settled state
/// is never changed in place. Only a rebuild, under the next generation,
/// brings a new loading state.
pub proof fn law_settled_state_is_final<T, E>(
    generation: u64,
    state: LoadState<T, E>,
    g: u64,
    result: Result<T, E>,
)
    requires
        generation < u64::MAX,
    ensures
        state is Loading ==> after_settle(generation, state, g, result) is Loading || after_settle(
            generation,
            state,
            g,
            result,
        ) == settled(result),
        !(state is Loading) ==> after_settle(generation, state, g, result) == state,
        after_expire(generation, state, g).0 == generation ==> after_expire(generation, state, g).1
            == state,
        after_expire(generation, state, g).0 != generation ==> after_expire(
            generation,
            state,
            g,
        ).0 == generation + 1 && after_expire(generation, state, g).1 is Loading && !(
        state is Loading),
{
}

} // verus!
