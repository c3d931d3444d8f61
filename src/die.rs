//! A die's data and the controller that animates it while it rolls.

use crate::score::Score;
use vstd::prelude::*;

verus! {

/// The state of a die: either being rolled or having landed on a value.
#[derive(Debug, Copy, Clone, PartialEq, Eq, Structural)]
pub enum DieState {
    Value(Score),
    Rolling,
}

impl DieState {
    /// A die that has landed on `value`.
    pub fn new(value: u8) -> (r: Self)
        ensures
            r == DieState::Value(Score(value)),
    {
        DieState::Value(Score(value))
    }

    pub fn is_rolling(&self) -> (r: bool)
        ensures
            r == (*self is Rolling),
    {
        match self {
            DieState::Rolling => true,
            _ => false,
        }
    }
}

/// The data that a die is drawn from.
#[derive(Debug, Copy, Clone, PartialEq, Eq, Structural)]
pub struct DieData {
    /// Whether the die is being rolled or has stopped on a value.
    pub state: DieState,
    /// Whether the die should be displayed bright or not.
    ///
    /// Not bright can be used to indicate that the die is not selected, for example for re-rolls.
    pub bright: bool,
}

/// A bright die that has landed on `value`.
pub open spec fn settled(value: u8) -> DieData {
    DieData { state: DieState::Value(Score(value)), bright: true }
}

impl DieData {
    pub fn new(value: u8) -> (r: Self)
        ensures
            r == settled(value),
    {
        Self { state: DieState::new(value), bright: true }
    }

    pub fn is_rolling(&self) -> (r: bool)
        ensures
            r == (self.state is Rolling),
    {
        self.state.is_rolling()
    }

    /// The value the die has landed on, or `None` while it rolls.
    pub fn value(&self) -> (r: Option<Score>)
        ensures
            r == match self.state {
                DieState::Value(v) => Some(v),
                DieState::Rolling => None,
            },
    {
        match self.state {
            DieState::Value(v) => Some(v),
            _ => None,
        }
    }

    pub fn set_rolling(&mut self) -> (r: &mut Self)
        ensures
            *r == (DieData { state: DieState::Rolling, bright: old(self).bright }),
            *final(self) == *final(r),
    {
        self.state = DieState::Rolling;
        self
    }

    pub fn set_value(&mut self, value: Score) -> (r: &mut Self)
        ensures
            *r == (DieData { state: DieState::Value(value), bright: old(self).bright }),
            *final(self) == *final(r),
    {
        self.state = DieState::Value(value);
        self
    }

    pub fn bright(&self) -> (r: bool)
        ensures
            r == self.bright,
    {
        self.bright
    }

    pub fn set_bright(&mut self, bright: bool) -> (r: &mut Self)
        ensures
            *r == (DieData { state: old(self).state, bright }),
            *final(self) == *final(r),
    {
        self.bright = bright;
        self
    }
}

/// What the host has to do after the die controller has taken an event.
#[derive(Debug, Copy, Clone, PartialEq, Eq, Structural)]
pub enum DieAction {
    /// Nothing to do.
    Idle,
    /// Redraw the die.
    Repaint,
    /// Start the rolling timer and hand its token to `Die::set_timer`.
    StartTimer,
    /// Start the next rolling tick (handing its token to `Die::set_timer`),
    /// and redraw the die.
    NextTick,
}

/// The controller of one die: the value shown while the die rolls, and the
/// token of the timer that drives the rolling effect.
pub struct Die {
    rolling_timer: Option<u64>,
    rolling_score: Score,
}

impl Die {
    /// The value shown while the die rolls.
    pub closed spec fn rolling_value(&self) -> Score {
        self.rolling_score
    }

    /// The token of the timer that the controller waits for, if any.
    pub closed spec fn timer(&self) -> Option<u64> {
        self.rolling_timer
    }

    /// The value shown while rolling is always a face of a six-sided die.
    pub open spec fn wf(&self) -> bool {
        1 <= self.rolling_value().0 <= 6
    }

    pub fn new() -> (r: Self)
        ensures
            r.wf(),
            r.timer() is None,
    {
        Self { rolling_timer: None, rolling_score: Score::random_die() }
    }

    /// The value to display: the settled value, or the rolling value while the die rolls.
    pub fn score(&self, data: &DieData) -> (r: Score)
        ensures
            r == match data.state {
                DieState::Value(score) => score,
                DieState::Rolling => self.rolling_value(),
            },
    {
        match data.state {
            DieState::Value(score) => score,
            DieState::Rolling => self.rolling_score,
        }
    }

    /// Take a timer event with the given token. A tick of the controller's own
    /// timer while the die rolls moves the rolling value to another face and
    /// asks for the next tick; once the die has settled the tick only redraws
    /// and the chain of ticks ends. Other timers are ignored.
    pub fn on_timer(&mut self, token: u64, data: &DieData) -> (r: DieAction)
        requires
            old(self).wf(),
        ensures
            final(self).wf(),
            final(self).timer() == old(self).timer(),
            old(self).timer() != Some(token) ==> r == DieAction::Idle && *final(self) == *old(self),
            old(self).timer() == Some(token) && data.state is Rolling ==> {
                &&& r == DieAction::NextTick
                &&& final(self).rolling_value() != old(self).rolling_value()
            },
            old(self).timer() == Some(token) && !(data.state is Rolling) ==> {
                &&& r == DieAction::Repaint
                &&& *final(self) == *old(self)
            },
    {
        let ours = match self.rolling_timer {
            Some(t) => t == token,
            None => false,
        };
        if !ours {
            return DieAction::Idle;
        }
        if data.is_rolling() {
            self.rolling_score = self.rolling_score.different_random_die();
            DieAction::NextTick
        } else {
            DieAction::Repaint
        }
    }

    /// Record the token of the timer that the host started for this die.
    pub fn set_timer(&mut self, token: u64)
        ensures
            final(self).timer() == Some(token),
            final(self).rolling_value() == old(self).rolling_value(),
    {
        self.rolling_timer = Some(token);
    }

    /// React to a change of the die's data from `old_data` to `data`: a die
    /// that starts rolling starts the timer, one that stops rolling is left to
    /// its next tick, a settled die is redrawn, and a rolling die keeps rolling.
    pub fn update(&self, old_data: &DieData, data: &DieData) -> (r: DieAction)
        ensures
            r == if data.state is Rolling && !(old_data.state is Rolling) {
                DieAction::StartTimer
            } else if !(data.state is Rolling) && !(old_data.state is Rolling) {
                DieAction::Repaint
            } else {
                DieAction::Idle
            },
    {
        match (data.is_rolling(), old_data.is_rolling()) {
            (true, false) => DieAction::StartTimer,
            (false, true) => DieAction::Idle,
            (false, false) => DieAction::Repaint,
            (true, true) => DieAction::Idle,
        }
    }
}

} // verus!
