//! A bounded counter reducer: the state-update rule behind the page's
//! counter handle, kept apart from any rendering concerns.

use vstd::prelude::*;

verus! {

/// One request to change the counter.
#[derive(Clone, Copy, Debug, PartialEq, Eq, Structural)]
pub enum CounterAction {
    Increase,
    IncreaseBy(usize),
    Decrease,
    DecreaseBy(usize),
    SetValue(usize),
    Reset,
}

/// Counter state: the current value and the value `Reset` restores.
#[derive(Clone, Copy, Debug, PartialEq, Eq, Structural)]
pub struct UseCounterReducer {
    pub value: usize,
    pub default: usize,
}

/// The value the counter holds after `action` is applied to a counter at
/// `value` with reset point `default`. Decreases saturate at zero.
pub open spec fn counter_next(value: usize, default: usize, action: CounterAction) -> int {
    match action {
        CounterAction::Increase => value + 1,
        CounterAction::IncreaseBy(delta) => value + delta,
        CounterAction::Decrease => if value > 0 { value - 1 } else { 0 },
        CounterAction::DecreaseBy(delta) => if value > delta { value - delta } else { 0 },
        CounterAction::SetValue(v) => v as int,
        CounterAction::Reset => default as int,
    }
}

impl UseCounterReducer {
    /// Apply one action. Increases must not overflow the machine word;
    /// decreases stop at zero and `Reset` restores the initial value.
    pub fn reduce(self, action: CounterAction) -> (r: Self)
        requires
            counter_next(self.value, self.default, action) <= usize::MAX,
        ensures
            r.value == counter_next(self.value, self.default, action),
            r.default == self.default,
    {
        let next_value: usize = match action {
            CounterAction::Increase => self.value + 1,
            CounterAction::IncreaseBy(delta) => self.value + delta,
            CounterAction::Decrease => {
                if self.value > 0 {
                    self.value - 1
                } else {
                    0
                }
            },
            CounterAction::DecreaseBy(delta) => {
                if self.value > delta {
                    self.value - delta
                } else {
                    0
                }
            },
            CounterAction::SetValue(value) => value,
            CounterAction::Reset => self.default,
        };
        UseCounterReducer { value: next_value, default: self.default }
    }
}

} // verus!
