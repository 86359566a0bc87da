use vstd::prelude::*;

verus! {

/// A persisted tally.
#[derive(Debug, Clone, Copy, PartialEq, Eq, Structural)]
pub struct Counter {
    pub count: u64,
}

/// What to do to a counter.
#[derive(Debug, Clone, Copy, PartialEq, Eq, Structural)]
pub enum CounterAction {
    Increment,
    Decrement,
}

impl CounterAction {
    /// The action that an instruction's leading byte selects, if any.
    pub open spec fn decoded(data: Seq<u8>) -> Option<CounterAction> {
        if data[0] == 0 {
            Some(CounterAction::Increment)
        } else if data[0] == 1 {
            Some(CounterAction::Decrement)
        } else {
            None
        }
    }

    /// Reads the action from the leading byte of an instruction.
    pub fn decode(data: &[u8]) -> (r: Option<CounterAction>)
        requires
            data@.len() >= 1,
        ensures
            r == CounterAction::decoded(data@),
    {
        let tag: u8 = data[0];
        if tag == 0 {
            Some(CounterAction::Increment)
        } else if tag == 1 {
            Some(CounterAction::Decrement)
        } else {
            None
        }
    }
}

impl Counter {
    /// The count after `action`.
    pub open spec fn updated(&self, action: CounterAction) -> int {
        match action {
            CounterAction::Increment => self.count + 1,
            CounterAction::Decrement => self.count - 1,
        }
    }

    /// A counter at zero.
    pub fn initialize() -> (c: Counter)
        ensures
            c.count == 0,
    {
        Counter { count: 0 }
    }

    /// Steps the count up or down by one.
    pub fn update(&mut self, action: CounterAction)
        requires
            0 <= old(self).updated(action) <= u64::MAX,
        ensures
            final(self).count == old(self).updated(action),
    {
        match action {
            CounterAction::Increment => {
                self.count = self.count + 1;
            },
            CounterAction::Decrement => {
                self.count = self.count - 1;
            },
        }
    }
}

} // verus!
