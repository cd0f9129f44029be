//! A counter that the operator steps up and down: the number of headless clients.
use vstd::prelude::*;

verus! {

/// The counter's value.
#[derive(Debug, Default)]
pub struct NumberInput {
    pub value: u64,
}

/// A step of the counter.
#[derive(Clone, Copy, Debug, PartialEq, Eq, Structural)]
pub enum Message {
    ValueIncreased(),
    ValueDecreased(),
}

impl NumberInput {
    /// Steps the value up or down by one.
    pub fn update(&mut self, message: Message)
        requires
            message is ValueIncreased ==> old(self).value < u64::MAX,
            message is ValueDecreased ==> old(self).value > 0,
        ensures
            message is ValueIncreased ==> final(self).value == old(self).value + 1,
            message is ValueDecreased ==> final(self).value == old(self).value - 1,
    {
        match message {
            Message::ValueDecreased() => {
                self.value = self.value - 1;
            },
            Message::ValueIncreased() => {
                self.value = self.value + 1;
            },
        }
    }
}

} // verus!
