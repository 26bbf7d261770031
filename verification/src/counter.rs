use vstd::prelude::*;

verus! {

/// The counter program: a single signed value that buttons (and a timer)
/// increment or decrement.
pub struct Counter {
    pub value: i32,
}

/// The messages the counter program reacts to.
#[derive(Debug, Clone, Copy, PartialEq, Eq, Structural)]
pub enum Message {
    IncrementPressed,
    DecrementPressed,
}

/// The value of the counter after it has handled `message`.
pub open spec fn step(value: int, message: Message) -> int {
    match message {
        Message::IncrementPressed => value + 1,
        Message::DecrementPressed => value - 1,
    }
}

/// The value of the counter after it has handled each of `messages` in turn.
pub open spec fn apply_all(value: int, messages: Seq<Message>) -> int
    decreases messages.len(),
{
    if messages.len() == 0 {
        value
    } else {
        step(apply_all(value, messages.drop_last()), messages.last())
    }
}

/// Number of occurrences of `message` in `messages`.
pub open spec fn count_of(messages: Seq<Message>, message: Message) -> int
    decreases messages.len(),
{
    if messages.len() == 0 {
        0
    } else {
        count_of(messages.drop_last(), message) + if messages.last() == message {
            1int
        } else {
            0int
        }
    }
}

/// Whether `message` can be handled by a counter at `value` without leaving
/// the range of `i32`.
pub open spec fn can_handle(value: int, message: Message) -> bool {
    i32::MIN <= step(value, message) <= i32::MAX
}

impl Counter {
    /// Handles one message: an increment adds one to the value, a decrement
    /// subtracts one.
    pub fn update(&mut self, message: Message)
        requires
            can_handle(old(self).value as int, message),
        ensures
            final(self).value == step(old(self).value as int, message),
    {
        match message {
            Message::IncrementPressed => {
                self.value = self.value + 1;
            },
            Message::DecrementPressed => {
                self.value = self.value - 1;
            },
        }
    }
}

/// An increment followed by a decrement leaves the value where it was, and
/// so does a decrement followed by an increment.
pub proof fn lemma_increment_decrement_cancel(value: int)
    ensures
        step(step(value, Message::IncrementPressed), Message::DecrementPressed) == value,
        step(step(value, Message::DecrementPressed), Message::IncrementPressed) == value,
{
}

/// The order in which two messages are handled does not change the result.
pub proof fn lemma_step_commutes(value: int, a: Message, b: Message)
    ensures
        step(step(value, a), b) == step(step(value, b), a),
{
}

/// After any sequence of messages the value has moved by the number of
/// increments minus the number of decrements.
pub proof fn lemma_apply_all_counts(value: int, messages: Seq<Message>)
    ensures
        apply_all(value, messages) == value + count_of(messages, Message::IncrementPressed)
            - count_of(messages, Message::DecrementPressed),
    decreases messages.len(),
{
    if messages.len() > 0 {
        lemma_apply_all_counts(value, messages.drop_last());
    }
}

/// An increment raises the value by exactly one and a decrement lowers it
/// by exactly one.
pub proof fn lemma_step_moves_by_one(value: int)
    ensures
        step(value, Message::IncrementPressed) == value + 1,
        step(value, Message::DecrementPressed) == value - 1,
        can_handle(value, Message::IncrementPressed) <==> i32::MIN <= value + 1 <= i32::MAX,
        can_handle(value, Message::DecrementPressed) <==> i32::MIN <= value - 1 <= i32::MAX,
{
}

} // verus!
