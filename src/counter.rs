//! The counter: one value, the five handlers that change it, and the display
//! line and message rendered from it.
//!
//! Every handler renders both texts again from the value it has just set, so
//! a counter never pairs the display of one value with the message of another.
//! The counter is meant for one thread of events, each handled to completion.
use vstd::prelude::*;
use crate::message::{counter_message, display_string, display_text, Message};
use crate::operations::{
    apply_all, apply_spec, decrement_value, divide_value, increment_value, multiply_value,
    Operation,
};

verus! {

/// The value a counter starts from when none is given.
pub const INITIAL_VALUE: i32 = 0;

/// A counter with its rendered display line and message.
pub struct Counter {
    value: i32,
    display: String,
    message: Message,
}

impl View for Counter {
    type V = int;

    closed spec fn view(&self) -> int {
        self.value as int
    }
}

impl Counter {
    /// The display line the counter holds.
    pub closed spec fn shown_display(&self) -> Seq<char> {
        self.display@
    }

    /// The message the counter holds.
    pub closed spec fn shown_message(&self) -> Message {
        self.message
    }

    /// Both texts are those of the current value.
    pub open spec fn consistent(&self) -> bool {
        &&& self.shown_display() == display_text(self@)
        &&& self.shown_message().renders(self@)
    }

    #[verifier::type_invariant]
    closed spec fn inv(&self) -> bool {
        self.consistent()
    }

    /// A counter holding `initial`.
    pub fn new(initial: i32) -> (r: Counter)
        ensures
            r@ == initial as int,
            r.consistent(),
    {
        Counter { value: initial, display: display_string(initial), message: counter_message(initial) }
    }

    /// The current value.
    pub fn value(&self) -> (r: i32)
        ensures
            r as int == self@,
    {
        self.value
    }

    /// The display line of the current value.
    pub fn display(&self) -> (r: &str)
        ensures
            r@ == display_text(self@),
    {
        proof {
            use_type_invariant(self);
        }
        self.display.as_str()
    }

    /// The message of the current value.
    pub fn message(&self) -> (r: &Message)
        ensures
            r.renders(self@),
    {
        proof {
            use_type_invariant(self);
        }
        &self.message
    }

    /// Stores `v` and renders both texts from it.
    fn set(&mut self, v: i32)
        ensures
            final(self)@ == v as int,
            final(self).consistent(),
    {
        *self = Counter { value: v, display: display_string(v), message: counter_message(v) };
    }

    /// Adds one, wrapping around at the largest value.
    pub fn increment(&mut self)
        ensures
            final(self)@ == apply_spec(Operation::Increment, old(self)@),
            final(self).consistent(),
    {
        let v = increment_value(self.value);
        self.set(v);
    }

    /// Takes one away, wrapping around at the smallest value.
    pub fn decrement(&mut self)
        ensures
            final(self)@ == apply_spec(Operation::Decrement, old(self)@),
            final(self).consistent(),
    {
        let v = decrement_value(self.value);
        self.set(v);
    }

    /// Sets the value to zero.
    pub fn reset(&mut self)
        ensures
            final(self)@ == apply_spec(Operation::Reset, old(self)@),
            final(self).consistent(),
    {
        self.set(0);
    }

    /// Doubles the value, wrapping around on overflow.
    pub fn multiply(&mut self)
        ensures
            final(self)@ == apply_spec(Operation::Multiply, old(self)@),
            final(self).consistent(),
    {
        let v = multiply_value(self.value);
        self.set(v);
    }

    /// Halves the value, rounding toward zero.
    pub fn divide(&mut self)
        ensures
            final(self)@ == apply_spec(Operation::Divide, old(self)@),
            final(self).consistent(),
    {
        let v = divide_value(self.value);
        self.set(v);
    }

    /// Runs the handler of `op`.
    pub fn handle(&mut self, op: Operation)
        ensures
            final(self)@ == apply_spec(op, old(self)@),
            final(self).consistent(),
    {
        let v = op.apply(self.value);
        self.set(v);
    }

    /// Runs the handlers of `ops`, in order.
    pub fn run(&mut self, ops: &Vec<Operation>)
        ensures
            final(self)@ == apply_all(ops@, old(self)@),
            final(self).consistent(),
    {
        proof {
            use_type_invariant(&*self);
            assert(ops@.take(0) =~= Seq::<Operation>::empty());
        }
        let mut i: usize = 0;
        while i < ops.len()
            invariant
                i <= ops@.len(),
                self@ == apply_all(ops@.take(i as int), old(self)@),
                self.consistent(),
            decreases ops@.len() - i,
        {
            self.handle(ops[i]);
            proof {
                assert(ops@.take(i + 1).drop_last() =~= ops@.take(i as int));
            }
            i += 1;
        }
        proof {
            assert(ops@.take(ops@.len() as int) =~= ops@);
        }
    }
}

impl Default for Counter {
    /// A counter holding the initial value, zero.
    fn default() -> (r: Counter)
        ensures
            r@ == INITIAL_VALUE as int,
            r.consistent(),
    {
        Counter::new(INITIAL_VALUE)
    }
}

} // verus!
