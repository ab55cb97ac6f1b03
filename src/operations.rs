//! The five state transitions of the counter.
//!
//! The counter holds an `i32`. Increment, decrement and doubling wrap around
//! on overflow, as two's-complement arithmetic does; halving truncates toward
//! zero and never overflows.
use vstd::prelude::*;

verus! {

/// The smallest value the counter can hold.
pub open spec fn min_value() -> int {
    i32::MIN as int
}

/// The largest value the counter can hold.
pub open spec fn max_value() -> int {
    i32::MAX as int
}

/// Number of distinct values the counter can hold.
pub open spec fn modulus() -> int {
    0x1_0000_0000
}

/// Brings an integer that lies within one modulus of the range of `i32` back
/// into it, as two's-complement wrapping does.
pub open spec fn wrap(x: int) -> int {
    if x > max_value() {
        x - modulus()
    } else if x < min_value() {
        x + modulus()
    } else {
        x
    }
}

/// Division by two, rounded toward zero.
pub open spec fn half_toward_zero(v: int) -> int {
    if v >= 0 {
        v / 2
    } else {
        -((-v) / 2)
    }
}

/// One of the five operations a button of the counter triggers.
#[derive(Clone, Copy, Debug, PartialEq, Eq, Structural)]
pub enum Operation {
    Decrement,
    Increment,
    Reset,
    Multiply,
    Divide,
}

/// What an operation makes of the value `v`.
pub open spec fn apply_spec(op: Operation, v: int) -> int {
    match op {
        Operation::Decrement => wrap(v - 1),
        Operation::Increment => wrap(v + 1),
        Operation::Reset => 0,
        Operation::Multiply => wrap(2 * v),
        Operation::Divide => half_toward_zero(v),
    }
}

/// The value reached from `v` by applying `ops` in order.
pub open spec fn apply_all(ops: Seq<Operation>, v: int) -> int
    decreases ops.len(),
{
    if ops.len() == 0 {
        v
    } else {
        apply_spec(ops.last(), apply_all(ops.drop_last(), v))
    }
}

/// `v + 1`, wrapping from the largest value to the smallest.
pub fn increment_value(v: i32) -> (r: i32)
    ensures
        r == apply_spec(Operation::Increment, v as int),
{
    if v == i32::MAX {
        i32::MIN
    } else {
        v + 1
    }
}

/// `v - 1`, wrapping from the smallest value to the largest.
pub fn decrement_value(v: i32) -> (r: i32)
    ensures
        r == apply_spec(Operation::Decrement, v as int),
{
    if v == i32::MIN {
        i32::MAX
    } else {
        v - 1
    }
}

/// `2 * v`, wrapping around on overflow.
pub fn multiply_value(v: i32) -> (r: i32)
    ensures
        r == apply_spec(Operation::Multiply, v as int),
{
    let p: i64 = 2 * (v as i64);
    if p > i32::MAX as i64 {
        (p - 0x1_0000_0000) as i32
    } else if p < i32::MIN as i64 {
        (p + 0x1_0000_0000) as i32
    } else {
        p as i32
    }
}

/// `v / 2`, rounded toward zero.
pub fn divide_value(v: i32) -> (r: i32)
    ensures
        r == apply_spec(Operation::Divide, v as int),
{
    if v >= 0 {
        v / 2
    } else {
        let m: i64 = -(v as i64);
        -(m / 2) as i32
    }
}

/// The label of the button that triggers an operation.
pub open spec fn label_spec(op: Operation) -> Seq<char> {
    match op {
        Operation::Decrement => "-1"@,
        Operation::Increment => "+1"@,
        Operation::Reset => "Reset"@,
        Operation::Multiply => "\u{D7}2"@,
        Operation::Divide => "\u{F7}2"@,
    }
}

/// The operations of the button row, in the order the buttons stand.
pub open spec fn button_order() -> Seq<Operation> {
    seq![
        Operation::Decrement,
        Operation::Increment,
        Operation::Reset,
        Operation::Multiply,
        Operation::Divide,
    ]
}

/// The operations of the button row, left to right.
pub fn button_operations() -> (r: Vec<Operation>)
    ensures
        r@ == button_order(),
{
    let r = vec![
        Operation::Decrement,
        Operation::Increment,
        Operation::Reset,
        Operation::Multiply,
        Operation::Divide,
    ];
    assert(r@ =~= button_order());
    r
}

impl Operation {
    /// The label of the button that triggers this operation.
    pub fn label(&self) -> (r: &'static str)
        ensures
            r@ == label_spec(*self),
    {
        match self {
            Operation::Decrement => "-1",
            Operation::Increment => "+1",
            Operation::Reset => "Reset",
            Operation::Multiply => "\u{D7}2",
            Operation::Divide => "\u{F7}2",
        }
    }

    /// The value this operation makes of `v`.
    pub fn apply(&self, v: i32) -> (r: i32)
        ensures
            r == apply_spec(*self, v as int),
    {
        match self {
            Operation::Decrement => decrement_value(v),
            Operation::Increment => increment_value(v),
            Operation::Reset => 0,
            Operation::Multiply => multiply_value(v),
            Operation::Divide => divide_value(v),
        }
    }
}

/// Applying two runs of operations one after the other reaches the value
/// that applying their concatenation reaches: a run of operations is the
/// composition of its steps.
pub proof fn lemma_apply_all_concat(first: Seq<Operation>, second: Seq<Operation>, v: int)
    ensures
        apply_all(first + second, v) == apply_all(second, apply_all(first, v)),
    decreases second.len(),
{
    if second.len() == 0 {
        assert(first + second =~= first);
    } else {
        lemma_apply_all_concat(first, second.drop_last(), v);
        assert((first + second).drop_last() =~= first + second.drop_last());
    }
}

/// Halving rounds toward zero: what is lost is 0 or 1 and has the sign of
/// the value, so that 1 and -1 give 0, 4 gives 2 and 5 gives 2.
pub proof fn lemma_divide_toward_zero(v: int)
    ensures
        v >= 0 ==> 0 <= v - 2 * apply_spec(Operation::Divide, v) <= 1,
        v < 0 ==> -1 <= v - 2 * apply_spec(Operation::Divide, v) <= 0,
{
}

/// Resetting twice is resetting once, and both give zero.
pub proof fn lemma_reset_idempotent(v: int)
    ensures
        apply_spec(Operation::Reset, apply_spec(Operation::Reset, v)) == apply_spec(
            Operation::Reset,
            v,
        ),
        apply_spec(Operation::Reset, v) == 0,
{
}

} // verus!
