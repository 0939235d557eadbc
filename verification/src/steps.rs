//! Ready-made step types: a plain-integer step for homogeneous chains, and a
//! small tagged payload with steps that move it between shapes, so that one
//! chain can pass a value through integer, optional, pair and tuple stages.

use crate::chain::Step;
use vstd::prelude::*;

verus! {

/// A step over plain integers: adds a fixed amount, wrapping on overflow.
pub struct AddConst {
    pub amount: u64,
}

impl Step<u64> for AddConst {
    open spec fn sem(self, x: u64) -> u64 {
        x.wrapping_add(self.amount)
    }

    fn apply(self, x: u64) -> (r: u64) {
        x.wrapping_add(self.amount)
    }
}

/// A tagged payload for heterogeneous chains: one chain may carry the value
/// through several of these shapes, one shape at a time.
#[derive(Debug, PartialEq, Eq)]
pub enum Value {
    /// A plain integer.
    Int(u64),
    /// An optional integer.
    OptInt(Option<u64>),
    /// An optional integer with a text label.
    Pair(Option<u64>, String),
    /// An optional integer, a flag, and a text label.
    Triple(Option<u64>, bool, String),
}

/// A step over [`Value`]. Each variant transforms one shape of the payload
/// and leaves every other shape unchanged; all arithmetic wraps on overflow.
#[derive(Debug)]
pub enum ValueStep {
    /// Add to a plain integer.
    AddInt(u64),
    /// Add to the integer inside an optional.
    MapAdd(u64),
    /// Subtract from the integer inside an optional.
    MapSub(u64),
    /// Wrap a plain integer into an occupied optional.
    WrapSome,
    /// Attach a label to an optional, producing a pair.
    PairWith(String),
    /// Add to the integer inside a pair's optional.
    MapAddLeft(u64),
    /// Extend a pair with whether its optional is occupied.
    TagIsSome,
}

impl Step<Value> for ValueStep {
    open spec fn sem(self, x: Value) -> Value {
        match self {
            ValueStep::AddInt(k) => match x {
                Value::Int(n) => Value::Int(n.wrapping_add(k)),
                other => other,
            },
            ValueStep::MapAdd(k) => match x {
                Value::OptInt(Some(n)) => Value::OptInt(Some(n.wrapping_add(k))),
                other => other,
            },
            ValueStep::MapSub(k) => match x {
                Value::OptInt(Some(n)) => Value::OptInt(Some(n.wrapping_sub(k))),
                other => other,
            },
            ValueStep::WrapSome => match x {
                Value::Int(n) => Value::OptInt(Some(n)),
                other => other,
            },
            ValueStep::PairWith(label) => match x {
                Value::OptInt(o) => Value::Pair(o, label),
                other => other,
            },
            ValueStep::MapAddLeft(k) => match x {
                Value::Pair(Some(n), s) => Value::Pair(Some(n.wrapping_add(k)), s),
                other => other,
            },
            ValueStep::TagIsSome => match x {
                Value::Pair(o, s) => Value::Triple(o, o.is_some(), s),
                other => other,
            },
        }
    }

    fn apply(self, x: Value) -> (r: Value) {
        match self {
            ValueStep::AddInt(k) => match x {
                Value::Int(n) => Value::Int(n.wrapping_add(k)),
                other => other,
            },
            ValueStep::MapAdd(k) => match x {
                Value::OptInt(Some(n)) => Value::OptInt(Some(n.wrapping_add(k))),
                other => other,
            },
            ValueStep::MapSub(k) => match x {
                Value::OptInt(Some(n)) => Value::OptInt(Some(n.wrapping_sub(k))),
                other => other,
            },
            ValueStep::WrapSome => match x {
                Value::Int(n) => Value::OptInt(Some(n)),
                other => other,
            },
            ValueStep::PairWith(label) => match x {
                Value::OptInt(o) => Value::Pair(o, label),
                other => other,
            },
            ValueStep::MapAddLeft(k) => match x {
                Value::Pair(Some(n), s) => Value::Pair(Some(n.wrapping_add(k)), s),
                other => other,
            },
            ValueStep::TagIsSome => match x {
                Value::Pair(o, s) => Value::Triple(o, o.is_some(), s),
                other => other,
            },
        }
    }
}

} // verus!
