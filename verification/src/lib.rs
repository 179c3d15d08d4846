//! A library of boolean predicates behind a command-line conditional tester:
//! a resolver that turns a raw argument vector into one typed predicate
//! request, and an evaluator that reduces a request plus the observed state
//! of the outside world to an exit status of 0 (true) or 1 (false), with 2
//! reserved for usage errors.

use vstd::prelude::*;

pub mod classify;
pub mod eval;
pub mod files;
pub mod paths;
pub mod pattern;
pub mod request;
pub mod resolver;
pub mod strutil;
pub mod version;

pub use strutil::eq_ci;

verus! {

/// The terminal result of evaluating one predicate.
#[derive(Clone, Copy, PartialEq, Eq, Structural, Debug)]
pub enum Outcome {
    True,
    False,
}

impl Outcome {
    /// The process exit status a predicate outcome maps to: 0 for a
    /// confirmed predicate, 1 for one that could not be confirmed.
    pub fn exit_code(&self) -> (r: u8)
        ensures
            r == 0 || r == 1,
            (r == 0) <==> (*self == Outcome::True),
    {
        match self {
            Outcome::True => 0,
            Outcome::False => 1,
        }
    }
}

/// The exit status reserved for malformed invocations; distinct from both
/// predicate results.
pub fn usage_exit_code() -> (r: u8)
    ensures
        r == 2,
{
    2
}

/// A relational operator shared by the numeric, size, length and version
/// predicates.
#[derive(Clone, Copy, PartialEq, Eq, Structural, Debug)]
pub enum CmpOp {
    Eq,
    Ne,
    Gt,
    Ge,
    Lt,
    Le,
}

/// Whether the relation holds of two mathematical integers.
pub open spec fn cmp_holds(op: CmpOp, a: int, b: int) -> bool {
    match op {
        CmpOp::Eq => a == b,
        CmpOp::Ne => a != b,
        CmpOp::Gt => a > b,
        CmpOp::Ge => a >= b,
        CmpOp::Lt => a < b,
        CmpOp::Le => a <= b,
    }
}

/// Evaluates a relational operator on two signed 64-bit integers.
pub fn cmp_i64(op: CmpOp, a: i64, b: i64) -> (r: bool)
    ensures
        r == cmp_holds(op, a as int, b as int),
{
    match op {
        CmpOp::Eq => a == b,
        CmpOp::Ne => a != b,
        CmpOp::Gt => a > b,
        CmpOp::Ge => a >= b,
        CmpOp::Lt => a < b,
        CmpOp::Le => a <= b,
    }
}

/// Evaluates a relational operator on two unsigned 64-bit integers.
pub fn cmp_u64(op: CmpOp, a: u64, b: u64) -> (r: bool)
    ensures
        r == cmp_holds(op, a as int, b as int),
{
    match op {
        CmpOp::Eq => a == b,
        CmpOp::Ne => a != b,
        CmpOp::Gt => a > b,
        CmpOp::Ge => a >= b,
        CmpOp::Lt => a < b,
        CmpOp::Le => a <= b,
    }
}

} // verus!
