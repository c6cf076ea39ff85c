//! How the answers of host-side predicates and callbacks are read.
//!
//! A host call may return a boolean, return something that is not a
//! boolean, or fail outright. The two kinds of host calls read such
//! non-answers in opposite ways, on purpose:
//! - a filter predicate that gives no usable answer rejects the candidate
//!   (fail-safe: a collider is only let through on an explicit `true`);
//! - a streaming callback that gives no usable answer continues the
//!   enumeration (fail-open: only an explicit `false` stops it, so that no
//!   remaining hit is dropped by a spurious stop).

use vstd::prelude::*;

verus! {

/// What a host-side call produced.
#[derive(Clone, Copy, Debug, PartialEq, Eq, Structural)]
pub enum HostAnswer {
    /// The call returned this boolean.
    Bool(bool),
    /// The call returned a value that is not a boolean.
    NotBool,
    /// The call itself failed.
    Fault,
}

/// A filter predicate accepts a candidate only on an explicit `true`.
pub open spec fn predicate_accepts(a: HostAnswer) -> bool {
    a == HostAnswer::Bool(true)
}

/// A streaming callback stops the enumeration only on an explicit `false`.
pub open spec fn callback_continues(a: HostAnswer) -> bool {
    a != HostAnswer::Bool(false)
}

/// Reads the answer of a filter predicate: `true` keeps the candidate.
/// Faults and non-boolean answers reject it.
pub fn predicate_verdict(a: HostAnswer) -> (r: bool)
    ensures
        r == predicate_accepts(a),
{
    match a {
        HostAnswer::Bool(b) => b,
        HostAnswer::NotBool => false,
        HostAnswer::Fault => false,
    }
}

/// Reads the answer of a streaming callback: `true` continues the
/// enumeration. Faults and non-boolean answers continue it too.
pub fn callback_verdict(a: HostAnswer) -> (r: bool)
    ensures
        r == callback_continues(a),
{
    match a {
        HostAnswer::Bool(b) => b,
        HostAnswer::NotBool => true,
        HostAnswer::Fault => true,
    }
}

/// On every answer that is not a boolean, the two policies disagree: the
/// predicate rejects and the callback continues.
pub proof fn lemma_policies_asymmetric(a: HostAnswer)
    ensures
        !(a is Bool) ==> !predicate_accepts(a) && callback_continues(a),
        a is Bool ==> predicate_accepts(a) == callback_continues(a),
{
}

} // verus!
