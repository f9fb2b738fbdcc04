//! What each instruction does to the set of tainted variables, as
//! mathematical functions on that set.
use crate::attr_info::{role_of, CallRole};
use crate::mir::{Callee, Local, Operand, Rvalue, Span, Statement, Terminator};
use crate::taint_domain::with_status;
use vstd::prelude::*;

verus! {

/// Whether `operand` reads a variable of `tainted`. A constant is never
/// tainted; copying and moving read the same status.
pub open spec fn operand_tainted(tainted: Set<Local>, operand: Operand) -> bool {
    match operand.local() {
        Some(l) => tainted.contains(l),
        None => false,
    }
}

/// Whether some operand of `args` reads a variable of `tainted`.
pub open spec fn any_tainted(tainted: Set<Local>, args: Seq<Operand>) -> bool {
    exists|i: int| 0 <= i < args.len() && operand_tainted(tainted, #[trigger] args[i])
}

/// The status that `rvalue` gives to the variable it is assigned to: tainted
/// if one of its operands is. `None` for the expressions that have no rule,
/// which leave the variable as it was.
pub open spec fn rvalue_taint(tainted: Set<Local>, rvalue: Rvalue) -> Option<bool> {
    match rvalue {
        Rvalue::Use(a) | Rvalue::UnaryOp(_, a) => Some(operand_tainted(tainted, a)),
        Rvalue::BinaryOp(_, a, b) | Rvalue::CheckedBinaryOp(_, a, b) => Some(
            operand_tainted(tainted, a) || operand_tainted(tainted, b),
        ),
        _ => None,
    }
}

/// The tainted variables after `place := rvalue`. The assignment overwrites
/// the status of `place`; it does not add to it.
pub open spec fn assign_effect(tainted: Set<Local>, place: Local, rvalue: Rvalue) -> Set<Local> {
    match rvalue_taint(tainted, rvalue) {
        Some(status) => with_status(tainted, place, status),
        None => tainted,
    }
}

/// The tainted variables after `statement`.
pub open spec fn statement_effect(tainted: Set<Local>, statement: Statement) -> Set<Local> {
    match statement {
        Statement::Assign(place, rvalue) => assign_effect(tainted, place, rvalue),
        Statement::Other => tainted,
    }
}

/// Whether a call of the function `name` with `args` is reported: the
/// function is a sink and an argument is tainted.
pub open spec fn sink_reached(
    roles: Map<Seq<char>, CallRole>,
    tainted: Set<Local>,
    name: Seq<char>,
    args: Seq<Operand>,
) -> bool {
    role_of(roles, name) == Some(CallRole::Sink) && any_tainted(tainted, args)
}

/// What `terminator` reports: the name of the function and the place of the
/// call, where it calls a sink with a tainted argument. Nothing for any other
/// terminator.
pub open spec fn terminator_finding(
    roles: Map<Seq<char>, CallRole>,
    tainted: Set<Local>,
    terminator: Terminator,
) -> Option<(Seq<char>, Span)> {
    match terminator {
        Terminator::Call { func: Callee::Function(name), args, fn_span, .. } => {
            if sink_reached(roles, tainted, name@, args@) {
                Some((name@, fn_span))
            } else {
                None
            }
        },
        _ => None,
    }
}

/// The tainted variables once a call of the function `name` with `args` has
/// returned into `place`.
///
/// A source taints `place` and a sanitizer clears it. A sink leaves the set as
/// it is. A function without a role passes taint through: `place` is tainted
/// if an argument is, and clear if none is.
pub open spec fn call_return_effect(
    roles: Map<Seq<char>, CallRole>,
    tainted: Set<Local>,
    name: Seq<char>,
    args: Seq<Operand>,
    place: Local,
) -> Set<Local> {
    match role_of(roles, name) {
        Some(CallRole::Source) => tainted.insert(place),
        Some(CallRole::Sanitizer) => tainted.remove(place),
        Some(CallRole::Sink) => tainted,
        None => with_status(tainted, place, any_tainted(tainted, args)),
    }
}

} // verus!
