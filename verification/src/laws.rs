//! What holds of the analysis on every input, proved from the effects that
//! the transfer function is specified by.
use crate::attr_info::{role_of, CallRole};
use crate::effects::{
    any_tainted, assign_effect, call_return_effect, operand_tainted, terminator_finding,
};
use crate::mir::{BinOp, Callee, Local, Operand, Rvalue, Terminator};
use vstd::prelude::*;

verus! {

/// Assigning an expression that is computed from constants alone leaves the
/// variable assigned untainted, whatever it was before, and changes no other
/// variable.
pub proof fn constant_assignment_clears(tainted: Set<Local>, place: Local, rvalue: Rvalue)
    requires
        rvalue.of_constants(),
    ensures
        !assign_effect(tainted, place, rvalue).contains(place),
        assign_effect(tainted, place, rvalue) == tainted.remove(place),
{
}

/// Copying a variable and moving it have the same effect, and assigning a
/// tainted variable either way taints the variable assigned.
pub proof fn copy_and_move_agree(tainted: Set<Local>, src: Local, place: Local)
    ensures
        operand_tainted(tainted, Operand::Copy(src)) == operand_tainted(tainted, Operand::Move(src)),
        assign_effect(tainted, place, Rvalue::Use(Operand::Copy(src))) == assign_effect(
            tainted,
            place,
            Rvalue::Use(Operand::Move(src)),
        ),
        tainted.contains(src) ==> assign_effect(
            tainted,
            place,
            Rvalue::Use(Operand::Copy(src)),
        ).contains(place),
        tainted.contains(src) ==> assign_effect(
            tainted,
            place,
            Rvalue::Use(Operand::Move(src)),
        ).contains(place),
{
}

/// Taint does not outlive an overwrite: a tainted variable that is assigned
/// an expression computed from constants alone is untainted afterwards.
pub proof fn reassignment_kills(tainted: Set<Local>, place: Local, rvalue: Rvalue)
    requires
        tainted.contains(place),
        rvalue.of_constants(),
    ensures
        !assign_effect(tainted, place, rvalue).contains(place),
{
}

/// After a binary operation on two variables, checked or not, the variable
/// assigned is tainted exactly if one of the two was.
pub proof fn binary_op_unions(tainted: Set<Local>, place: Local, op: BinOp, a: Operand, b: Operand)
    requires
        a.local() is Some,
        b.local() is Some,
    ensures
        assign_effect(tainted, place, Rvalue::BinaryOp(op, a, b)).contains(place) == (
        tainted.contains(a.local().unwrap()) || tainted.contains(b.local().unwrap())),
        assign_effect(tainted, place, Rvalue::CheckedBinaryOp(op, a, b)).contains(place) == (
        tainted.contains(a.local().unwrap()) || tainted.contains(b.local().unwrap())),
{
}

/// An assignment changes the status of no variable but the one assigned.
pub proof fn assignment_is_local(tainted: Set<Local>, place: Local, rvalue: Rvalue, other: Local)
    requires
        other != place,
    ensures
        assign_effect(tainted, place, rvalue).contains(other) == tainted.contains(other),
{
}

/// A variable that is tainted on exactly one of two paths into a block is
/// tainted in the state that the two merge into.
pub proof fn join_keeps_taint(left: Set<Local>, right: Set<Local>, v: Local)
    requires
        left.contains(v) != right.contains(v),
    ensures
        left.union(right).contains(v),
{
}

/// Merging is a least upper bound: it holds both states, adds no variable
/// that neither held, and neither the order nor a repetition matters.
pub proof fn join_is_union(left: Set<Local>, right: Set<Local>)
    ensures
        left.subset_of(left.union(right)),
        right.subset_of(left.union(right)),
        forall|v: Local| left.union(right).contains(v) ==> left.contains(v) || right.contains(v),
        left.union(right) == right.union(left),
        left.union(left) == left,
{
    assert(left.union(right) =~= right.union(left));
    assert(left.union(left) =~= left);
}

/// A merge that changes a state makes it larger. A state holds no more
/// variables than its body has, so along any path of merges a state changes
/// at most that many times.
pub proof fn changing_join_grows(left: Set<Local>, right: Set<Local>)
    requires
        left.finite(),
        right.finite(),
        left.union(right) != left,
    ensures
        left.len() < left.union(right).len(),
{
    let merged = left.union(right);
    assert(!(merged =~= left));
    let v = choose|v: Local| merged.contains(v) != left.contains(v);
    assert(merged.contains(v) && !left.contains(v));
    vstd::set_lib::lemma_set_union_finite_iff(left, right);
    left.lemma_subset_not_in_lt(merged, v);
}

/// A call of a sink is reported exactly if one of its arguments is tainted,
/// and the finding names the sink and the place of the call.
pub proof fn sink_call_reported(
    roles: Map<Seq<char>, CallRole>,
    tainted: Set<Local>,
    terminator: Terminator,
)
    requires
        terminator matches Terminator::Call { func: Callee::Function(name), .. } && role_of(
            roles,
            name@,
        ) == Some(CallRole::Sink),
    ensures
        terminator_finding(roles, tainted, terminator) is Some <==> any_tainted(
            tainted,
            terminator->args@,
        ),
        terminator_finding(roles, tainted, terminator) matches Some(finding) ==> finding == (
            terminator->func.name().unwrap(),
            terminator->fn_span,
        ),
{
}

/// A call whose arguments are all constants or untainted variables is never
/// reported, whatever it calls.
pub proof fn clean_arguments_are_silent(
    roles: Map<Seq<char>, CallRole>,
    tainted: Set<Local>,
    terminator: Terminator,
)
    requires
        terminator matches Terminator::Call { args, .. } ==> forall|i: int|
            0 <= i < args@.len() ==> !operand_tainted(tainted, #[trigger] args@[i]),
    ensures
        terminator_finding(roles, tainted, terminator) is None,
{
}

/// Only a call of a sink is reported.
pub proof fn only_sinks_are_reported(
    roles: Map<Seq<char>, CallRole>,
    tainted: Set<Local>,
    terminator: Terminator,
)
    requires
        terminator_finding(roles, tainted, terminator) is Some,
    ensures
        terminator matches Terminator::Call { func: Callee::Function(name), .. } && role_of(
            roles,
            name@,
        ) == Some(CallRole::Sink),
{
}

/// The destination of a call of a sanitizer is untainted once the call has
/// returned, even if every argument is tainted.
pub proof fn sanitizer_clears(
    roles: Map<Seq<char>, CallRole>,
    tainted: Set<Local>,
    name: Seq<char>,
    args: Seq<Operand>,
    place: Local,
)
    requires
        role_of(roles, name) == Some(CallRole::Sanitizer),
    ensures
        !call_return_effect(roles, tainted, name, args, place).contains(place),
{
}

/// The destination of a call of a source is tainted once the call has
/// returned, even if the call has no arguments.
pub proof fn source_taints(
    roles: Map<Seq<char>, CallRole>,
    tainted: Set<Local>,
    name: Seq<char>,
    args: Seq<Operand>,
    place: Local,
)
    requires
        role_of(roles, name) == Some(CallRole::Source),
    ensures
        call_return_effect(roles, tainted, name, args, place).contains(place),
{
}

/// The destination of a call of a function without a role is tainted once
/// the call has returned exactly if an argument of the call was tainted.
pub proof fn unknown_callee_passes_through(
    roles: Map<Seq<char>, CallRole>,
    tainted: Set<Local>,
    name: Seq<char>,
    args: Seq<Operand>,
    place: Local,
)
    requires
        role_of(roles, name) is None,
    ensures
        call_return_effect(roles, tainted, name, args, place).contains(place) == any_tainted(
            tainted,
            args,
        ),
{
}

/// A call changes the status of no variable but its destination.
pub proof fn call_return_is_local(
    roles: Map<Seq<char>, CallRole>,
    tainted: Set<Local>,
    name: Seq<char>,
    args: Seq<Operand>,
    place: Local,
    other: Local,
)
    requires
        other != place,
    ensures
        call_return_effect(roles, tainted, name, args, place).contains(other) == tainted.contains(
            other,
        ),
{
}

} // verus!
