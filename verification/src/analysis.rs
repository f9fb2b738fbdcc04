//! The analysis as a fixed-point engine sees it: the value to start from and
//! the effect of each instruction. The engine merges states with
//! [`TaintState::join`](crate::taint_domain::TaintState::join) and walks the
//! blocks forward.
use crate::attr_info::{AttrInfo, CallRole};
use crate::effects::{call_return_effect, statement_effect, terminator_finding};
use crate::errors::{finding_view, TaintedSink};
use crate::mir::{operands_within, BasicBlock, Callee, Local, Operand, Statement, Terminator};
use crate::taint_domain::TaintState;
use crate::transfer::TransferFunction;
use vstd::prelude::*;

verus! {

/// A dataflow analysis that tracks whether a value may carry a taint.
///
/// Taints are introduced through sources, and consumed by sinks.
/// Ideally, a sink never consumes a tainted value - this results in a finding.
#[derive(Debug)]
pub struct TaintAnalysis<'v> {
    info: &'v AttrInfo,
}

impl<'v> TaintAnalysis<'v> {
    /// The roles that calls are classified by.
    pub closed spec fn roles(&self) -> Map<Seq<char>, CallRole> {
        self.info@
    }

    /// The analysis that classifies calls by `info`.
    pub fn new(info: &'v AttrInfo) -> (analysis: Self)
        ensures
            analysis.roles() == info@,
    {
        TaintAnalysis { info }
    }

    /// The least state of a body with `local_count` variables: none of them
    /// is tainted.
    pub fn bottom_value(&self, local_count: usize) -> (state: TaintState)
        ensures
            state.domain_size() == local_count,
            state@ == Set::<Local>::empty(),
    {
        // bottom = untainted
        TaintState::new_empty(local_count)
    }

    /// Prepares the state at the entry of the body, which is the bottom
    /// value as it stands: variables start out untainted.
    pub fn initialize_start_block(&self, state: &mut TaintState)
        ensures
            final(state).domain_size() == old(state).domain_size(),
            final(state)@ == old(state)@,
    {
        // Locals start out being untainted
    }

    /// Applies `statement` to `state`.
    pub fn apply_statement_effect(&self, state: &mut TaintState, statement: &Statement)
        requires
            statement.within(old(state).domain_size() as nat),
        ensures
            final(state).domain_size() == old(state).domain_size(),
            final(state)@ == statement_effect(old(state)@, *statement),
    {
        self.transfer_function().visit_statement(state, statement);
    }

    /// Applies `terminator` to `state`, which it leaves as it is, and returns
    /// the finding if the terminator calls a sink with a tainted argument.
    pub fn apply_terminator_effect(&self, state: &mut TaintState, terminator: &Terminator) -> (finding:
        Option<TaintedSink>)
        requires
            terminator.within(old(state).domain_size() as nat),
        ensures
            final(state).domain_size() == old(state).domain_size(),
            final(state)@ == old(state)@,
            finding_view(finding) == terminator_finding(self.roles(), old(state)@, *terminator),
    {
        self.transfer_function().visit_terminator(state, terminator)
    }

    /// Applies to `state` what the call of `func` with `args` does once it
    /// has returned into `return_place`. The block that the call ends makes
    /// no difference.
    pub fn apply_call_return_effect(
        &self,
        state: &mut TaintState,
        _block: BasicBlock,
        func: &Callee,
        args: &[Operand],
        return_place: Local,
    )
        requires
            func is Function,
            operands_within(args@, old(state).domain_size() as nat),
            return_place < old(state).domain_size(),
        ensures
            final(state).domain_size() == old(state).domain_size(),
            final(state)@ == call_return_effect(
                self.roles(),
                old(state)@,
                func.name().unwrap(),
                args@,
                return_place,
            ),
    {
        self.transfer_function().t_visit_call_return(state, func, args, return_place);
    }

    /// The transfer function of this analysis.
    pub fn transfer_function(&self) -> (f: TransferFunction<'v>)
        ensures
            f.roles() == self.roles(),
    {
        TransferFunction::new(self.info)
    }
}

} // verus!
