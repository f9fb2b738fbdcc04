//! The transfer function: what one statement or terminator does to a
//! [`TaintState`].
use crate::attr_info::{AttrInfo, CallRole};
use crate::effects::{
    any_tainted, assign_effect, call_return_effect, operand_tainted, sink_reached,
    statement_effect, terminator_finding,
};
use crate::errors::{finding_view, TaintedSink};
use crate::mir::{operands_within, Callee, Local, Operand, Rvalue, Span, Statement, Terminator};
use crate::taint_domain::{with_status, TaintState};
use vstd::prelude::*;

verus! {

/// Whether some operand of `args` reads a tainted variable of `state`.
pub fn any_tainted_operand(state: &TaintState, args: &[Operand]) -> (r: bool)
    requires
        operands_within(args@, state.domain_size() as nat),
    ensures
        r == any_tainted(state@, args@),
{
    let mut i: usize = 0;
    while i < args.len()
        invariant
            i <= args@.len(),
            operands_within(args@, state.domain_size() as nat),
            forall|j: int| 0 <= j < i ==> !operand_tainted(state@, #[trigger] args@[j]),
        decreases args@.len() - i,
    {
        assert(args@[i as int].within(state.domain_size() as nat));
        let tainted = match args[i].place() {
            Some(place) => state.is_tainted(place),
            None => false,
        };
        if tainted {
            return true;
        }
        i = i + 1;
    }
    false
}

/// Applies instructions to a state, with the roles of `info` for calls.
#[derive(Debug)]
pub struct TransferFunction<'a> {
    info: &'a AttrInfo,
}

impl<'a> TransferFunction<'a> {
    /// The roles that calls are classified by.
    pub closed spec fn roles(&self) -> Map<Seq<char>, CallRole> {
        self.info@
    }

    /// The transfer function that classifies calls by `info`.
    pub fn new(info: &'a AttrInfo) -> (f: Self)
        ensures
            f.roles() == info@,
    {
        TransferFunction { info }
    }

    /// Applies `statement` to `state`. Only an assignment has an effect.
    pub fn visit_statement(&self, state: &mut TaintState, statement: &Statement)
        requires
            statement.within(old(state).domain_size() as nat),
        ensures
            final(state).domain_size() == old(state).domain_size(),
            final(state)@ == statement_effect(old(state)@, *statement),
    {
        match statement {
            Statement::Assign(place, rvalue) => {
                self.t_visit_assign(state, *place, rvalue);
            },
            _ => (),
        }
    }

    /// Applies `terminator` to `state` and returns what it reports.
    ///
    /// No terminator changes the state: what a call does to its destination
    /// happens when the call returns, see
    /// [`t_visit_call_return`](Self::t_visit_call_return). A call of a sink
    /// with a tainted argument is reported, once.
    pub fn visit_terminator(&self, state: &mut TaintState, terminator: &Terminator) -> (finding:
        Option<TaintedSink>)
        requires
            terminator.within(old(state).domain_size() as nat),
        ensures
            final(state).domain_size() == old(state).domain_size(),
            final(state)@ == old(state)@,
            finding_view(finding) == terminator_finding(self.roles(), old(state)@, *terminator),
    {
        match terminator {
            Terminator::Goto => None,
            Terminator::SwitchInt => None,
            Terminator::Return => None,
            Terminator::Call { func, args, fn_span, .. } => {
                self.t_visit_call(state, func, args.as_slice(), fn_span)
            },
            Terminator::Assert => None,
            _ => None,
        }
    }

    /// Classifies a call by the name of `func` and returns what it reports:
    /// a finding if `func` is a sink and an argument is tainted.
    pub fn t_visit_call(&self, state: &TaintState, func: &Callee, args: &[Operand], span: &Span) -> (finding:
        Option<TaintedSink>)
        requires
            func is Function,
            operands_within(args@, state.domain_size() as nat),
        ensures
            finding_view(finding) == (if sink_reached(
                self.roles(),
                state@,
                func.name().unwrap(),
                args@,
            ) {
                Some((func.name().unwrap(), *span))
            } else {
                None
            }),
    {
        match func {
            Callee::Function(name) => {
                match self.info.lookup(name) {
                    Some(CallRole::Sink) => self.t_visit_sink(state, name.clone(), args, span),
                    _ => None,
                }
            },
            Callee::Indirect(_) => vstd::pervasive::unreached(),
        }
    }

    /// Applies to `state` what a call of `func` with `args` does once it has
    /// returned into `return_place`.
    ///
    /// A source taints `return_place` and a sanitizer clears it. A sink
    /// leaves the state as it is. A function without a role passes taint
    /// through: `return_place` is tainted if an argument is, and clear if
    /// none is.
    pub fn t_visit_call_return(
        &self,
        state: &mut TaintState,
        func: &Callee,
        args: &[Operand],
        return_place: Local,
    )
        requires
            func is Function,
            operands_within(args@, old(state).domain_size() as nat),
            return_place < old(state).domain_size(),
        ensures
            final(state).domain_size() == old(state).domain_size(),
            final(state)@ == call_return_effect(
                self.roles(),
                old(state)@,
                func.name().unwrap(),
                args@,
                return_place,
            ),
    {
        match func {
            Callee::Function(name) => {
                match self.info.lookup(name) {
                    Some(CallRole::Source) => {
                        self.t_visit_source_destination(state, Some(return_place))
                    },
                    Some(CallRole::Sanitizer) => {
                        self.t_visit_sanitizer_destination(state, Some(return_place))
                    },
                    Some(CallRole::Sink) => {},
                    None => self.t_visit_unknown_destination(state, args, Some(return_place)),
                }
            },
            Callee::Indirect(_) => vstd::pervasive::unreached(),
        }
    }

    /// Taints the destination of a call of a source, if it has one.
    pub fn t_visit_source_destination(&self, state: &mut TaintState, destination: Option<Local>)
        requires
            destination matches Some(place) ==> place < old(state).domain_size(),
        ensures
            final(state).domain_size() == old(state).domain_size(),
            final(state)@ == (match destination {
                Some(place) => old(state)@.insert(place),
                None => old(state)@,
            }),
    {
        if let Some(place) = destination {
            state.mark_tainted(place);
        }
    }

    /// Clears the destination of a call of a sanitizer, if it has one.
    pub fn t_visit_sanitizer_destination(&self, state: &mut TaintState, destination: Option<Local>)
        requires
            destination matches Some(place) ==> place < old(state).domain_size(),
        ensures
            final(state).domain_size() == old(state).domain_size(),
            final(state)@ == (match destination {
                Some(place) => old(state)@.remove(place),
                None => old(state)@,
            }),
    {
        if let Some(place) = destination {
            state.mark_untainted(place);
        }
    }

    /// Gives the destination of a call of a function without a role, if it
    /// has one, the status of the arguments: tainted if one of them is, clear
    /// if none is.
    pub fn t_visit_unknown_destination(
        &self,
        state: &mut TaintState,
        args: &[Operand],
        destination: Option<Local>,
    )
        requires
            operands_within(args@, old(state).domain_size() as nat),
            destination matches Some(place) ==> place < old(state).domain_size(),
        ensures
            final(state).domain_size() == old(state).domain_size(),
            final(state)@ == (match destination {
                Some(place) => with_status(old(state)@, place, any_tainted(old(state)@, args@)),
                None => old(state)@,
            }),
    {
        if let Some(place) = destination {
            if any_tainted_operand(state, args) {
                state.mark_tainted(place);
            } else {
                state.mark_untainted(place);
            }
        }
    }

    /// Tests the arguments of a call of the sink `name` and returns the
    /// finding if one of them is tainted.
    pub fn t_visit_sink(&self, state: &TaintState, name: String, args: &[Operand], span: &Span) -> (finding:
        Option<TaintedSink>)
        requires
            operands_within(args@, state.domain_size() as nat),
        ensures
            finding_view(finding) == (if any_tainted(state@, args@) {
                Some((name@, *span))
            } else {
                None
            }),
    {
        if any_tainted_operand(state, args) {
            Some(TaintedSink { fn_name: name, span: *span })
        } else {
            None
        }
    }

    /// Applies `place := rvalue` to `state`.
    ///
    /// A constant clears `place`. An expression of one variable gives `place`
    /// the status of that variable. An operation on two variables taints
    /// `place` if either is tainted and clears it if neither is. Every other
    /// expression leaves `place` as it was.
    pub fn t_visit_assign(&self, state: &mut TaintState, place: Local, rvalue: &Rvalue)
        requires
            place < old(state).domain_size(),
            rvalue.within(old(state).domain_size() as nat),
        ensures
            final(state).domain_size() == old(state).domain_size(),
            final(state)@ == assign_effect(old(state)@, place, *rvalue),
    {
        match rvalue {
            // If we assign a constant to a place, the place is clean.
            Rvalue::Use(Operand::Constant) | Rvalue::UnaryOp(_, Operand::Constant) => {
                state.mark_untainted(place)
            },
            // Otherwise we propagate the taint
            Rvalue::Use(Operand::Copy(f) | Operand::Move(f)) => {
                state.propagate(*f, place);
            },
            Rvalue::BinaryOp(_, a, b) | Rvalue::CheckedBinaryOp(_, a, b) => match (a, b) {
                (Operand::Constant, Operand::Constant) => {
                    state.mark_untainted(place);
                },
                (Operand::Copy(a) | Operand::Move(a), Operand::Copy(b) | Operand::Move(b)) => {
                    if state.is_tainted(*a) || state.is_tainted(*b) {
                        state.mark_tainted(place);
                    } else {
                        state.mark_untainted(place);
                    }
                },
                (Operand::Copy(p) | Operand::Move(p), Operand::Constant)
                | (Operand::Constant, Operand::Copy(p) | Operand::Move(p)) => {
                    state.propagate(*p, place);
                },
            },
            Rvalue::UnaryOp(_, Operand::Move(p) | Operand::Copy(p)) => {
                state.propagate(*p, place);
            },
            Rvalue::Repeat => {},
            Rvalue::Ref => {},
            Rvalue::ThreadLocalRef => {},
            Rvalue::AddressOf => {},
            Rvalue::Len => {},
            Rvalue::Cast => {},
            Rvalue::NullaryOp => {},
            Rvalue::Discriminant => {},
            Rvalue::Aggregate => {},
        }
    }
}

} // verus!
