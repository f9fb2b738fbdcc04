use taint_analysis::attr_info::{AttrInfo, CallRole};
use taint_analysis::mir::{operands_fit, Callee, Operand, Rvalue, Span, Statement, Terminator};
use taint_analysis::mir::{BinOp, UnOp};
use taint_analysis::taint_domain::TaintState;

fn tainted_of(state: &TaintState) -> Vec<usize> {
    (0..state.domain_size()).filter(|v| state.is_tainted(*v)).collect()
}

#[test]
fn new_state_is_empty() {
    let state = TaintState::new_empty(5);
    assert_eq!(state.domain_size(), 5);
    assert_eq!(tainted_of(&state), Vec::<usize>::new());
}

#[test]
fn state_for_no_variables() {
    let mut state = TaintState::new_empty(0);
    assert_eq!(state.domain_size(), 0);
    let other = TaintState::new_empty(0);
    assert!(!state.join(&other));
    assert_eq!(state.domain_size(), 0);
}

#[test]
fn mark_tainted_adds_one_variable() {
    let mut state = TaintState::new_empty(4);
    state.mark_tainted(2);
    assert!(state.is_tainted(2));
    assert_eq!(tainted_of(&state), vec![2]);
    state.mark_tainted(2);
    assert_eq!(tainted_of(&state), vec![2]);
    state.mark_tainted(0);
    state.mark_tainted(3);
    assert_eq!(tainted_of(&state), vec![0, 2, 3]);
    assert_eq!(state.domain_size(), 4);
}

#[test]
fn mark_untainted_removes_one_variable() {
    let mut state = TaintState::new_empty(4);
    state.mark_tainted(1);
    state.mark_tainted(3);
    state.mark_untainted(1);
    assert!(!state.is_tainted(1));
    assert_eq!(tainted_of(&state), vec![3]);
    state.mark_untainted(1);
    state.mark_untainted(0);
    assert_eq!(tainted_of(&state), vec![3]);
    assert_eq!(state.domain_size(), 4);
}

#[test]
fn propagate_copies_taint() {
    let mut state = TaintState::new_empty(3);
    state.mark_tainted(0);
    state.propagate(0, 2);
    assert_eq!(tainted_of(&state), vec![0, 2]);
}

#[test]
fn propagate_copies_absence_of_taint() {
    let mut state = TaintState::new_empty(3);
    state.mark_tainted(2);
    state.propagate(1, 2);
    assert_eq!(tainted_of(&state), Vec::<usize>::new());
}

#[test]
fn propagate_does_not_union() {
    // dst is tainted, src is not: the status of dst is overwritten.
    let mut state = TaintState::new_empty(2);
    state.mark_tainted(1);
    state.propagate(0, 1);
    assert!(!state.is_tainted(1));
    assert!(!state.is_tainted(0));
}

#[test]
fn propagate_onto_itself_changes_nothing() {
    let mut state = TaintState::new_empty(3);
    state.mark_tainted(1);
    state.propagate(1, 1);
    state.propagate(0, 0);
    assert_eq!(tainted_of(&state), vec![1]);
}

#[test]
fn join_is_union() {
    let mut left = TaintState::new_empty(6);
    left.mark_tainted(0);
    left.mark_tainted(3);
    let mut right = TaintState::new_empty(6);
    right.mark_tainted(3);
    right.mark_tainted(5);
    let changed = left.join(&right);
    assert!(changed);
    assert_eq!(tainted_of(&left), vec![0, 3, 5]);
    assert_eq!(tainted_of(&right), vec![3, 5]);
    assert_eq!(left.domain_size(), 6);
}

#[test]
fn join_reports_no_change_when_nothing_is_added() {
    let mut left = TaintState::new_empty(4);
    left.mark_tainted(1);
    left.mark_tainted(2);
    let mut right = TaintState::new_empty(4);
    right.mark_tainted(2);
    assert!(!left.join(&right));
    assert_eq!(tainted_of(&left), vec![1, 2]);
    let empty = TaintState::new_empty(4);
    assert!(!left.join(&empty));
    assert_eq!(tainted_of(&left), vec![1, 2]);
}

#[test]
fn join_with_itself_is_idempotent() {
    let mut state = TaintState::new_empty(4);
    state.mark_tainted(3);
    let copy = state.duplicate();
    assert!(!state.join(&copy));
    assert_eq!(tainted_of(&state), vec![3]);
}

#[test]
fn join_into_empty_takes_the_other() {
    let mut state = TaintState::new_empty(3);
    let mut other = TaintState::new_empty(3);
    other.mark_tainted(0);
    other.mark_tainted(2);
    assert!(state.join(&other));
    assert_eq!(tainted_of(&state), vec![0, 2]);
}

#[test]
fn join_keeps_a_variable_tainted_on_one_path_only() {
    let mut through_source = TaintState::new_empty(2);
    through_source.mark_tainted(1);
    let around_source = TaintState::new_empty(2);
    let mut merged = around_source.duplicate();
    assert!(merged.join(&through_source));
    assert!(merged.is_tainted(1));
    let mut merged_the_other_way = through_source.duplicate();
    assert!(!merged_the_other_way.join(&around_source));
    assert!(merged_the_other_way.is_tainted(1));
}

#[test]
fn join_is_commutative() {
    let mut a = TaintState::new_empty(5);
    a.mark_tainted(0);
    a.mark_tainted(4);
    let mut b = TaintState::new_empty(5);
    b.mark_tainted(2);
    let mut ab = a.duplicate();
    ab.join(&b);
    let mut ba = b.duplicate();
    ba.join(&a);
    assert_eq!(tainted_of(&ab), tainted_of(&ba));
    assert_eq!(tainted_of(&ab), vec![0, 2, 4]);
}

#[test]
fn duplicate_is_independent() {
    let mut state = TaintState::new_empty(3);
    state.mark_tainted(1);
    let mut copy = state.duplicate();
    assert_eq!(copy.domain_size(), 3);
    assert_eq!(tainted_of(&copy), vec![1]);
    copy.mark_tainted(2);
    copy.mark_untainted(1);
    assert_eq!(tainted_of(&state), vec![1]);
    assert_eq!(tainted_of(&copy), vec![2]);
}

#[test]
fn lookup_in_empty_catalog() {
    let info = AttrInfo::new();
    assert_eq!(info.lookup(&"read_input".to_string()), None);
    assert_eq!(info.lookup(&String::new()), None);
}

#[test]
fn lookup_finds_each_role() {
    let mut info = AttrInfo::new();
    info.insert("read_input".to_string(), CallRole::Source);
    info.insert("run_query".to_string(), CallRole::Sink);
    info.insert("escape".to_string(), CallRole::Sanitizer);
    assert_eq!(info.lookup(&"read_input".to_string()), Some(CallRole::Source));
    assert_eq!(info.lookup(&"run_query".to_string()), Some(CallRole::Sink));
    assert_eq!(info.lookup(&"escape".to_string()), Some(CallRole::Sanitizer));
    assert_eq!(info.lookup(&"print".to_string()), None);
}

#[test]
fn lookup_matches_the_whole_name() {
    let mut info = AttrInfo::new();
    info.insert("sink".to_string(), CallRole::Sink);
    assert_eq!(info.lookup(&"sin".to_string()), None);
    assert_eq!(info.lookup(&"sinks".to_string()), None);
    assert_eq!(info.lookup(&"Sink".to_string()), None);
    assert_eq!(info.lookup(&"".to_string()), None);
}

#[test]
fn later_insert_replaces_role() {
    let mut info = AttrInfo::new();
    info.insert("f".to_string(), CallRole::Source);
    info.insert("g".to_string(), CallRole::Sink);
    info.insert("f".to_string(), CallRole::Sanitizer);
    assert_eq!(info.lookup(&"f".to_string()), Some(CallRole::Sanitizer));
    assert_eq!(info.lookup(&"g".to_string()), Some(CallRole::Sink));
}

#[test]
fn operand_place_and_fits() {
    assert_eq!(Operand::Copy(3).place(), Some(3));
    assert_eq!(Operand::Move(0).place(), Some(0));
    assert_eq!(Operand::Constant.place(), None);
    assert!(Operand::Copy(3).fits(4));
    assert!(!Operand::Copy(4).fits(4));
    assert!(!Operand::Move(0).fits(0));
    assert!(Operand::Constant.fits(0));
}

#[test]
fn operands_fit_tests_every_operand() {
    assert!(operands_fit(&[], 0));
    assert!(operands_fit(&[Operand::Constant, Operand::Copy(1), Operand::Move(0)], 2));
    assert!(!operands_fit(&[Operand::Constant, Operand::Copy(1), Operand::Move(2)], 2));
    assert!(!operands_fit(&[Operand::Copy(7), Operand::Constant], 2));
}

#[test]
fn rvalue_fits_tests_every_operand() {
    assert!(Rvalue::Use(Operand::Copy(1)).fits(2));
    assert!(!Rvalue::Use(Operand::Copy(2)).fits(2));
    assert!(!Rvalue::UnaryOp(UnOp::Neg, Operand::Move(5)).fits(5));
    assert!(Rvalue::BinaryOp(BinOp::Add, Operand::Copy(0), Operand::Move(1)).fits(2));
    assert!(!Rvalue::BinaryOp(BinOp::Add, Operand::Copy(0), Operand::Move(2)).fits(2));
    assert!(!Rvalue::CheckedBinaryOp(BinOp::Mul, Operand::Copy(2), Operand::Constant).fits(2));
    assert!(Rvalue::Aggregate.fits(0));
    assert!(Rvalue::Cast.fits(0));
}

#[test]
fn statement_fits_tests_place_and_rvalue() {
    assert!(Statement::Other.fits(0));
    assert!(Statement::Assign(1, Rvalue::Use(Operand::Constant)).fits(2));
    assert!(!Statement::Assign(2, Rvalue::Use(Operand::Constant)).fits(2));
    assert!(!Statement::Assign(0, Rvalue::Use(Operand::Copy(2))).fits(2));
}

#[test]
fn terminator_fits_tests_callee_arguments_and_destination() {
    let span = Span { lo: 0, hi: 1 };
    assert!(Terminator::Goto.fits(0));
    assert!(Terminator::SwitchInt.fits(0));
    assert!(Terminator::Return.fits(0));
    assert!(Terminator::Assert.fits(0));
    assert!(Terminator::Other.fits(0));
    let call = |func: Callee, args: Vec<Operand>, destination: Option<(usize, usize)>| {
        Terminator::Call { func, args, destination, fn_span: span }
    };
    let f = || Callee::Function("f".to_string());
    assert!(call(f(), vec![], None).fits(0));
    assert!(call(f(), vec![Operand::Copy(1)], Some((0, 9))).fits(2));
    assert!(!call(f(), vec![Operand::Copy(2)], Some((0, 9))).fits(2));
    assert!(!call(f(), vec![Operand::Copy(1)], Some((2, 0))).fits(2));
    assert!(!call(Callee::Indirect(0), vec![], None).fits(2));
}
