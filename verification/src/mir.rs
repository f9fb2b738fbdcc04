//! The shapes of a function body that taint tracking reads.
//!
//! Only what decides taint is kept: which variable an operand reads, which
//! variable an assignment writes, and the callee, arguments and destination of
//! a call.
use vstd::prelude::*;

verus! {

/// A local variable of a function body, by its index in the body's list of
/// variables.
pub type Local = usize;

/// A basic block of a function body, by its index.
pub type BasicBlock = usize;

/// A region of source text, as a half-open range of byte positions.
#[derive(Clone, Copy, Debug, PartialEq, Eq, Structural)]
pub struct Span {
    pub lo: u32,
    pub hi: u32,
}

/// A value read by an expression or passed to a call.
#[derive(Clone, Copy, Debug, PartialEq, Eq, Structural)]
pub enum Operand {
    /// Reads a variable and leaves it usable.
    Copy(Local),
    /// Reads a variable and consumes it.
    Move(Local),
    /// A literal.
    Constant,
}

/// A unary operator.
#[derive(Clone, Copy, Debug, PartialEq, Eq, Structural)]
pub enum UnOp {
    Not,
    Neg,
}

/// A binary operator.
#[derive(Clone, Copy, Debug, PartialEq, Eq, Structural)]
pub enum BinOp {
    Add,
    Sub,
    Mul,
    Div,
    Rem,
    BitXor,
    BitAnd,
    BitOr,
    Shl,
    Shr,
    Eq,
    Lt,
    Le,
    Ne,
    Ge,
    Gt,
    Offset,
}

/// The right-hand side of an assignment.
#[derive(Clone, Copy, Debug, PartialEq, Eq, Structural)]
pub enum Rvalue {
    /// The operand itself.
    Use(Operand),
    /// `[x; n]`
    Repeat,
    /// `&x` or `&mut x`
    Ref,
    /// The address of a thread-local static.
    ThreadLocalRef,
    /// `&raw const x` or `&raw mut x`
    AddressOf,
    /// The length of an array or a slice.
    Len,
    /// `x as T`
    Cast,
    /// A binary operation on two operands.
    BinaryOp(BinOp, Operand, Operand),
    /// A binary operation that also yields whether it overflowed.
    CheckedBinaryOp(BinOp, Operand, Operand),
    /// An operation without operands, such as `size_of`.
    NullaryOp,
    /// A unary operation on one operand.
    UnaryOp(UnOp, Operand),
    /// The discriminant of an enum value.
    Discriminant,
    /// A tuple, struct, enum, array or closure built from its parts.
    Aggregate,
}

/// One statement of a basic block.
#[derive(Clone, Copy, Debug, PartialEq, Eq, Structural)]
pub enum Statement {
    /// `place := rvalue`
    Assign(Local, Rvalue),
    /// Any statement that assigns nothing.
    Other,
}

/// What a call terminator calls.
#[derive(Debug, PartialEq, Eq)]
pub enum Callee {
    /// A function known by name.
    Function(String),
    /// A value computed at run time, which names no function.
    Indirect(Local),
}

/// The last instruction of a basic block.
#[derive(Debug, PartialEq, Eq)]
pub enum Terminator {
    Goto,
    SwitchInt,
    Return,
    Assert,
    /// A call of `func` with `args`. With a destination, the result is written
    /// to the variable and control continues in the block; without one, the
    /// call does not return.
    Call { func: Callee, args: Vec<Operand>, destination: Option<(Local, BasicBlock)>, fn_span: Span },
    /// Any other transfer of control.
    Other,
}

impl Operand {
    /// The variable that the operand reads, if it reads one.
    pub open spec fn local(self) -> Option<Local> {
        match self {
            Operand::Copy(l) | Operand::Move(l) => Some(l),
            Operand::Constant => None,
        }
    }

    /// Whether the operand reads no variable at or above `domain_size`.
    pub open spec fn within(self, domain_size: nat) -> bool {
        self.local() matches Some(l) ==> l < domain_size
    }

    /// The variable that the operand reads, if it reads one.
    pub fn place(&self) -> (r: Option<Local>)
        ensures
            r == self.local(),
    {
        match self {
            Operand::Copy(l) | Operand::Move(l) => Some(*l),
            Operand::Constant => None,
        }
    }

    /// Tests that the operand reads no variable at or above `domain_size`.
    pub fn fits(&self, domain_size: usize) -> (r: bool)
        ensures
            r == self.within(domain_size as nat),
    {
        match self {
            Operand::Copy(l) | Operand::Move(l) => *l < domain_size,
            Operand::Constant => true,
        }
    }
}

/// Whether no operand of `args` reads a variable at or above `domain_size`.
pub open spec fn operands_within(args: Seq<Operand>, domain_size: nat) -> bool {
    forall|i: int| 0 <= i < args.len() ==> (#[trigger] args[i]).within(domain_size)
}

/// Tests that no operand of `args` reads a variable at or above `domain_size`.
pub fn operands_fit(args: &[Operand], domain_size: usize) -> (r: bool)
    ensures
        r == operands_within(args@, domain_size as nat),
{
    let mut i: usize = 0;
    while i < args.len()
        invariant
            i <= args@.len(),
            forall|j: int| 0 <= j < i ==> (#[trigger] args@[j]).within(domain_size as nat),
        decreases args@.len() - i,
    {
        if !args[i].fits(domain_size) {
            return false;
        }
        i = i + 1;
    }
    true
}

impl Rvalue {
    /// Whether the expression is computed from constants alone: an operand
    /// that is a constant, or an operation whose operands all are.
    pub open spec fn of_constants(self) -> bool {
        match self {
            Rvalue::Use(a) | Rvalue::UnaryOp(_, a) => a is Constant,
            Rvalue::BinaryOp(_, a, b) | Rvalue::CheckedBinaryOp(_, a, b) => {
                a is Constant && b is Constant
            },
            _ => false,
        }
    }

    /// Whether the expression reads no variable at or above `domain_size`.
    pub open spec fn within(self, domain_size: nat) -> bool {
        match self {
            Rvalue::Use(a) | Rvalue::UnaryOp(_, a) => a.within(domain_size),
            Rvalue::BinaryOp(_, a, b) | Rvalue::CheckedBinaryOp(_, a, b) => {
                a.within(domain_size) && b.within(domain_size)
            },
            _ => true,
        }
    }

    /// Tests that the expression reads no variable at or above `domain_size`.
    pub fn fits(&self, domain_size: usize) -> (r: bool)
        ensures
            r == self.within(domain_size as nat),
    {
        match self {
            Rvalue::Use(a) | Rvalue::UnaryOp(_, a) => a.fits(domain_size),
            Rvalue::BinaryOp(_, a, b) | Rvalue::CheckedBinaryOp(_, a, b) => {
                a.fits(domain_size) && b.fits(domain_size)
            },
            _ => true,
        }
    }
}

impl Statement {
    /// Whether the statement names no variable at or above `domain_size`.
    pub open spec fn within(self, domain_size: nat) -> bool {
        match self {
            Statement::Assign(place, rvalue) => place < domain_size && rvalue.within(domain_size),
            Statement::Other => true,
        }
    }

    /// Tests that the statement names no variable at or above `domain_size`.
    pub fn fits(&self, domain_size: usize) -> (r: bool)
        ensures
            r == self.within(domain_size as nat),
    {
        match self {
            Statement::Assign(place, rvalue) => *place < domain_size && rvalue.fits(domain_size),
            Statement::Other => true,
        }
    }
}

impl Callee {
    /// The name of the function called, if the callee names one.
    pub open spec fn name(self) -> Option<Seq<char>> {
        match self {
            Callee::Function(name) => Some(name@),
            Callee::Indirect(_) => None,
        }
    }
}

impl Terminator {
    /// Whether the terminator can be analysed against `domain_size` variables:
    /// a call names its function, and neither its arguments nor its
    /// destination name a variable at or above `domain_size`.
    pub open spec fn within(self, domain_size: nat) -> bool {
        match self {
            Terminator::Call { func, args, destination, .. } => {
                &&& func is Function
                &&& operands_within(args@, domain_size)
                &&& destination matches Some(d) ==> d.0 < domain_size
            },
            _ => true,
        }
    }

    /// Tests that the terminator can be analysed against `domain_size`
    /// variables.
    pub fn fits(&self, domain_size: usize) -> (r: bool)
        ensures
            r == self.within(domain_size as nat),
    {
        match self {
            Terminator::Call { func, args, destination, .. } => {
                let named = match func {
                    Callee::Function(_) => true,
                    Callee::Indirect(_) => false,
                };
                let placed = match destination {
                    Some(d) => d.0 < domain_size,
                    None => true,
                };
                named && placed && operands_fit(args.as_slice(), domain_size)
            },
            _ => true,
        }
    }
}

} // verus!
