//! The resolved program representation: every operation and type is drawn
//! from a closed vocabulary, so downstream consumers never re-validate names.

use vstd::prelude::*;

verus! {

/// A source position: the row and column a diagnosable element came from.
/// Positions are populated by the upstream parser only when position
/// tracking is enabled.
#[derive(Clone, Copy, Debug, PartialEq, Eq, Structural)]
pub struct Position {
    pub row: u64,
    pub col: u64,
}

/// A literal constant value.  The conversion passes literals through
/// unvalidated.
#[derive(Clone, Copy, Debug, PartialEq, Eq, Structural)]
pub enum Literal {
    Int(i64),
    Bool(bool),
}

/// A resolved type: a closed, recursive vocabulary.  `Float` is recognized
/// by the resolver only under the float extension, and `Pointer` only under
/// the memory extension.
#[derive(Debug, PartialEq, Eq)]
pub enum Type {
    Int,
    Bool,
    Float,
    Pointer(Box<Type>),
}

/// A resolved value-producing operation tag.  The tags past `Sub` are
/// recognized by the resolver only when their extension is enabled.
#[derive(Clone, Copy, Debug, PartialEq, Eq, Structural)]
pub enum ValueOps {
    Add,
    Mul,
    Div,
    Eq,
    Lt,
    Gt,
    Le,
    Ge,
    Not,
    And,
    Or,
    Call,
    Id,
    Sub,
    /// Recognized under the ssa extension.
    Phi,
    /// Recognized under the float extension.
    Fadd,
    Fsub,
    Fmul,
    Fdiv,
    Feq,
    Flt,
    Fgt,
    Fle,
    Fge,
    /// Recognized under the memory extension.
    Alloc,
    Load,
    PtrAdd,
}

/// A resolved effect-producing operation tag.  The tags past `Nop` are
/// recognized by the resolver only when their extension is enabled.
#[derive(Clone, Copy, Debug, PartialEq, Eq, Structural)]
pub enum EffectOps {
    Jump,
    Branch,
    Call,
    Return,
    Print,
    Nop,
    /// Recognized under the memory extension.
    Store,
    Free,
    /// Recognized under the speculation extension.
    Speculate,
    Commit,
    Guard,
}

/// A resolved typed parameter declaration.
#[derive(Debug, PartialEq, Eq)]
pub struct Argument {
    pub name: String,
    pub arg_type: Type,
}

/// A resolved instruction.  Only the operation tag and the type have been
/// validated; argument names, called-function names and label names pass
/// through unchecked.
#[derive(Debug, PartialEq, Eq)]
pub enum Instruction {
    Constant {
        dest: String,
        const_type: Type,
        value: Literal,
        pos: Option<Position>,
    },
    Value {
        args: Vec<String>,
        dest: String,
        funcs: Vec<String>,
        labels: Vec<String>,
        op: ValueOps,
        op_type: Type,
        pos: Option<Position>,
    },
    Effect {
        args: Vec<String>,
        funcs: Vec<String>,
        labels: Vec<String>,
        op: EffectOps,
        pos: Option<Position>,
    },
}

/// One resolved code item: a label, passed through unchanged, or an
/// instruction.
#[derive(Debug, PartialEq, Eq)]
pub enum Code {
    Label { label: String, pos: Option<Position> },
    Instruction(Instruction),
}

/// A resolved function: name, ordered arguments, ordered code items and an
/// optional return type.
#[derive(Debug, PartialEq, Eq)]
pub struct Function {
    pub name: String,
    pub args: Vec<Argument>,
    pub instrs: Vec<Code>,
    pub return_type: Option<Type>,
    pub pos: Option<Position>,
}

/// A resolved program: its functions in declaration order.
#[derive(Debug, PartialEq, Eq)]
pub struct Program {
    pub functions: Vec<Function>,
}

/// The mathematical model of an [`Argument`]: the name as a character
/// sequence beside the resolved type.
#[verifier::ext_equal]
pub ghost struct SpecArgument {
    pub name: Seq<char>,
    pub arg_type: Type,
}

/// The mathematical model of an [`Instruction`].
#[verifier::ext_equal]
pub ghost enum SpecInstruction {
    Constant {
        dest: Seq<char>,
        const_type: Type,
        value: Literal,
        pos: Option<Position>,
    },
    Value {
        args: Seq<Seq<char>>,
        dest: Seq<char>,
        funcs: Seq<Seq<char>>,
        labels: Seq<Seq<char>>,
        op: ValueOps,
        op_type: Type,
        pos: Option<Position>,
    },
    Effect {
        args: Seq<Seq<char>>,
        funcs: Seq<Seq<char>>,
        labels: Seq<Seq<char>>,
        op: EffectOps,
        pos: Option<Position>,
    },
}

/// The mathematical model of a [`Code`] item.
#[verifier::ext_equal]
pub ghost enum SpecCode {
    Label { label: Seq<char>, pos: Option<Position> },
    Instruction(SpecInstruction),
}

/// The mathematical model of a [`Function`].
#[verifier::ext_equal]
pub ghost struct SpecFunction {
    pub name: Seq<char>,
    pub args: Seq<SpecArgument>,
    pub instrs: Seq<SpecCode>,
    pub return_type: Option<Type>,
    pub pos: Option<Position>,
}

/// The mathematical model of a [`Program`].
#[verifier::ext_equal]
pub ghost struct SpecProgram {
    pub functions: Seq<SpecFunction>,
}

impl View for Argument {
    type V = SpecArgument;

    open spec fn view(&self) -> SpecArgument {
        SpecArgument { name: self.name@, arg_type: self.arg_type }
    }
}

impl View for Instruction {
    type V = SpecInstruction;

    open spec fn view(&self) -> SpecInstruction {
        match self {
            Instruction::Constant { dest, const_type, value, pos } => SpecInstruction::Constant {
                dest: dest@,
                const_type: *const_type,
                value: *value,
                pos: *pos,
            },
            Instruction::Value { args, dest, funcs, labels, op, op_type, pos } => {
                SpecInstruction::Value {
                    args: args.deep_view(),
                    dest: dest@,
                    funcs: funcs.deep_view(),
                    labels: labels.deep_view(),
                    op: *op,
                    op_type: *op_type,
                    pos: *pos,
                }
            },
            Instruction::Effect { args, funcs, labels, op, pos } => SpecInstruction::Effect {
                args: args.deep_view(),
                funcs: funcs.deep_view(),
                labels: labels.deep_view(),
                op: *op,
                pos: *pos,
            },
        }
    }
}

impl View for Code {
    type V = SpecCode;

    open spec fn view(&self) -> SpecCode {
        match self {
            Code::Label { label, pos } => SpecCode::Label { label: label@, pos: *pos },
            Code::Instruction(i) => SpecCode::Instruction(i@),
        }
    }
}

/// The model of a resolved argument list.
pub open spec fn spec_args_view(s: Seq<Argument>) -> Seq<SpecArgument> {
    s.map_values(|a: Argument| a@)
}

/// The model of a resolved code list.
pub open spec fn spec_codes_view(s: Seq<Code>) -> Seq<SpecCode> {
    s.map_values(|c: Code| c@)
}

/// The model of a resolved function list.
pub open spec fn spec_functions_view(s: Seq<Function>) -> Seq<SpecFunction> {
    s.map_values(|f: Function| f@)
}

impl View for Function {
    type V = SpecFunction;

    open spec fn view(&self) -> SpecFunction {
        SpecFunction {
            name: self.name@,
            args: spec_args_view(self.args@),
            instrs: spec_codes_view(self.instrs@),
            return_type: self.return_type,
            pos: self.pos,
        }
    }
}

impl View for Program {
    type V = SpecProgram;

    open spec fn view(&self) -> SpecProgram {
        SpecProgram { functions: spec_functions_view(self.functions@) }
    }
}

} // verus!
