//! The loosely structured program representation produced by the upstream
//! text layer: operation names and type names are raw strings, and type
//! annotations are optional.

use vstd::prelude::*;
use crate::program::{Literal, Position};
use vstd::string::StringExecFns;

verus! {

/// A loose type expression: a bare name, or a parameterized form
/// `name<inner>`.
#[derive(Debug, PartialEq, Eq)]
pub enum AbstractType {
    Primitive(String),
    Parameterized(String, Box<AbstractType>),
}

/// A loose typed parameter declaration.  Arguments carry no position of
/// their own; failures are blamed on the enclosing function.
#[derive(Debug, PartialEq, Eq)]
pub struct AbstractArgument {
    pub name: String,
    pub arg_type: AbstractType,
}

/// A loose instruction: the operation is a raw string and declared types are
/// optional type expressions.
#[derive(Debug, PartialEq, Eq)]
pub enum AbstractInstruction {
    Constant {
        dest: String,
        const_type: Option<AbstractType>,
        value: Literal,
        pos: Option<Position>,
    },
    Value {
        args: Vec<String>,
        dest: String,
        funcs: Vec<String>,
        labels: Vec<String>,
        op: String,
        op_type: Option<AbstractType>,
        pos: Option<Position>,
    },
    Effect {
        args: Vec<String>,
        funcs: Vec<String>,
        labels: Vec<String>,
        op: String,
        pos: Option<Position>,
    },
}

/// One loose code item: a label or an instruction.
#[derive(Debug, PartialEq, Eq)]
pub enum AbstractCode {
    Label { label: String, pos: Option<Position> },
    Instruction(AbstractInstruction),
}

/// A loose function.
#[derive(Debug, PartialEq, Eq)]
pub struct AbstractFunction {
    pub name: String,
    pub args: Vec<AbstractArgument>,
    pub instrs: Vec<AbstractCode>,
    pub return_type: Option<AbstractType>,
    pub pos: Option<Position>,
}

/// A loose program: its functions in declaration order.
#[derive(Debug, PartialEq, Eq)]
pub struct AbstractProgram {
    pub functions: Vec<AbstractFunction>,
}

/// The mathematical model of an [`AbstractType`].
#[verifier::ext_equal]
pub ghost enum SpecAbstractType {
    Primitive(Seq<char>),
    Parameterized(Seq<char>, Box<SpecAbstractType>),
}

/// The mathematical model of an [`AbstractArgument`].
#[verifier::ext_equal]
pub ghost struct SpecAbstractArgument {
    pub name: Seq<char>,
    pub arg_type: SpecAbstractType,
}

/// The mathematical model of an [`AbstractInstruction`].
#[verifier::ext_equal]
pub ghost enum SpecAbstractInstruction {
    Constant {
        dest: Seq<char>,
        const_type: Option<SpecAbstractType>,
        value: Literal,
        pos: Option<Position>,
    },
    Value {
        args: Seq<Seq<char>>,
        dest: Seq<char>,
        funcs: Seq<Seq<char>>,
        labels: Seq<Seq<char>>,
        op: Seq<char>,
        op_type: Option<SpecAbstractType>,
        pos: Option<Position>,
    },
    Effect {
        args: Seq<Seq<char>>,
        funcs: Seq<Seq<char>>,
        labels: Seq<Seq<char>>,
        op: Seq<char>,
        pos: Option<Position>,
    },
}

/// The mathematical model of an [`AbstractCode`] item.
#[verifier::ext_equal]
pub ghost enum SpecAbstractCode {
    Label { label: Seq<char>, pos: Option<Position> },
    Instruction(SpecAbstractInstruction),
}

/// The mathematical model of an [`AbstractFunction`].
#[verifier::ext_equal]
pub ghost struct SpecAbstractFunction {
    pub name: Seq<char>,
    pub args: Seq<SpecAbstractArgument>,
    pub instrs: Seq<SpecAbstractCode>,
    pub return_type: Option<SpecAbstractType>,
    pub pos: Option<Position>,
}

/// The mathematical model of an [`AbstractProgram`].
#[verifier::ext_equal]
pub ghost struct SpecAbstractProgram {
    pub functions: Seq<SpecAbstractFunction>,
}

/// The model of a loose type expression, defined by structural recursion.
pub open spec fn spec_abstract_type_view(t: &AbstractType) -> SpecAbstractType
    decreases t,
{
    match t {
        AbstractType::Primitive(name) => SpecAbstractType::Primitive(name@),
        AbstractType::Parameterized(name, inner) => SpecAbstractType::Parameterized(
            name@,
            Box::new(spec_abstract_type_view(inner)),
        ),
    }
}

impl View for AbstractType {
    type V = SpecAbstractType;

    open spec fn view(&self) -> SpecAbstractType {
        spec_abstract_type_view(self)
    }
}

impl View for AbstractArgument {
    type V = SpecAbstractArgument;

    open spec fn view(&self) -> SpecAbstractArgument {
        SpecAbstractArgument { name: self.name@, arg_type: self.arg_type@ }
    }
}

impl View for AbstractInstruction {
    type V = SpecAbstractInstruction;

    open spec fn view(&self) -> SpecAbstractInstruction {
        match self {
            AbstractInstruction::Constant { dest, const_type, value, pos } => {
                SpecAbstractInstruction::Constant {
                    dest: dest@,
                    const_type: match const_type {
                        Some(t) => Some(t@),
                        None => None,
                    },
                    value: *value,
                    pos: *pos,
                }
            },
            AbstractInstruction::Value { args, dest, funcs, labels, op, op_type, pos } => {
                SpecAbstractInstruction::Value {
                    args: args.deep_view(),
                    dest: dest@,
                    funcs: funcs.deep_view(),
                    labels: labels.deep_view(),
                    op: op@,
                    op_type: match op_type {
                        Some(t) => Some(t@),
                        None => None,
                    },
                    pos: *pos,
                }
            },
            AbstractInstruction::Effect { args, funcs, labels, op, pos } => {
                SpecAbstractInstruction::Effect {
                    args: args.deep_view(),
                    funcs: funcs.deep_view(),
                    labels: labels.deep_view(),
                    op: op@,
                    pos: *pos,
                }
            },
        }
    }
}

impl View for AbstractCode {
    type V = SpecAbstractCode;

    open spec fn view(&self) -> SpecAbstractCode {
        match self {
            AbstractCode::Label { label, pos } => SpecAbstractCode::Label {
                label: label@,
                pos: *pos,
            },
            AbstractCode::Instruction(i) => SpecAbstractCode::Instruction(i@),
        }
    }
}

/// The model of a loose argument list.
pub open spec fn spec_abstract_args_view(s: Seq<AbstractArgument>) -> Seq<SpecAbstractArgument> {
    s.map_values(|a: AbstractArgument| a@)
}

/// The model of a loose code list.
pub open spec fn spec_abstract_codes_view(s: Seq<AbstractCode>) -> Seq<SpecAbstractCode> {
    s.map_values(|c: AbstractCode| c@)
}

/// The model of a loose function list.
pub open spec fn spec_abstract_functions_view(s: Seq<AbstractFunction>) -> Seq<
    SpecAbstractFunction,
> {
    s.map_values(|f: AbstractFunction| f@)
}

impl View for AbstractFunction {
    type V = SpecAbstractFunction;

    open spec fn view(&self) -> SpecAbstractFunction {
        SpecAbstractFunction {
            name: self.name@,
            args: spec_abstract_args_view(self.args@),
            instrs: spec_abstract_codes_view(self.instrs@),
            return_type: match self.return_type {
                Some(t) => Some(t@),
                None => None,
            },
            pos: self.pos,
        }
    }
}

impl View for AbstractProgram {
    type V = SpecAbstractProgram;

    open spec fn view(&self) -> SpecAbstractProgram {
        SpecAbstractProgram { functions: spec_abstract_functions_view(self.functions@) }
    }
}

/// The text form of a loose type expression: a bare name prints as itself, a
/// parameterized form prints as `name<inner>`.
pub open spec fn spec_type_text(t: SpecAbstractType) -> Seq<char>
    decreases t,
{
    match t {
        SpecAbstractType::Primitive(name) => name,
        SpecAbstractType::Parameterized(name, inner) => name + "<"@ + spec_type_text(*inner)
            + ">"@,
    }
}

impl AbstractType {
    /// Renders the type expression back to text, as the upstream layer wrote
    /// it.
    pub fn to_text(&self) -> (r: String)
        ensures
            r@ == spec_type_text(self@),
        decreases self,
    {
        match self {
            AbstractType::Primitive(name) => name.clone(),
            AbstractType::Parameterized(name, inner) => {
                let mut s = name.clone();
                s.append("<");
                let inner_text = inner.to_text();
                s.append(inner_text.as_str());
                s.append(">");
                assert(s@ =~= name@ + "<"@ + spec_type_text(inner@) + ">"@);
                s
            },
        }
    }
}

} // verus!
