//! The conversion pipeline: resolves a loose program tree into the closed,
//! validated representation, propagating the first failure at every
//! aggregation point and attaching the nearest available source position.

use vstd::prelude::*;
use crate::abstract_program::{
    AbstractArgument, AbstractCode, AbstractFunction, AbstractInstruction, AbstractProgram,
    AbstractType, SpecAbstractArgument, SpecAbstractCode, SpecAbstractFunction,
    SpecAbstractInstruction, SpecAbstractProgram, SpecAbstractType, spec_abstract_args_view,
    spec_abstract_codes_view, spec_abstract_functions_view, spec_type_text,
};
use crate::config::ExtensionConfig;
use crate::program::{
    Argument, Code, EffectOps, Function, Instruction, Position, Program, SpecArgument, SpecCode,
    SpecFunction, SpecInstruction, SpecProgram, Type, ValueOps, spec_args_view, spec_codes_view,
    spec_functions_view,
};

verus! {

/// Why a conversion failed: the five non-recoverable reasons.  Each variant
/// that names a token carries the exact original string.
#[derive(Debug, PartialEq, Eq)]
pub enum ConversionError {
    /// A bare type name outside the recognized set.
    InvalidPrimitive(String),
    /// A parameterized type name outside the recognized set, with the inner
    /// type rendered back to text.
    InvalidParameterized(String, String),
    /// A value-operation name outside the active recognized set.
    InvalidValueOps(String),
    /// An effect-operation name outside the active recognized set.
    InvalidEffectOps(String),
    /// A missing type annotation where one is required.
    MissingType,
}

/// The mathematical model of a [`ConversionError`].
#[verifier::ext_equal]
pub ghost enum SpecConversionError {
    InvalidPrimitive(Seq<char>),
    InvalidParameterized(Seq<char>, Seq<char>),
    InvalidValueOps(Seq<char>),
    InvalidEffectOps(Seq<char>),
    MissingType,
}

impl View for ConversionError {
    type V = SpecConversionError;

    open spec fn view(&self) -> SpecConversionError {
        match self {
            ConversionError::InvalidPrimitive(name) => SpecConversionError::InvalidPrimitive(
                name@,
            ),
            ConversionError::InvalidParameterized(name, inner) => {
                SpecConversionError::InvalidParameterized(name@, inner@)
            },
            ConversionError::InvalidValueOps(name) => SpecConversionError::InvalidValueOps(name@),
            ConversionError::InvalidEffectOps(name) => SpecConversionError::InvalidEffectOps(
                name@,
            ),
            ConversionError::MissingType => SpecConversionError::MissingType,
        }
    }
}

/// A conversion failure decorated with an optional source position: the
/// diagnostic handed back to the caller of the pipeline.
#[derive(Debug, PartialEq, Eq)]
pub struct PositionalConversionError {
    pub e: Box<ConversionError>,
    pub pos: Option<Position>,
}

/// The mathematical model of a [`PositionalConversionError`].
#[verifier::ext_equal]
pub ghost struct SpecPositionalConversionError {
    pub e: SpecConversionError,
    pub pos: Option<Position>,
}

impl View for PositionalConversionError {
    type V = SpecPositionalConversionError;

    open spec fn view(&self) -> SpecPositionalConversionError {
        SpecPositionalConversionError { e: self.e@, pos: self.pos }
    }
}

impl ConversionError {
    /// Wraps the reason with the given position.  A position is attached at
    /// most once per error value: the result's reason is never rewrapped.
    pub fn add_pos(self, pos_var: Option<Position>) -> (r: PositionalConversionError)
        ensures
            r@ == (SpecPositionalConversionError { e: self@, pos: pos_var }),
    {
        PositionalConversionError { e: Box::new(self), pos: pos_var }
    }
}

impl PositionalConversionError {
    /// Wraps the reason with no position.
    pub fn new(e: ConversionError) -> (r: Self)
        ensures
            r@ == (SpecPositionalConversionError { e: e@, pos: None }),
    {
        PositionalConversionError { e: Box::new(e), pos: None }
    }
}

/// The position actually attached to a failure: the element's own position
/// when position tracking is enabled, and nothing otherwise.
pub open spec fn spec_used_pos(cfg: ExtensionConfig, pos: Option<Position>) -> Option<Position> {
    if cfg.position {
        pos
    } else {
        None
    }
}

/// Exec counterpart of [`spec_used_pos`].
fn used_pos(cfg: &ExtensionConfig, pos: Option<Position>) -> (r: Option<Position>)
    ensures
        r == spec_used_pos(*cfg, pos),
{
    if cfg.position {
        pos
    } else {
        None
    }
}

/// Compares a string against a literal by contents.
fn str_eq(s: &String, lit: &str) -> (r: bool)
    ensures
        r == (s@ == lit@),
{
    let owned: String = lit.to_owned();
    *s == owned
}

/// What the type resolver returns: `int` and `bool` always resolve; `float`
/// resolves only under the float extension; `ptr<inner>` resolves only under
/// the memory extension and recursively; every other name fails, a
/// parameterized one with its inner type rendered back to text.
pub open spec fn spec_resolve_type(cfg: ExtensionConfig, t: SpecAbstractType) -> Result<
    Type,
    SpecConversionError,
>
    decreases t,
{
    match t {
        SpecAbstractType::Primitive(name) => {
            if name == "int"@ {
                Ok(Type::Int)
            } else if name == "bool"@ {
                Ok(Type::Bool)
            } else if cfg.float && name == "float"@ {
                Ok(Type::Float)
            } else {
                Err(SpecConversionError::InvalidPrimitive(name))
            }
        },
        SpecAbstractType::Parameterized(name, inner) => {
            if cfg.memory && name == "ptr"@ {
                match spec_resolve_type(cfg, *inner) {
                    Ok(i) => Ok(Type::Pointer(Box::new(i))),
                    Err(e) => Err(e),
                }
            } else {
                Err(SpecConversionError::InvalidParameterized(name, spec_type_text(*inner)))
            }
        },
    }
}

/// What the type resolver returns where a type is required: a missing
/// annotation fails with `MissingType`, whatever the configuration.
pub open spec fn spec_resolve_type_opt(cfg: ExtensionConfig, t: Option<SpecAbstractType>) -> Result<
    Type,
    SpecConversionError,
> {
    match t {
        None => Err(SpecConversionError::MissingType),
        Some(t) => spec_resolve_type(cfg, t),
    }
}

/// The model of an optional loose type expression.
pub open spec fn spec_opt_type_view(t: Option<AbstractType>) -> Option<SpecAbstractType> {
    match t {
        Some(x) => Some(x@),
        None => None,
    }
}

impl Type {
    /// The type resolver: converts a loose type expression into the closed,
    /// recursive type vocabulary, consulting the configuration for the
    /// extension-gated names.
    pub fn resolve(cfg: &ExtensionConfig, t: AbstractType) -> (r: Result<Type, ConversionError>)
        ensures
            match r {
                Ok(ty) => spec_resolve_type(*cfg, t@) == Ok::<Type, SpecConversionError>(ty),
                Err(e) => spec_resolve_type(*cfg, t@) == Err::<Type, SpecConversionError>(e@),
            },
        decreases t,
    {
        match t {
            AbstractType::Primitive(name) => {
                if str_eq(&name, "int") {
                    Ok(Type::Int)
                } else if str_eq(&name, "bool") {
                    Ok(Type::Bool)
                } else if cfg.float && str_eq(&name, "float") {
                    Ok(Type::Float)
                } else {
                    Err(ConversionError::InvalidPrimitive(name))
                }
            },
            AbstractType::Parameterized(name, inner) => {
                if cfg.memory && str_eq(&name, "ptr") {
                    match Type::resolve(cfg, *inner) {
                        Ok(i) => Ok(Type::Pointer(Box::new(i))),
                        Err(e) => Err(e),
                    }
                } else {
                    let inner_text = inner.to_text();
                    Err(ConversionError::InvalidParameterized(name, inner_text))
                }
            },
        }
    }

    /// The type resolver where a type annotation is required: `None` fails
    /// with `MissingType`, whatever the configuration.
    pub fn resolve_optional(cfg: &ExtensionConfig, t: Option<AbstractType>) -> (r: Result<
        Type,
        ConversionError,
    >)
        ensures
            match r {
                Ok(ty) => spec_resolve_type_opt(*cfg, spec_opt_type_view(t)) == Ok::<
                    Type,
                    SpecConversionError,
                >(ty),
                Err(e) => spec_resolve_type_opt(*cfg, spec_opt_type_view(t)) == Err::<
                    Type,
                    SpecConversionError,
                >(e@),
            },
    {
        match t {
            Some(t) => Type::resolve(cfg, t),
            None => Err(ConversionError::MissingType),
        }
    }
}

/// The value-operation vocabulary: which tag, if any, a name resolves to
/// under the given configuration.  `phi` is recognized only under the ssa
/// extension, the `f`-prefixed arithmetic only under the float extension,
/// and the heap operations only under the memory extension.
pub open spec fn spec_value_op(cfg: ExtensionConfig, name: Seq<char>) -> Option<ValueOps> {
    if name == "add"@ {
        Some(ValueOps::Add)
    } else if name == "mul"@ {
        Some(ValueOps::Mul)
    } else if name == "div"@ {
        Some(ValueOps::Div)
    } else if name == "eq"@ {
        Some(ValueOps::Eq)
    } else if name == "lt"@ {
        Some(ValueOps::Lt)
    } else if name == "gt"@ {
        Some(ValueOps::Gt)
    } else if name == "le"@ {
        Some(ValueOps::Le)
    } else if name == "ge"@ {
        Some(ValueOps::Ge)
    } else if name == "not"@ {
        Some(ValueOps::Not)
    } else if name == "and"@ {
        Some(ValueOps::And)
    } else if name == "or"@ {
        Some(ValueOps::Or)
    } else if name == "call"@ {
        Some(ValueOps::Call)
    } else if name == "id"@ {
        Some(ValueOps::Id)
    } else if name == "sub"@ {
        Some(ValueOps::Sub)
    } else if cfg.ssa && name == "phi"@ {
        Some(ValueOps::Phi)
    } else if cfg.float && name == "fadd"@ {
        Some(ValueOps::Fadd)
    } else if cfg.float && name == "fsub"@ {
        Some(ValueOps::Fsub)
    } else if cfg.float && name == "fmul"@ {
        Some(ValueOps::Fmul)
    } else if cfg.float && name == "fdiv"@ {
        Some(ValueOps::Fdiv)
    } else if cfg.float && name == "feq"@ {
        Some(ValueOps::Feq)
    } else if cfg.float && name == "flt"@ {
        Some(ValueOps::Flt)
    } else if cfg.float && name == "fgt"@ {
        Some(ValueOps::Fgt)
    } else if cfg.float && name == "fle"@ {
        Some(ValueOps::Fle)
    } else if cfg.float && name == "fge"@ {
        Some(ValueOps::Fge)
    } else if cfg.memory && name == "alloc"@ {
        Some(ValueOps::Alloc)
    } else if cfg.memory && name == "load"@ {
        Some(ValueOps::Load)
    } else if cfg.memory && name == "ptradd"@ {
        Some(ValueOps::PtrAdd)
    } else {
        None
    }
}

/// The effect-operation vocabulary: which tag, if any, a name resolves to
/// under the given configuration.  `store` and `free` are recognized only
/// under the memory extension, and `speculate`, `commit` and `guard` only
/// under the speculation extension.
pub open spec fn spec_effect_op(cfg: ExtensionConfig, name: Seq<char>) -> Option<EffectOps> {
    if name == "jmp"@ {
        Some(EffectOps::Jump)
    } else if name == "br"@ {
        Some(EffectOps::Branch)
    } else if name == "call"@ {
        Some(EffectOps::Call)
    } else if name == "ret"@ {
        Some(EffectOps::Return)
    } else if name == "print"@ {
        Some(EffectOps::Print)
    } else if name == "nop"@ {
        Some(EffectOps::Nop)
    } else if cfg.memory && name == "store"@ {
        Some(EffectOps::Store)
    } else if cfg.memory && name == "free"@ {
        Some(EffectOps::Free)
    } else if cfg.speculate && name == "speculate"@ {
        Some(EffectOps::Speculate)
    } else if cfg.speculate && name == "commit"@ {
        Some(EffectOps::Commit)
    } else if cfg.speculate && name == "guard"@ {
        Some(EffectOps::Guard)
    } else {
        None
    }
}

/// The operation resolver for the value shape: matching is case-sensitive
/// and exact, with no aliasing.
pub fn resolve_value_op(cfg: &ExtensionConfig, op: &String) -> (r: Option<ValueOps>)
    ensures
        r == spec_value_op(*cfg, op@),
{
    if str_eq(op, "add") {
        Some(ValueOps::Add)
    } else if str_eq(op, "mul") {
        Some(ValueOps::Mul)
    } else if str_eq(op, "div") {
        Some(ValueOps::Div)
    } else if str_eq(op, "eq") {
        Some(ValueOps::Eq)
    } else if str_eq(op, "lt") {
        Some(ValueOps::Lt)
    } else if str_eq(op, "gt") {
        Some(ValueOps::Gt)
    } else if str_eq(op, "le") {
        Some(ValueOps::Le)
    } else if str_eq(op, "ge") {
        Some(ValueOps::Ge)
    } else if str_eq(op, "not") {
        Some(ValueOps::Not)
    } else if str_eq(op, "and") {
        Some(ValueOps::And)
    } else if str_eq(op, "or") {
        Some(ValueOps::Or)
    } else if str_eq(op, "call") {
        Some(ValueOps::Call)
    } else if str_eq(op, "id") {
        Some(ValueOps::Id)
    } else if str_eq(op, "sub") {
        Some(ValueOps::Sub)
    } else if cfg.ssa && str_eq(op, "phi") {
        Some(ValueOps::Phi)
    } else if cfg.float && str_eq(op, "fadd") {
        Some(ValueOps::Fadd)
    } else if cfg.float && str_eq(op, "fsub") {
        Some(ValueOps::Fsub)
    } else if cfg.float && str_eq(op, "fmul") {
        Some(ValueOps::Fmul)
    } else if cfg.float && str_eq(op, "fdiv") {
        Some(ValueOps::Fdiv)
    } else if cfg.float && str_eq(op, "feq") {
        Some(ValueOps::Feq)
    } else if cfg.float && str_eq(op, "flt") {
        Some(ValueOps::Flt)
    } else if cfg.float && str_eq(op, "fgt") {
        Some(ValueOps::Fgt)
    } else if cfg.float && str_eq(op, "fle") {
        Some(ValueOps::Fle)
    } else if cfg.float && str_eq(op, "fge") {
        Some(ValueOps::Fge)
    } else if cfg.memory && str_eq(op, "alloc") {
        Some(ValueOps::Alloc)
    } else if cfg.memory && str_eq(op, "load") {
        Some(ValueOps::Load)
    } else if cfg.memory && str_eq(op, "ptradd") {
        Some(ValueOps::PtrAdd)
    } else {
        None
    }
}

/// The operation resolver for the effect shape: matching is case-sensitive
/// and exact, with no aliasing.
pub fn resolve_effect_op(cfg: &ExtensionConfig, op: &String) -> (r: Option<EffectOps>)
    ensures
        r == spec_effect_op(*cfg, op@),
{
    if str_eq(op, "jmp") {
        Some(EffectOps::Jump)
    } else if str_eq(op, "br") {
        Some(EffectOps::Branch)
    } else if str_eq(op, "call") {
        Some(EffectOps::Call)
    } else if str_eq(op, "ret") {
        Some(EffectOps::Return)
    } else if str_eq(op, "print") {
        Some(EffectOps::Print)
    } else if str_eq(op, "nop") {
        Some(EffectOps::Nop)
    } else if cfg.memory && str_eq(op, "store") {
        Some(EffectOps::Store)
    } else if cfg.memory && str_eq(op, "free") {
        Some(EffectOps::Free)
    } else if cfg.speculate && str_eq(op, "speculate") {
        Some(EffectOps::Speculate)
    } else if cfg.speculate && str_eq(op, "commit") {
        Some(EffectOps::Commit)
    } else if cfg.speculate && str_eq(op, "guard") {
        Some(EffectOps::Guard)
    } else {
        None
    }
}

/// What the instruction converter returns.  A constant resolves its declared
/// type; a value instruction resolves its result type and then its operation
/// name; an effect instruction resolves its operation name only.  Every
/// failure is annotated with the instruction's position; all other fields
/// pass through unvalidated.
pub open spec fn spec_convert_instruction(
    cfg: ExtensionConfig,
    i: SpecAbstractInstruction,
) -> Result<SpecInstruction, SpecPositionalConversionError> {
    match i {
        SpecAbstractInstruction::Constant { dest, const_type, value, pos } => {
            match spec_resolve_type_opt(cfg, const_type) {
                Ok(t) => Ok(SpecInstruction::Constant { dest, const_type: t, value, pos }),
                Err(e) => Err(
                    SpecPositionalConversionError { e, pos: spec_used_pos(cfg, pos) },
                ),
            }
        },
        SpecAbstractInstruction::Value { args, dest, funcs, labels, op, op_type, pos } => {
            match spec_resolve_type_opt(cfg, op_type) {
                Ok(t) => match spec_value_op(cfg, op) {
                    Some(vo) => Ok(
                        SpecInstruction::Value {
                            args,
                            dest,
                            funcs,
                            labels,
                            op: vo,
                            op_type: t,
                            pos,
                        },
                    ),
                    None => Err(
                        SpecPositionalConversionError {
                            e: SpecConversionError::InvalidValueOps(op),
                            pos: spec_used_pos(cfg, pos),
                        },
                    ),
                },
                Err(e) => Err(
                    SpecPositionalConversionError { e, pos: spec_used_pos(cfg, pos) },
                ),
            }
        },
        SpecAbstractInstruction::Effect { args, funcs, labels, op, pos } => {
            match spec_effect_op(cfg, op) {
                Some(eo) => Ok(SpecInstruction::Effect { args, funcs, labels, op: eo, pos }),
                None => Err(
                    SpecPositionalConversionError {
                        e: SpecConversionError::InvalidEffectOps(op),
                        pos: spec_used_pos(cfg, pos),
                    },
                ),
            }
        },
    }
}

impl Instruction {
    /// The instruction converter: stateless, one call per instruction.
    pub fn convert(cfg: &ExtensionConfig, i: AbstractInstruction) -> (r: Result<
        Instruction,
        PositionalConversionError,
    >)
        ensures
            match r {
                Ok(ri) => spec_convert_instruction(*cfg, i@) == Ok::<
                    SpecInstruction,
                    SpecPositionalConversionError,
                >(ri@),
                Err(e) => spec_convert_instruction(*cfg, i@) == Err::<
                    SpecInstruction,
                    SpecPositionalConversionError,
                >(e@),
            },
    {
        match i {
            AbstractInstruction::Constant { dest, const_type, value, pos } => {
                match Type::resolve_optional(cfg, const_type) {
                    Ok(t) => Ok(Instruction::Constant { dest, const_type: t, value, pos }),
                    Err(e) => Err(e.add_pos(used_pos(cfg, pos))),
                }
            },
            AbstractInstruction::Value { args, dest, funcs, labels, op, op_type, pos } => {
                match Type::resolve_optional(cfg, op_type) {
                    Ok(t) => match resolve_value_op(cfg, &op) {
                        Some(vo) => Ok(
                            Instruction::Value {
                                args,
                                dest,
                                funcs,
                                labels,
                                op: vo,
                                op_type: t,
                                pos,
                            },
                        ),
                        None => Err(
                            ConversionError::InvalidValueOps(op).add_pos(used_pos(cfg, pos)),
                        ),
                    },
                    Err(e) => Err(e.add_pos(used_pos(cfg, pos))),
                }
            },
            AbstractInstruction::Effect { args, funcs, labels, op, pos } => {
                match resolve_effect_op(cfg, &op) {
                    Some(eo) => Ok(Instruction::Effect { args, funcs, labels, op: eo, pos }),
                    None => Err(
                        ConversionError::InvalidEffectOps(op).add_pos(used_pos(cfg, pos)),
                    ),
                }
            },
        }
    }
}

/// What the code converter returns: a label passes through unchanged, an
/// instruction is delegated and its failure rethrown unchanged.
pub open spec fn spec_convert_code(cfg: ExtensionConfig, c: SpecAbstractCode) -> Result<
    SpecCode,
    SpecPositionalConversionError,
> {
    match c {
        SpecAbstractCode::Label { label, pos } => Ok(SpecCode::Label { label, pos }),
        SpecAbstractCode::Instruction(i) => match spec_convert_instruction(cfg, i) {
            Ok(ri) => Ok(SpecCode::Instruction(ri)),
            Err(e) => Err(e),
        },
    }
}

impl Code {
    /// The code converter: labels pass through, instructions delegate.
    pub fn convert(cfg: &ExtensionConfig, c: AbstractCode) -> (r: Result<
        Code,
        PositionalConversionError,
    >)
        ensures
            match r {
                Ok(rc) => spec_convert_code(*cfg, c@) == Ok::<
                    SpecCode,
                    SpecPositionalConversionError,
                >(rc@),
                Err(e) => spec_convert_code(*cfg, c@) == Err::<
                    SpecCode,
                    SpecPositionalConversionError,
                >(e@),
            },
    {
        match c {
            AbstractCode::Label { label, pos } => Ok(Code::Label { label, pos }),
            AbstractCode::Instruction(i) => match Instruction::convert(cfg, i) {
                Ok(ri) => Ok(Code::Instruction(ri)),
                Err(e) => Err(e),
            },
        }
    }
}

/// What the argument converter returns: the declared type resolved, the bare
/// reason on failure.  Arguments carry no position; the caller attaches one.
pub open spec fn spec_convert_argument(cfg: ExtensionConfig, a: SpecAbstractArgument) -> Result<
    SpecArgument,
    SpecConversionError,
> {
    match spec_resolve_type(cfg, a.arg_type) {
        Ok(t) => Ok(SpecArgument { name: a.name, arg_type: t }),
        Err(e) => Err(e),
    }
}

impl Argument {
    /// The argument converter: one typed parameter declaration.
    pub fn convert(cfg: &ExtensionConfig, a: AbstractArgument) -> (r: Result<
        Argument,
        ConversionError,
    >)
        ensures
            match r {
                Ok(ra) => spec_convert_argument(*cfg, a@) == Ok::<
                    SpecArgument,
                    SpecConversionError,
                >(ra@),
                Err(e) => spec_convert_argument(*cfg, a@) == Err::<
                    SpecArgument,
                    SpecConversionError,
                >(e@),
            },
    {
        let AbstractArgument { name, arg_type } = a;
        match Type::resolve(cfg, arg_type) {
            Ok(t) => Ok(Argument { name, arg_type: t }),
            Err(e) => Err(e),
        }
    }
}

/// What converting an argument list returns: each argument in order, stopped
/// at the first failure, whose bare reason is the result.
pub open spec fn spec_convert_args(cfg: ExtensionConfig, s: Seq<SpecAbstractArgument>) -> Result<
    Seq<SpecArgument>,
    SpecConversionError,
>
    decreases s.len(),
{
    if s.len() == 0 {
        Ok(Seq::empty())
    } else {
        match spec_convert_args(cfg, s.drop_last()) {
            Err(e) => Err(e),
            Ok(rest) => match spec_convert_argument(cfg, s.last()) {
                Ok(a) => Ok(rest.push(a)),
                Err(e) => Err(e),
            },
        }
    }
}

/// An argument list fails on the first failing argument: whatever follows an
/// error-free prefix and a failing argument, the whole list fails with that
/// argument's reason.
pub proof fn lemma_args_error_persists(
    cfg: ExtensionConfig,
    s: Seq<SpecAbstractArgument>,
    i: int,
)
    requires
        0 <= i < s.len(),
        spec_convert_args(cfg, s.take(i)) is Ok,
        spec_convert_argument(cfg, s[i]) is Err,
    ensures
        spec_convert_args(cfg, s) == Err::<Seq<SpecArgument>, SpecConversionError>(
            spec_convert_argument(cfg, s[i])->Err_0,
        ),
    decreases s.len(),
{
    if i == s.len() - 1 {
        assert(s.drop_last() =~= s.take(i));
        assert(s.last() == s[i]);
    } else {
        assert(s.drop_last().take(i) =~= s.take(i));
        lemma_args_error_persists(cfg, s.drop_last(), i);
    }
}

/// The argument-list converter: in order, first failure wins, the bare
/// reason returned for the caller to position.
pub fn convert_arguments(cfg: &ExtensionConfig, args: Vec<AbstractArgument>) -> (r: Result<
    Vec<Argument>,
    ConversionError,
>)
    ensures
        match r {
            Ok(ra) => spec_convert_args(*cfg, spec_abstract_args_view(args@)) == Ok::<
                Seq<SpecArgument>,
                SpecConversionError,
            >(spec_args_view(ra@)),
            Err(e) => spec_convert_args(*cfg, spec_abstract_args_view(args@)) == Err::<
                Seq<SpecArgument>,
                SpecConversionError,
            >(e@),
        },
{
    let ghost whole: Seq<SpecAbstractArgument> = spec_abstract_args_view(args@);
    let mut rem = args;
    let mut out: Vec<Argument> = Vec::new();
    proof {
        assert(whole.take(0) =~= Seq::<SpecAbstractArgument>::empty());
        assert(spec_args_view(out@) =~= Seq::<SpecArgument>::empty());
        assert(spec_abstract_args_view(rem@) =~= whole.skip(0));
    }
    while rem.len() > 0
        invariant
            whole == spec_abstract_args_view(args@),
            out@.len() + rem@.len() == whole.len(),
            spec_abstract_args_view(rem@) =~= whole.skip(out@.len() as int),
            spec_convert_args(*cfg, whole.take(out@.len() as int)) == Ok::<
                Seq<SpecArgument>,
                SpecConversionError,
            >(spec_args_view(out@)),
        decreases rem@.len(),
    {
        let ghost i = out@.len() as int;
        let ghost before = rem@;
        let a = rem.remove(0);
        proof {
            assert(spec_abstract_args_view(before)[0] == a@);
            assert(a@ == whole[i]);
            assert(rem@ =~= before.skip(1));
            assert(spec_abstract_args_view(before) =~= whole.skip(i));
            assert forall|k: int| 0 <= k < rem@.len() implies spec_abstract_args_view(rem@)[k] == #[trigger] whole.skip(i + 1)[k] by {
                assert(rem@[k] == before[k + 1]);
                assert(spec_abstract_args_view(before)[k + 1] == before[k + 1]@);
                assert(whole.skip(i)[k + 1] == whole[i + 1 + k]);
            }
            assert(spec_abstract_args_view(rem@) =~= whole.skip(i + 1));
        }
        match Argument::convert(cfg, a) {
            Ok(ra) => {
                let ghost out_before = out@;
                out.push(ra);
                proof {
                    assert(whole.take(i + 1).drop_last() =~= whole.take(i));
                    assert(whole.take(i + 1).last() == whole[i]);
                    assert(spec_args_view(out@) =~= spec_args_view(out_before).push(ra@));
                }
            },
            Err(e) => {
                proof {
                    lemma_args_error_persists(*cfg, whole, i);
                }
                return Err(e);
            },
        }
    }
    proof {
        assert(whole.take(out@.len() as int) =~= whole);
    }
    Ok(out)
}

/// What converting a code list returns: each item in order, stopped at the
/// first failure, which is already positioned.
pub open spec fn spec_convert_codes(cfg: ExtensionConfig, s: Seq<SpecAbstractCode>) -> Result<
    Seq<SpecCode>,
    SpecPositionalConversionError,
>
    decreases s.len(),
{
    if s.len() == 0 {
        Ok(Seq::empty())
    } else {
        match spec_convert_codes(cfg, s.drop_last()) {
            Err(e) => Err(e),
            Ok(rest) => match spec_convert_code(cfg, s.last()) {
                Ok(c) => Ok(rest.push(c)),
                Err(e) => Err(e),
            },
        }
    }
}

/// A code list fails on the first failing item: whatever follows an
/// error-free prefix and a failing item, the whole list fails with that
/// item's error.
pub proof fn lemma_codes_error_persists(cfg: ExtensionConfig, s: Seq<SpecAbstractCode>, i: int)
    requires
        0 <= i < s.len(),
        spec_convert_codes(cfg, s.take(i)) is Ok,
        spec_convert_code(cfg, s[i]) is Err,
    ensures
        spec_convert_codes(cfg, s) == Err::<Seq<SpecCode>, SpecPositionalConversionError>(
            spec_convert_code(cfg, s[i])->Err_0,
        ),
    decreases s.len(),
{
    if i == s.len() - 1 {
        assert(s.drop_last() =~= s.take(i));
        assert(s.last() == s[i]);
    } else {
        assert(s.drop_last().take(i) =~= s.take(i));
        lemma_codes_error_persists(cfg, s.drop_last(), i);
    }
}

/// The code-list converter: in order, first failure wins.
pub fn convert_codes(cfg: &ExtensionConfig, instrs: Vec<AbstractCode>) -> (r: Result<
    Vec<Code>,
    PositionalConversionError,
>)
    ensures
        match r {
            Ok(rc) => spec_convert_codes(*cfg, spec_abstract_codes_view(instrs@)) == Ok::<
                Seq<SpecCode>,
                SpecPositionalConversionError,
            >(spec_codes_view(rc@)),
            Err(e) => spec_convert_codes(*cfg, spec_abstract_codes_view(instrs@)) == Err::<
                Seq<SpecCode>,
                SpecPositionalConversionError,
            >(e@),
        },
{
    let ghost whole: Seq<SpecAbstractCode> = spec_abstract_codes_view(instrs@);
    let mut rem = instrs;
    let mut out: Vec<Code> = Vec::new();
    proof {
        assert(whole.take(0) =~= Seq::<SpecAbstractCode>::empty());
        assert(spec_codes_view(out@) =~= Seq::<SpecCode>::empty());
        assert(spec_abstract_codes_view(rem@) =~= whole.skip(0));
    }
    while rem.len() > 0
        invariant
            whole == spec_abstract_codes_view(instrs@),
            out@.len() + rem@.len() == whole.len(),
            spec_abstract_codes_view(rem@) =~= whole.skip(out@.len() as int),
            spec_convert_codes(*cfg, whole.take(out@.len() as int)) == Ok::<
                Seq<SpecCode>,
                SpecPositionalConversionError,
            >(spec_codes_view(out@)),
        decreases rem@.len(),
    {
        let ghost i = out@.len() as int;
        let ghost before = rem@;
        let c = rem.remove(0);
        proof {
            assert(spec_abstract_codes_view(before)[0] == c@);
            assert(c@ == whole[i]);
            assert(rem@ =~= before.skip(1));
            assert(spec_abstract_codes_view(before) =~= whole.skip(i));
            assert forall|k: int| 0 <= k < rem@.len() implies spec_abstract_codes_view(rem@)[k] == #[trigger] whole.skip(i + 1)[k] by {
                assert(rem@[k] == before[k + 1]);
                assert(spec_abstract_codes_view(before)[k + 1] == before[k + 1]@);
                assert(whole.skip(i)[k + 1] == whole[i + 1 + k]);
            }
            assert(spec_abstract_codes_view(rem@) =~= whole.skip(i + 1));
        }
        match Code::convert(cfg, c) {
            Ok(rc) => {
                let ghost out_before = out@;
                out.push(rc);
                proof {
                    assert(whole.take(i + 1).drop_last() =~= whole.take(i));
                    assert(whole.take(i + 1).last() == whole[i]);
                    assert(spec_codes_view(out@) =~= spec_codes_view(out_before).push(rc@));
                }
            },
            Err(e) => {
                proof {
                    lemma_codes_error_persists(*cfg, whole, i);
                }
                return Err(e);
            },
        }
    }
    proof {
        assert(whole.take(out@.len() as int) =~= whole);
    }
    Ok(out)
}

/// What the function converter returns: arguments in order, then code items
/// in order, then the optional return type; first failure wins.  A failing
/// argument or return type is blamed on the function's own position; a
/// failing code item arrives already positioned and is passed through.
pub open spec fn spec_convert_function(cfg: ExtensionConfig, f: SpecAbstractFunction) -> Result<
    SpecFunction,
    SpecPositionalConversionError,
> {
    match spec_convert_args(cfg, f.args) {
        Err(e) => Err(SpecPositionalConversionError { e, pos: spec_used_pos(cfg, f.pos) }),
        Ok(args) => match spec_convert_codes(cfg, f.instrs) {
            Err(pe) => Err(pe),
            Ok(instrs) => match f.return_type {
                None => Ok(
                    SpecFunction { name: f.name, args, instrs, return_type: None, pos: f.pos },
                ),
                Some(t) => match spec_resolve_type(cfg, t) {
                    Ok(rt) => Ok(
                        SpecFunction {
                            name: f.name,
                            args,
                            instrs,
                            return_type: Some(rt),
                            pos: f.pos,
                        },
                    ),
                    Err(e) => Err(
                        SpecPositionalConversionError { e, pos: spec_used_pos(cfg, f.pos) },
                    ),
                },
            },
        },
    }
}

impl Function {
    /// The function converter.
    pub fn convert(cfg: &ExtensionConfig, f: AbstractFunction) -> (r: Result<
        Function,
        PositionalConversionError,
    >)
        ensures
            match r {
                Ok(rf) => spec_convert_function(*cfg, f@) == Ok::<
                    SpecFunction,
                    SpecPositionalConversionError,
                >(rf@),
                Err(e) => spec_convert_function(*cfg, f@) == Err::<
                    SpecFunction,
                    SpecPositionalConversionError,
                >(e@),
            },
    {
        let AbstractFunction { name, args, instrs, return_type, pos } = f;
        proof {
            assert(f@.args == spec_abstract_args_view(args@));
            assert(f@.instrs == spec_abstract_codes_view(instrs@));
        }
        let cargs = match convert_arguments(cfg, args) {
            Ok(v) => v,
            Err(e) => {
                return Err(e.add_pos(used_pos(cfg, pos)));
            },
        };
        let cinstrs = match convert_codes(cfg, instrs) {
            Ok(v) => v,
            Err(e) => {
                return Err(e);
            },
        };
        let rt = match return_type {
            None => None,
            Some(t) => match Type::resolve(cfg, t) {
                Ok(r) => Some(r),
                Err(e) => {
                    return Err(e.add_pos(used_pos(cfg, pos)));
                },
            },
        };
        let rf = Function { name, args: cargs, instrs: cinstrs, return_type: rt, pos };
        proof {
            assert(spec_convert_function(*cfg, f@) matches Ok(sf) && sf =~= rf@);
        }
        Ok(rf)
    }
}

/// What converting a function list returns: each function in order, stopped
/// at the first failure, which propagates unchanged.
pub open spec fn spec_convert_functions(
    cfg: ExtensionConfig,
    s: Seq<SpecAbstractFunction>,
) -> Result<Seq<SpecFunction>, SpecPositionalConversionError>
    decreases s.len(),
{
    if s.len() == 0 {
        Ok(Seq::empty())
    } else {
        match spec_convert_functions(cfg, s.drop_last()) {
            Err(e) => Err(e),
            Ok(rest) => match spec_convert_function(cfg, s.last()) {
                Ok(rf) => Ok(rest.push(rf)),
                Err(e) => Err(e),
            },
        }
    }
}

/// A function list fails on the first failing function: whatever follows an
/// error-free prefix and a failing function, the whole list fails with that
/// function's error.
pub proof fn lemma_functions_error_persists(
    cfg: ExtensionConfig,
    s: Seq<SpecAbstractFunction>,
    i: int,
)
    requires
        0 <= i < s.len(),
        spec_convert_functions(cfg, s.take(i)) is Ok,
        spec_convert_function(cfg, s[i]) is Err,
    ensures
        spec_convert_functions(cfg, s) == Err::<Seq<SpecFunction>, SpecPositionalConversionError>(
            spec_convert_function(cfg, s[i])->Err_0,
        ),
    decreases s.len(),
{
    if i == s.len() - 1 {
        assert(s.drop_last() =~= s.take(i));
        assert(s.last() == s[i]);
    } else {
        assert(s.drop_last().take(i) =~= s.take(i));
        lemma_functions_error_persists(cfg, s.drop_last(), i);
    }
}

/// The function-list converter: in order, first failure wins.
pub fn convert_functions(cfg: &ExtensionConfig, functions: Vec<AbstractFunction>) -> (r: Result<
    Vec<Function>,
    PositionalConversionError,
>)
    ensures
        match r {
            Ok(rf) => spec_convert_functions(
                *cfg,
                spec_abstract_functions_view(functions@),
            ) == Ok::<Seq<SpecFunction>, SpecPositionalConversionError>(
                spec_functions_view(rf@),
            ),
            Err(e) => spec_convert_functions(
                *cfg,
                spec_abstract_functions_view(functions@),
            ) == Err::<Seq<SpecFunction>, SpecPositionalConversionError>(e@),
        },
{
    let ghost whole: Seq<SpecAbstractFunction> = spec_abstract_functions_view(functions@);
    let mut rem = functions;
    let mut out: Vec<Function> = Vec::new();
    proof {
        assert(whole.take(0) =~= Seq::<SpecAbstractFunction>::empty());
        assert(spec_functions_view(out@) =~= Seq::<SpecFunction>::empty());
        assert(spec_abstract_functions_view(rem@) =~= whole.skip(0));
    }
    while rem.len() > 0
        invariant
            whole == spec_abstract_functions_view(functions@),
            out@.len() + rem@.len() == whole.len(),
            spec_abstract_functions_view(rem@) =~= whole.skip(out@.len() as int),
            spec_convert_functions(*cfg, whole.take(out@.len() as int)) == Ok::<
                Seq<SpecFunction>,
                SpecPositionalConversionError,
            >(spec_functions_view(out@)),
        decreases rem@.len(),
    {
        let ghost i = out@.len() as int;
        let ghost before = rem@;
        let f = rem.remove(0);
        proof {
            assert(spec_abstract_functions_view(before)[0] == f@);
            assert(f@ == whole[i]);
            assert(rem@ =~= before.skip(1));
            assert(spec_abstract_functions_view(before) =~= whole.skip(i));
            assert forall|k: int| 0 <= k < rem@.len() implies spec_abstract_functions_view(rem@)[k] == #[trigger] whole.skip(i + 1)[k] by {
                assert(rem@[k] == before[k + 1]);
                assert(spec_abstract_functions_view(before)[k + 1] == before[k + 1]@);
                assert(whole.skip(i)[k + 1] == whole[i + 1 + k]);
            }
            assert(spec_abstract_functions_view(rem@) =~= whole.skip(i + 1));
        }
        match Function::convert(cfg, f) {
            Ok(rf) => {
                let ghost out_before = out@;
                out.push(rf);
                proof {
                    assert(whole.take(i + 1).drop_last() =~= whole.take(i));
                    assert(whole.take(i + 1).last() == whole[i]);
                    assert(spec_functions_view(out@) =~= spec_functions_view(out_before).push(rf@));
                }
            },
            Err(e) => {
                proof {
                    lemma_functions_error_persists(*cfg, whole, i);
                }
                return Err(e);
            },
        }
    }
    proof {
        assert(whole.take(out@.len() as int) =~= whole);
    }
    Ok(out)
}

/// What the program converter returns: the functions in declaration order,
/// stopped at the first failure, which propagates unchanged.
pub open spec fn spec_convert_program(cfg: ExtensionConfig, p: SpecAbstractProgram) -> Result<
    SpecProgram,
    SpecPositionalConversionError,
> {
    match spec_convert_functions(cfg, p.functions) {
        Ok(fs) => Ok(SpecProgram { functions: fs }),
        Err(e) => Err(e),
    }
}

impl Program {
    /// The program converter: the whole pipeline, driven per function.
    pub fn convert(cfg: &ExtensionConfig, p: AbstractProgram) -> (r: Result<
        Program,
        PositionalConversionError,
    >)
        ensures
            match r {
                Ok(rp) => spec_convert_program(*cfg, p@) == Ok::<
                    SpecProgram,
                    SpecPositionalConversionError,
                >(rp@),
                Err(e) => spec_convert_program(*cfg, p@) == Err::<
                    SpecProgram,
                    SpecPositionalConversionError,
                >(e@),
            },
    {
        let AbstractProgram { functions } = p;
        proof {
            assert(p@.functions == spec_abstract_functions_view(functions@));
        }
        match convert_functions(cfg, functions) {
            Ok(fs) => {
                let rp = Program { functions: fs };
                proof {
                    assert(spec_convert_program(*cfg, p@) matches Ok(sp) && sp =~= rp@);
                }
                Ok(rp)
            },
            Err(e) => Err(e),
        }
    }
}

} // verus!
