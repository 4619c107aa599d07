//! Laws of the conversion pipeline, stated over the models that the
//! converters' own contracts use and proved once for every configuration and
//! input.

use vstd::prelude::*;
use crate::abstract_program::{SpecAbstractFunction, SpecAbstractInstruction, SpecAbstractProgram,
    SpecAbstractType, spec_type_text};
use crate::config::ExtensionConfig;
use crate::conversion::{
    SpecConversionError, SpecPositionalConversionError, lemma_args_error_persists,
    lemma_functions_error_persists, spec_convert_args, spec_convert_argument,
    spec_convert_function, spec_convert_functions, spec_convert_instruction, spec_convert_program,
    spec_effect_op, spec_resolve_type, spec_resolve_type_opt, spec_used_pos, spec_value_op,
};
use crate::program::{EffectOps, Literal, Position, SpecFunction, SpecInstruction, SpecProgram,
    Type, ValueOps};

verus! {

broadcast use vstd::string::group_string_axioms;

/// The concrete characters of every name in the closed vocabulary, and of
/// one name outside it, so that any two of them can be told apart.
proof fn lemma_name_literals()
    ensures
        "int"@ =~= seq!['i', 'n', 't'],
        "bool"@ =~= seq!['b', 'o', 'o', 'l'],
        "float"@ =~= seq!['f', 'l', 'o', 'a', 't'],
        "ptr"@ =~= seq!['p', 't', 'r'],
        "add"@ =~= seq!['a', 'd', 'd'],
        "mul"@ =~= seq!['m', 'u', 'l'],
        "div"@ =~= seq!['d', 'i', 'v'],
        "eq"@ =~= seq!['e', 'q'],
        "lt"@ =~= seq!['l', 't'],
        "gt"@ =~= seq!['g', 't'],
        "le"@ =~= seq!['l', 'e'],
        "ge"@ =~= seq!['g', 'e'],
        "not"@ =~= seq!['n', 'o', 't'],
        "and"@ =~= seq!['a', 'n', 'd'],
        "or"@ =~= seq!['o', 'r'],
        "call"@ =~= seq!['c', 'a', 'l', 'l'],
        "id"@ =~= seq!['i', 'd'],
        "sub"@ =~= seq!['s', 'u', 'b'],
        "phi"@ =~= seq!['p', 'h', 'i'],
        "fadd"@ =~= seq!['f', 'a', 'd', 'd'],
        "fsub"@ =~= seq!['f', 's', 'u', 'b'],
        "fmul"@ =~= seq!['f', 'm', 'u', 'l'],
        "fdiv"@ =~= seq!['f', 'd', 'i', 'v'],
        "feq"@ =~= seq!['f', 'e', 'q'],
        "flt"@ =~= seq!['f', 'l', 't'],
        "fgt"@ =~= seq!['f', 'g', 't'],
        "fle"@ =~= seq!['f', 'l', 'e'],
        "fge"@ =~= seq!['f', 'g', 'e'],
        "alloc"@ =~= seq!['a', 'l', 'l', 'o', 'c'],
        "load"@ =~= seq!['l', 'o', 'a', 'd'],
        "ptradd"@ =~= seq!['p', 't', 'r', 'a', 'd', 'd'],
        "jmp"@ =~= seq!['j', 'm', 'p'],
        "br"@ =~= seq!['b', 'r'],
        "ret"@ =~= seq!['r', 'e', 't'],
        "print"@ =~= seq!['p', 'r', 'i', 'n', 't'],
        "nop"@ =~= seq!['n', 'o', 'p'],
        "store"@ =~= seq!['s', 't', 'o', 'r', 'e'],
        "free"@ =~= seq!['f', 'r', 'e', 'e'],
        "speculate"@ =~= seq!['s', 'p', 'e', 'c', 'u', 'l', 'a', 't', 'e'],
        "commit"@ =~= seq!['c', 'o', 'm', 'm', 'i', 't'],
        "guard"@ =~= seq!['g', 'u', 'a', 'r', 'd'],
        "xor"@ =~= seq!['x', 'o', 'r'],
{
    reveal_strlit("int");
    reveal_strlit("bool");
    reveal_strlit("float");
    reveal_strlit("ptr");
    reveal_strlit("add");
    reveal_strlit("mul");
    reveal_strlit("div");
    reveal_strlit("eq");
    reveal_strlit("lt");
    reveal_strlit("gt");
    reveal_strlit("le");
    reveal_strlit("ge");
    reveal_strlit("not");
    reveal_strlit("and");
    reveal_strlit("or");
    reveal_strlit("call");
    reveal_strlit("id");
    reveal_strlit("sub");
    reveal_strlit("phi");
    reveal_strlit("fadd");
    reveal_strlit("fsub");
    reveal_strlit("fmul");
    reveal_strlit("fdiv");
    reveal_strlit("feq");
    reveal_strlit("flt");
    reveal_strlit("fgt");
    reveal_strlit("fle");
    reveal_strlit("fge");
    reveal_strlit("alloc");
    reveal_strlit("load");
    reveal_strlit("ptradd");
    reveal_strlit("jmp");
    reveal_strlit("br");
    reveal_strlit("ret");
    reveal_strlit("print");
    reveal_strlit("nop");
    reveal_strlit("store");
    reveal_strlit("free");
    reveal_strlit("speculate");
    reveal_strlit("commit");
    reveal_strlit("guard");
    reveal_strlit("xor");
}

/// Every recognized type name resolves, under any configuration that
/// recognizes it, to the expected closed variant: `int` and `bool` always,
/// `float` under the float extension, and `ptr<inner>` under the memory
/// extension whenever the inner expression itself resolves.
pub proof fn lemma_recognized_type_names(cfg: ExtensionConfig, inner: SpecAbstractType)
    ensures
        spec_resolve_type(cfg, SpecAbstractType::Primitive("int"@)) == Ok::<
            Type,
            SpecConversionError,
        >(Type::Int),
        spec_resolve_type(cfg, SpecAbstractType::Primitive("bool"@)) == Ok::<
            Type,
            SpecConversionError,
        >(Type::Bool),
        cfg.float ==> spec_resolve_type(cfg, SpecAbstractType::Primitive("float"@)) == Ok::<
            Type,
            SpecConversionError,
        >(Type::Float),
        cfg.memory && spec_resolve_type(cfg, inner) is Ok ==> spec_resolve_type(
            cfg,
            SpecAbstractType::Parameterized("ptr"@, Box::new(inner)),
        ) == Ok::<Type, SpecConversionError>(
            Type::Pointer(Box::new(spec_resolve_type(cfg, inner)->Ok_0)),
        ),
{
    lemma_name_literals();
}

/// A value-operation name outside the active recognized set fails the
/// enclosing value instruction with `InvalidValueOps` carrying the exact
/// original string, annotated with the instruction's position, whenever the
/// declared type itself resolves.
pub proof fn lemma_unrecognized_value_op_fails(
    cfg: ExtensionConfig,
    args: Seq<Seq<char>>,
    dest: Seq<char>,
    funcs: Seq<Seq<char>>,
    labels: Seq<Seq<char>>,
    op: Seq<char>,
    op_type: Option<SpecAbstractType>,
    pos: Option<Position>,
)
    requires
        spec_resolve_type_opt(cfg, op_type) is Ok,
        spec_value_op(cfg, op) is None,
    ensures
        spec_convert_instruction(
            cfg,
            SpecAbstractInstruction::Value { args, dest, funcs, labels, op, op_type, pos },
        ) == Err::<SpecInstruction, SpecPositionalConversionError>(
            SpecPositionalConversionError {
                e: SpecConversionError::InvalidValueOps(op),
                pos: spec_used_pos(cfg, pos),
            },
        ),
{
}

/// An effect-operation name outside the active recognized set fails the
/// enclosing effect instruction with `InvalidEffectOps` carrying the exact
/// original string, annotated with the instruction's position.
pub proof fn lemma_unrecognized_effect_op_fails(
    cfg: ExtensionConfig,
    args: Seq<Seq<char>>,
    funcs: Seq<Seq<char>>,
    labels: Seq<Seq<char>>,
    op: Seq<char>,
    pos: Option<Position>,
)
    requires
        spec_effect_op(cfg, op) is None,
    ensures
        spec_convert_instruction(
            cfg,
            SpecAbstractInstruction::Effect { args, funcs, labels, op, pos },
        ) == Err::<SpecInstruction, SpecPositionalConversionError>(
            SpecPositionalConversionError {
                e: SpecConversionError::InvalidEffectOps(op),
                pos: spec_used_pos(cfg, pos),
            },
        ),
{
}

/// The float extension gates exactly its vocabulary: with the flag off, the
/// `float` type name and every float operation name fail as invalid; with the
/// flag on, each resolves to its tag.
pub proof fn lemma_float_gating(cfg: ExtensionConfig)
    ensures
        !cfg.float ==> spec_resolve_type(cfg, SpecAbstractType::Primitive("float"@)) == Err::<
            Type,
            SpecConversionError,
        >(SpecConversionError::InvalidPrimitive("float"@)),
        spec_value_op(cfg, "fadd"@) == (if cfg.float {
            Some(ValueOps::Fadd)
        } else {
            None
        }),
        spec_value_op(cfg, "fsub"@) == (if cfg.float {
            Some(ValueOps::Fsub)
        } else {
            None
        }),
        spec_value_op(cfg, "fmul"@) == (if cfg.float {
            Some(ValueOps::Fmul)
        } else {
            None
        }),
        spec_value_op(cfg, "fdiv"@) == (if cfg.float {
            Some(ValueOps::Fdiv)
        } else {
            None
        }),
        spec_value_op(cfg, "feq"@) == (if cfg.float {
            Some(ValueOps::Feq)
        } else {
            None
        }),
        spec_value_op(cfg, "flt"@) == (if cfg.float {
            Some(ValueOps::Flt)
        } else {
            None
        }),
        spec_value_op(cfg, "fgt"@) == (if cfg.float {
            Some(ValueOps::Fgt)
        } else {
            None
        }),
        spec_value_op(cfg, "fle"@) == (if cfg.float {
            Some(ValueOps::Fle)
        } else {
            None
        }),
        spec_value_op(cfg, "fge"@) == (if cfg.float {
            Some(ValueOps::Fge)
        } else {
            None
        }),
{
    lemma_name_literals();
}

/// The memory extension gates exactly its vocabulary: the `ptr` type form,
/// the heap value operations and the heap effect operations.
pub proof fn lemma_memory_gating(cfg: ExtensionConfig, inner: SpecAbstractType)
    ensures
        !cfg.memory ==> spec_resolve_type(
            cfg,
            SpecAbstractType::Parameterized("ptr"@, Box::new(inner)),
        ) == Err::<Type, SpecConversionError>(
            SpecConversionError::InvalidParameterized(
                "ptr"@,
                spec_type_text(inner),
            ),
        ),
        spec_value_op(cfg, "alloc"@) == (if cfg.memory {
            Some(ValueOps::Alloc)
        } else {
            None
        }),
        spec_value_op(cfg, "load"@) == (if cfg.memory {
            Some(ValueOps::Load)
        } else {
            None
        }),
        spec_value_op(cfg, "ptradd"@) == (if cfg.memory {
            Some(ValueOps::PtrAdd)
        } else {
            None
        }),
        spec_effect_op(cfg, "store"@) == (if cfg.memory {
            Some(EffectOps::Store)
        } else {
            None
        }),
        spec_effect_op(cfg, "free"@) == (if cfg.memory {
            Some(EffectOps::Free)
        } else {
            None
        }),
{
    lemma_name_literals();
}

/// The ssa extension gates exactly `phi`.
pub proof fn lemma_ssa_gating(cfg: ExtensionConfig)
    ensures
        spec_value_op(cfg, "phi"@) == (if cfg.ssa {
            Some(ValueOps::Phi)
        } else {
            None
        }),
{
    lemma_name_literals();
}

/// The speculation extension gates exactly `speculate`, `commit` and
/// `guard`.
pub proof fn lemma_speculation_gating(cfg: ExtensionConfig)
    ensures
        spec_effect_op(cfg, "speculate"@) == (if cfg.speculate {
            Some(EffectOps::Speculate)
        } else {
            None
        }),
        spec_effect_op(cfg, "commit"@) == (if cfg.speculate {
            Some(EffectOps::Commit)
        } else {
            None
        }),
        spec_effect_op(cfg, "guard"@) == (if cfg.speculate {
            Some(EffectOps::Guard)
        } else {
            None
        }),
{
    lemma_name_literals();
}

/// `xor` is never a value operation, whatever the configuration: a value
/// instruction naming it fails with `InvalidValueOps("xor")` whenever its
/// declared type resolves.
pub proof fn lemma_xor_never_a_value_op(
    cfg: ExtensionConfig,
    args: Seq<Seq<char>>,
    dest: Seq<char>,
    funcs: Seq<Seq<char>>,
    labels: Seq<Seq<char>>,
    op_type: Option<SpecAbstractType>,
    pos: Option<Position>,
)
    requires
        spec_resolve_type_opt(cfg, op_type) is Ok,
    ensures
        spec_value_op(cfg, "xor"@) is None,
        spec_convert_instruction(
            cfg,
            SpecAbstractInstruction::Value {
                args,
                dest,
                funcs,
                labels,
                op: "xor"@,
                op_type,
                pos,
            },
        ) == Err::<SpecInstruction, SpecPositionalConversionError>(
            SpecPositionalConversionError {
                e: SpecConversionError::InvalidValueOps("xor"@),
                pos: spec_used_pos(cfg, pos),
            },
        ),
{
    lemma_name_literals();
}

/// A missing type annotation where one is required yields `MissingType`,
/// regardless of the extension configuration, and fails a constant
/// instruction at its own position.
pub proof fn lemma_missing_type_fails(
    cfg: ExtensionConfig,
    dest: Seq<char>,
    value: Literal,
    pos: Option<Position>,
)
    ensures
        spec_resolve_type_opt(cfg, None) == Err::<Type, SpecConversionError>(
            SpecConversionError::MissingType,
        ),
        spec_convert_instruction(
            cfg,
            SpecAbstractInstruction::Constant { dest, const_type: None, value, pos },
        ) == Err::<SpecInstruction, SpecPositionalConversionError>(
            SpecPositionalConversionError {
                e: SpecConversionError::MissingType,
                pos: spec_used_pos(cfg, pos),
            },
        ),
{
}

/// A function whose first argument fails converts to that argument's error,
/// annotated with the function's own position — never to a code-list error,
/// however malformed the code list is.
pub proof fn lemma_first_argument_error_blamed_on_function(
    cfg: ExtensionConfig,
    f: SpecAbstractFunction,
)
    requires
        f.args.len() > 0,
        spec_convert_argument(cfg, f.args[0]) is Err,
    ensures
        spec_convert_function(cfg, f) == Err::<SpecFunction, SpecPositionalConversionError>(
            SpecPositionalConversionError {
                e: spec_convert_argument(cfg, f.args[0])->Err_0,
                pos: spec_used_pos(cfg, f.pos),
            },
        ),
{
    assert(spec_convert_args(cfg, f.args.take(0)) is Ok) by {
        assert(f.args.take(0) =~= Seq::empty());
    }
    lemma_args_error_persists(cfg, f.args, 0);
}

/// A program whose first function fails converts to exactly that function's
/// error: the remaining functions are never consulted.
pub proof fn lemma_first_function_error_wins(cfg: ExtensionConfig, p: SpecAbstractProgram)
    requires
        p.functions.len() > 0,
        spec_convert_function(cfg, p.functions[0]) is Err,
    ensures
        spec_convert_program(cfg, p) == Err::<SpecProgram, SpecPositionalConversionError>(
            spec_convert_function(cfg, p.functions[0])->Err_0,
        ),
{
    assert(spec_convert_functions(cfg, p.functions.take(0)) is Ok) by {
        assert(p.functions.take(0) =~= Seq::empty());
    }
    lemma_functions_error_persists(cfg, p.functions, 0);
}

} // verus!
