use bril_rs::abstract_program::{
    AbstractArgument, AbstractCode, AbstractFunction, AbstractInstruction, AbstractProgram,
    AbstractType,
};
use bril_rs::config::ExtensionConfig;
use bril_rs::conversion::{ConversionError, PositionalConversionError};
use bril_rs::program::{
    Argument, Code, EffectOps, Function, Instruction, Literal, Position, Program, Type, ValueOps,
};

fn all_on() -> ExtensionConfig {
    ExtensionConfig { position: true, float: true, memory: true, ssa: true, speculate: true }
}

fn core_only() -> ExtensionConfig {
    ExtensionConfig::minimal()
}

fn prim(name: &str) -> AbstractType {
    AbstractType::Primitive(name.to_string())
}

fn param(name: &str, inner: AbstractType) -> AbstractType {
    AbstractType::Parameterized(name.to_string(), Box::new(inner))
}

#[test]
fn int_and_bool_resolve_in_every_configuration() {
    for cfg in [core_only(), all_on()] {
        assert_eq!(Type::resolve(&cfg, prim("int")), Ok(Type::Int));
        assert_eq!(Type::resolve(&cfg, prim("bool")), Ok(Type::Bool));
    }
}

#[test]
fn float_resolves_only_under_float_extension() {
    assert_eq!(Type::resolve(&all_on(), prim("float")), Ok(Type::Float));
    assert_eq!(
        Type::resolve(&core_only(), prim("float")),
        Err(ConversionError::InvalidPrimitive("float".to_string()))
    );
}

#[test]
fn pointer_resolves_only_under_memory_extension() {
    assert_eq!(
        Type::resolve(&all_on(), param("ptr", prim("int"))),
        Ok(Type::Pointer(Box::new(Type::Int)))
    );
    assert_eq!(
        Type::resolve(&core_only(), param("ptr", prim("int"))),
        Err(ConversionError::InvalidParameterized("ptr".to_string(), "int".to_string()))
    );
}

#[test]
fn nested_pointer_resolves_recursively() {
    assert_eq!(
        Type::resolve(&all_on(), param("ptr", param("ptr", prim("bool")))),
        Ok(Type::Pointer(Box::new(Type::Pointer(Box::new(Type::Bool)))))
    );
}

#[test]
fn inner_failure_of_a_pointer_propagates_unchanged() {
    assert_eq!(
        Type::resolve(&all_on(), param("ptr", prim("char"))),
        Err(ConversionError::InvalidPrimitive("char".to_string()))
    );
}

#[test]
fn unknown_parameterized_name_reports_inner_as_text() {
    assert_eq!(
        Type::resolve(&all_on(), param("vec", param("ptr", prim("int")))),
        Err(ConversionError::InvalidParameterized("vec".to_string(), "ptr<int>".to_string()))
    );
}

#[test]
fn missing_type_where_one_is_required() {
    for cfg in [core_only(), all_on()] {
        assert_eq!(Type::resolve_optional(&cfg, None), Err(ConversionError::MissingType));
    }
}

#[test]
fn constant_with_int_type_converts() {
    let abstract_instr = AbstractInstruction::Constant {
        dest: "v0".to_string(),
        const_type: Some(prim("int")),
        value: Literal::Int(4),
        pos: None,
    };
    let expected = Instruction::Constant {
        dest: "v0".to_string(),
        const_type: Type::Int,
        value: Literal::Int(4),
        pos: None,
    };
    assert_eq!(Instruction::convert(&core_only(), abstract_instr), Ok(expected));
}

#[test]
fn constant_without_a_type_fails_with_missing_type() {
    let pos = Some(Position { row: 7, col: 2 });
    let abstract_instr = AbstractInstruction::Constant {
        dest: "v0".to_string(),
        const_type: None,
        value: Literal::Bool(true),
        pos,
    };
    let cfg = ExtensionConfig { position: true, ..core_only() };
    assert_eq!(
        Instruction::convert(&cfg, abstract_instr),
        Err(PositionalConversionError { e: Box::new(ConversionError::MissingType), pos })
    );
}

#[test]
fn position_is_omitted_when_tracking_is_off() {
    let abstract_instr = AbstractInstruction::Constant {
        dest: "v0".to_string(),
        const_type: None,
        value: Literal::Int(0),
        pos: Some(Position { row: 7, col: 2 }),
    };
    assert_eq!(
        Instruction::convert(&core_only(), abstract_instr),
        Err(PositionalConversionError { e: Box::new(ConversionError::MissingType), pos: None })
    );
}

fn value_instr(op: &str, op_type: Option<AbstractType>) -> AbstractInstruction {
    AbstractInstruction::Value {
        args: vec!["a".to_string(), "b".to_string()],
        dest: "v1".to_string(),
        funcs: vec![],
        labels: vec![],
        op: op.to_string(),
        op_type,
        pos: None,
    }
}

fn effect_instr(op: &str) -> AbstractInstruction {
    AbstractInstruction::Effect {
        args: vec![],
        funcs: vec![],
        labels: vec!["somewhere".to_string()],
        op: op.to_string(),
        pos: None,
    }
}

#[test]
fn add_converts_to_its_tag() {
    let converted = Instruction::convert(&core_only(), value_instr("add", Some(prim("int"))));
    let expected = Instruction::Value {
        args: vec!["a".to_string(), "b".to_string()],
        dest: "v1".to_string(),
        funcs: vec![],
        labels: vec![],
        op: ValueOps::Add,
        op_type: Type::Int,
        pos: None,
    };
    assert_eq!(converted, Ok(expected));
}

#[test]
fn xor_fails_under_any_configuration() {
    for cfg in [core_only(), all_on()] {
        assert_eq!(
            Instruction::convert(&cfg, value_instr("xor", Some(prim("int")))),
            Err(PositionalConversionError {
                e: Box::new(ConversionError::InvalidValueOps("xor".to_string())),
                pos: None,
            })
        );
    }
}

#[test]
fn unknown_effect_name_carries_the_exact_token() {
    assert_eq!(
        Instruction::convert(&all_on(), effect_instr("halt")),
        Err(PositionalConversionError {
            e: Box::new(ConversionError::InvalidEffectOps("halt".to_string())),
            pos: None,
        })
    );
}

#[test]
fn value_instruction_without_a_type_fails_before_its_operation() {
    // The declared type is resolved first, so even an unknown operation name
    // is reported as a missing type when the annotation is absent.
    assert_eq!(
        Instruction::convert(&core_only(), value_instr("xor", None)),
        Err(PositionalConversionError { e: Box::new(ConversionError::MissingType), pos: None })
    );
}

#[test]
fn fadd_is_gated_by_the_float_extension() {
    let with_float = ExtensionConfig { float: true, ..core_only() };
    let converted = Instruction::convert(&with_float, value_instr("fadd", Some(prim("float"))));
    match converted {
        Ok(Instruction::Value { op, op_type, .. }) => {
            assert_eq!(op, ValueOps::Fadd);
            assert_eq!(op_type, Type::Float);
        }
        other => panic!("expected a converted value instruction, got {:?}", other),
    }
    assert_eq!(
        Instruction::convert(&core_only(), value_instr("fadd", Some(prim("int")))),
        Err(PositionalConversionError {
            e: Box::new(ConversionError::InvalidValueOps("fadd".to_string())),
            pos: None,
        })
    );
}

#[test]
fn phi_is_gated_by_the_ssa_extension() {
    let with_ssa = ExtensionConfig { ssa: true, ..core_only() };
    match Instruction::convert(&with_ssa, value_instr("phi", Some(prim("int")))) {
        Ok(Instruction::Value { op, .. }) => assert_eq!(op, ValueOps::Phi),
        other => panic!("expected a converted value instruction, got {:?}", other),
    }
    assert_eq!(
        Instruction::convert(&core_only(), value_instr("phi", Some(prim("int")))),
        Err(PositionalConversionError {
            e: Box::new(ConversionError::InvalidValueOps("phi".to_string())),
            pos: None,
        })
    );
}

#[test]
fn heap_operations_are_gated_by_the_memory_extension() {
    let with_memory = ExtensionConfig { memory: true, ..core_only() };
    match Instruction::convert(&with_memory, value_instr("alloc", Some(param("ptr", prim("int")))))
    {
        Ok(Instruction::Value { op, .. }) => assert_eq!(op, ValueOps::Alloc),
        other => panic!("expected a converted value instruction, got {:?}", other),
    }
    match Instruction::convert(&with_memory, effect_instr("store")) {
        Ok(Instruction::Effect { op, .. }) => assert_eq!(op, EffectOps::Store),
        other => panic!("expected a converted effect instruction, got {:?}", other),
    }
    assert_eq!(
        Instruction::convert(&core_only(), effect_instr("free")),
        Err(PositionalConversionError {
            e: Box::new(ConversionError::InvalidEffectOps("free".to_string())),
            pos: None,
        })
    );
}

#[test]
fn speculation_operations_are_gated_by_their_extension() {
    let with_speculation = ExtensionConfig { speculate: true, ..core_only() };
    match Instruction::convert(&with_speculation, effect_instr("guard")) {
        Ok(Instruction::Effect { op, .. }) => assert_eq!(op, EffectOps::Guard),
        other => panic!("expected a converted effect instruction, got {:?}", other),
    }
    assert_eq!(
        Instruction::convert(&core_only(), effect_instr("speculate")),
        Err(PositionalConversionError {
            e: Box::new(ConversionError::InvalidEffectOps("speculate".to_string())),
            pos: None,
        })
    );
}

#[test]
fn label_passes_through_unchanged() {
    let pos = Some(Position { row: 3, col: 1 });
    let converted = Code::convert(
        &all_on(),
        AbstractCode::Label { label: "loop_head".to_string(), pos },
    );
    assert_eq!(converted, Ok(Code::Label { label: "loop_head".to_string(), pos }));
}

#[test]
fn argument_conversion_returns_the_bare_reason() {
    let cfg = core_only();
    let good = AbstractArgument { name: "x".to_string(), arg_type: prim("int") };
    assert_eq!(
        Argument::convert(&cfg, good),
        Ok(Argument { name: "x".to_string(), arg_type: Type::Int })
    );
    let bad = AbstractArgument { name: "y".to_string(), arg_type: prim("str") };
    assert_eq!(
        Argument::convert(&cfg, bad),
        Err(ConversionError::InvalidPrimitive("str".to_string()))
    );
}

fn function_with(
    args: Vec<AbstractArgument>,
    instrs: Vec<AbstractCode>,
    return_type: Option<AbstractType>,
    pos: Option<Position>,
) -> AbstractFunction {
    AbstractFunction { name: "main".to_string(), args, instrs, return_type, pos }
}

#[test]
fn well_formed_function_converts_whole() {
    let cfg = ExtensionConfig { position: true, ..core_only() };
    let f = function_with(
        vec![AbstractArgument { name: "x".to_string(), arg_type: prim("int") }],
        vec![
            AbstractCode::Label { label: "entry".to_string(), pos: None },
            AbstractCode::Instruction(AbstractInstruction::Effect {
                args: vec!["x".to_string()],
                funcs: vec![],
                labels: vec![],
                op: "print".to_string(),
                pos: None,
            }),
        ],
        Some(prim("bool")),
        Some(Position { row: 1, col: 1 }),
    );
    let expected = Function {
        name: "main".to_string(),
        args: vec![Argument { name: "x".to_string(), arg_type: Type::Int }],
        instrs: vec![
            Code::Label { label: "entry".to_string(), pos: None },
            Code::Instruction(Instruction::Effect {
                args: vec!["x".to_string()],
                funcs: vec![],
                labels: vec![],
                op: EffectOps::Print,
                pos: None,
            }),
        ],
        return_type: Some(Type::Bool),
        pos: Some(Position { row: 1, col: 1 }),
    };
    assert_eq!(Function::convert(&cfg, f), Ok(expected));
}

#[test]
fn first_argument_error_is_blamed_on_the_function() {
    // The code list is also malformed; the argument error must win and carry
    // the function's own position.
    let cfg = ExtensionConfig { position: true, ..core_only() };
    let f = function_with(
        vec![
            AbstractArgument { name: "x".to_string(), arg_type: prim("str") },
            AbstractArgument { name: "y".to_string(), arg_type: prim("int") },
        ],
        vec![AbstractCode::Instruction(AbstractInstruction::Effect {
            args: vec![],
            funcs: vec![],
            labels: vec![],
            op: "halt".to_string(),
            pos: Some(Position { row: 9, col: 9 }),
        })],
        None,
        Some(Position { row: 4, col: 2 }),
    );
    assert_eq!(
        Function::convert(&cfg, f),
        Err(PositionalConversionError {
            e: Box::new(ConversionError::InvalidPrimitive("str".to_string())),
            pos: Some(Position { row: 4, col: 2 }),
        })
    );
}

#[test]
fn code_list_error_keeps_the_instruction_position() {
    let cfg = ExtensionConfig { position: true, ..core_only() };
    let f = function_with(
        vec![],
        vec![AbstractCode::Instruction(AbstractInstruction::Effect {
            args: vec![],
            funcs: vec![],
            labels: vec![],
            op: "halt".to_string(),
            pos: Some(Position { row: 9, col: 9 }),
        })],
        None,
        Some(Position { row: 4, col: 2 }),
    );
    assert_eq!(
        Function::convert(&cfg, f),
        Err(PositionalConversionError {
            e: Box::new(ConversionError::InvalidEffectOps("halt".to_string())),
            pos: Some(Position { row: 9, col: 9 }),
        })
    );
}

#[test]
fn invalid_return_type_is_blamed_on_the_function() {
    let cfg = ExtensionConfig { position: true, ..core_only() };
    let f = function_with(vec![], vec![], Some(prim("void")), Some(Position { row: 2, col: 8 }));
    assert_eq!(
        Function::convert(&cfg, f),
        Err(PositionalConversionError {
            e: Box::new(ConversionError::InvalidPrimitive("void".to_string())),
            pos: Some(Position { row: 2, col: 8 }),
        })
    );
}

#[test]
fn missing_return_type_is_valid() {
    let cfg = core_only();
    let f = function_with(vec![], vec![], None, None);
    let converted = Function::convert(&cfg, f).expect("a function without a return type is valid");
    assert_eq!(converted.return_type, None);
}

#[test]
fn program_of_two_functions_reports_only_the_first_error() {
    let cfg = ExtensionConfig { position: true, ..core_only() };
    let bad = function_with(
        vec![AbstractArgument { name: "x".to_string(), arg_type: prim("quux") }],
        vec![],
        None,
        Some(Position { row: 1, col: 1 }),
    );
    let good = function_with(vec![], vec![], None, Some(Position { row: 10, col: 1 }));
    let p = AbstractProgram { functions: vec![bad, good] };
    assert_eq!(
        Program::convert(&cfg, p),
        Err(PositionalConversionError {
            e: Box::new(ConversionError::InvalidPrimitive("quux".to_string())),
            pos: Some(Position { row: 1, col: 1 }),
        })
    );
}

#[test]
fn whole_program_converts_in_declaration_order() {
    let cfg = core_only();
    let first = function_with(vec![], vec![], None, None);
    let second = AbstractFunction {
        name: "helper".to_string(),
        args: vec![AbstractArgument { name: "n".to_string(), arg_type: prim("int") }],
        instrs: vec![],
        return_type: Some(prim("int")),
        pos: None,
    };
    let p = AbstractProgram { functions: vec![first, second] };
    let converted = Program::convert(&cfg, p).expect("both functions are well-formed");
    assert_eq!(converted.functions.len(), 2);
    assert_eq!(converted.functions[0].name, "main");
    assert_eq!(converted.functions[1].name, "helper");
    assert_eq!(converted.functions[1].return_type, Some(Type::Int));
}

#[test]
fn empty_program_converts_to_an_empty_program() {
    let p = AbstractProgram { functions: vec![] };
    assert_eq!(Program::convert(&core_only(), p), Ok(Program { functions: vec![] }));
}

#[test]
fn add_pos_and_new_build_the_positioned_error() {
    let bare = PositionalConversionError::new(ConversionError::MissingType);
    assert_eq!(bare.pos, None);
    assert_eq!(*bare.e, ConversionError::MissingType);

    let pos = Some(Position { row: 12, col: 34 });
    let positioned = ConversionError::InvalidValueOps("xor".to_string()).add_pos(pos);
    assert_eq!(positioned.pos, pos);
    assert_eq!(*positioned.e, ConversionError::InvalidValueOps("xor".to_string()));
}
