use thrushc::codegen::{
    asm_function_plan, bool_binaryop_route, compiles_as_pointer, const_int, const_unary_plan,
    expression_route, function_plan, local_allocation, local_kind, local_store,
    loose_binaryop_plan, mutation_plan, parameter_needs_slot, unary_op_plan, write_target,
    Allocation, AsmDialect, BinaryFamily, BoolRoute, ConstUnaryPlan, ExprRoute,
    LLVMAttribute, IntConstant, LocalKind, MutationPlan, Shape, StorePlan, UnaryPlan,
    WriteTarget,
};
use thrushc::issue::Span;
use thrushc::parser::{ReferenceIdentificator, ThrushStatement};
use thrushc::tokens::{TokenKind, Type};
use thrushc::types::ThrushType;
use std::sync::Arc;

fn span() -> Span {
    Span { line: 1, start: 0, end: 3 }
}

fn reference(kind: ThrushType, identificator: ReferenceIdentificator) -> ThrushStatement {
    ThrushStatement::Reference {
        name: String::from("x"),
        kind,
        span: span(),
        identificator,
        is_mutable: true,
        is_allocated: true,
    }
}

#[test]
fn const_int_signed_types_negate_when_signed() {
    assert_eq!(
        const_int(&ThrushType::S32, 7, true),
        IntConstant { width: 32, value: 7, sign_extend: true, negate: true }
    );
    assert_eq!(
        const_int(&ThrushType::S16, 7, false),
        IntConstant { width: 16, value: 7, sign_extend: false, negate: false }
    );
}

#[test]
fn const_int_unsigned_and_bool_ignore_the_sign() {
    assert_eq!(
        const_int(&ThrushType::U8, 200, true),
        IntConstant { width: 8, value: 200, sign_extend: false, negate: false }
    );
    assert_eq!(
        const_int(&ThrushType::Bool, 1, true),
        IntConstant { width: 1, value: 1, sign_extend: false, negate: false }
    );
}

#[test]
fn const_int_char_is_always_negated() {
    assert_eq!(
        const_int(&ThrushType::Char, 65, false),
        IntConstant { width: 8, value: 65, sign_extend: false, negate: true }
    );
}

#[test]
fn unary_plan_steps_integer_locals() {
    let operand = reference(ThrushType::S32, ReferenceIdentificator::Local);
    assert_eq!(
        unary_op_plan(&TokenKind::PlusPlus, &operand),
        Some(UnaryPlan::Step { integer: true, increment: true })
    );
    let float_operand = reference(ThrushType::F64, ReferenceIdentificator::Local);
    assert_eq!(
        unary_op_plan(&TokenKind::MinusMinus, &float_operand),
        Some(UnaryPlan::Step { integer: false, increment: false })
    );
}

#[test]
fn unary_plan_refuses_stepping_constants() {
    let operand = reference(ThrushType::S32, ReferenceIdentificator::Constant);
    assert_eq!(unary_op_plan(&TokenKind::PlusPlus, &operand), None);
}

#[test]
fn unary_plan_inverts_booleans_and_negates_literals() {
    let flag = reference(ThrushType::Bool, ReferenceIdentificator::Constant);
    assert_eq!(
        unary_op_plan(&TokenKind::Bang, &flag),
        Some(UnaryPlan::Invert { integer: true })
    );
    let literal = ThrushStatement::Boolean { kind: ThrushType::Bool, value: 1, span: span() };
    assert_eq!(
        unary_op_plan(&TokenKind::Bang, &literal),
        Some(UnaryPlan::InvertBool { value: 1 })
    );
    let number = ThrushStatement::Integer { kind: ThrushType::S8, value: 3, signed: false, span: span() };
    assert_eq!(
        unary_op_plan(&TokenKind::Minus, &number),
        Some(UnaryPlan::IntegerConstant { complement: true })
    );
    let real = ThrushStatement::Float { kind: ThrushType::F32, value: 2, signed: true, span: span() };
    assert_eq!(
        unary_op_plan(&TokenKind::Minus, &real),
        Some(UnaryPlan::FloatConstant { negate: false })
    );
    assert_eq!(unary_op_plan(&TokenKind::Plus, &real), None);
}

#[test]
fn bool_route_between_literals_goes_by_left_type() {
    let r = bool_binaryop_route(
        &Shape::Integer(Type::S32),
        &TokenKind::EqEq,
        &Shape::Float(Type::F32),
        &Type::S32,
        &Type::F32,
    );
    assert_eq!(r, Some(BoolRoute::Integer));
}

#[test]
fn bool_route_call_then_literal_goes_by_right_type() {
    let r = bool_binaryop_route(
        &Shape::Call(Type::S32),
        &TokenKind::Less,
        &Shape::Float(Type::F64),
        &Type::S32,
        &Type::F64,
    );
    assert_eq!(r, Some(BoolRoute::Float));
}

#[test]
fn bool_route_logic_between_operations() {
    let r = bool_binaryop_route(
        &Shape::BinaryOp(Type::Bool),
        &TokenKind::And,
        &Shape::Group(Box::new(Shape::Other)),
        &Type::F32,
        &Type::Bool,
    );
    assert_eq!(r, Some(BoolRoute::FloatSidesThenInteger));
    let r = bool_binaryop_route(
        &Shape::BinaryOp(Type::Bool),
        &TokenKind::Or,
        &Shape::BinaryOp(Type::Bool),
        &Type::Bool,
        &Type::Bool,
    );
    assert_eq!(r, Some(BoolRoute::Integer));
}

#[test]
fn bool_route_unsupported_cases() {
    let comparison_of_operations = bool_binaryop_route(
        &Shape::BinaryOp(Type::Bool),
        &TokenKind::EqEq,
        &Shape::BinaryOp(Type::Bool),
        &Type::Bool,
        &Type::Bool,
    );
    assert_eq!(comparison_of_operations, None);
    let string_literals = bool_binaryop_route(
        &Shape::LocalRef(Type::Str),
        &TokenKind::EqEq,
        &Shape::LocalRef(Type::Str),
        &Type::Str,
        &Type::Str,
    );
    assert_eq!(string_literals, None);
}

#[test]
fn expression_routes_by_shape_and_type() {
    assert_eq!(expression_route(&Shape::NullT), Some(ExprRoute::NullPointer));
    assert_eq!(expression_route(&Shape::LocalRef(Type::F64)), Some(ExprRoute::LoadFloat));
    assert_eq!(expression_route(&Shape::LocalRef(Type::Bool)), Some(ExprRoute::LoadInteger));
    assert_eq!(expression_route(&Shape::LocalRef(Type::Str)), Some(ExprRoute::Pointer));
    assert_eq!(expression_route(&Shape::LocalRef(Type::Struct)), Some(ExprRoute::LoadStruct));
    assert_eq!(expression_route(&Shape::LocalRef(Type::Void)), None);
    assert_eq!(expression_route(&Shape::BinaryOp(Type::U8)), Some(ExprRoute::IntegerBinary));
    assert_eq!(expression_route(&Shape::BinaryOp(Type::Bool)), Some(ExprRoute::BoolBinary));
    assert_eq!(expression_route(&Shape::Return(Type::Void)), Some(ExprRoute::ReturnVoid));
    assert_eq!(expression_route(&Shape::Return(Type::S64)), Some(ExprRoute::ReturnValue));
    assert_eq!(expression_route(&Shape::InitStruct), None);
}

#[test]
fn local_kinds_by_type() {
    assert_eq!(local_kind(&Type::T), Some(LocalKind::Ptr));
    assert_eq!(local_kind(&Type::Str), Some(LocalKind::Str));
    assert_eq!(local_kind(&Type::Char), Some(LocalKind::Integer));
    assert_eq!(local_kind(&Type::F32), Some(LocalKind::Float));
    assert_eq!(local_kind(&Type::Bool), Some(LocalKind::Bool));
    assert_eq!(local_kind(&Type::Void), None);
}

#[test]
fn local_store_plans() {
    assert_eq!(local_store(LocalKind::Integer, &Shape::Null), Some(StorePlan::Zero));
    assert_eq!(local_store(LocalKind::Integer, &Shape::Char), Some(StorePlan::Constant));
    assert_eq!(
        local_store(LocalKind::Bool, &Shape::LocalRef(Type::Bool)),
        Some(StorePlan::LoadRef { load_as_float: true, cast_as_float: false })
    );
    assert_eq!(
        local_store(LocalKind::Float, &Shape::Call(Type::F64)),
        Some(StorePlan::CallThenCast { cast_as_float: true })
    );
    assert_eq!(
        local_store(LocalKind::Integer, &Shape::Group(Box::new(Shape::BinaryOp(Type::S32)))),
        Some(StorePlan::IntegerBinary)
    );
    assert_eq!(local_store(LocalKind::Float, &Shape::Group(Box::new(Shape::Null))), None);
    assert_eq!(local_store(LocalKind::Integer, &Shape::Float(Type::F32)), None);
}

#[test]
fn pointer_and_string_allocation() {
    assert_eq!(local_allocation(LocalKind::Ptr, &Shape::NullT), Some(Allocation::Stack));
    assert_eq!(local_allocation(LocalKind::Ptr, &Shape::Call(Type::T)), Some(Allocation::Heap));
    assert_eq!(local_allocation(LocalKind::Str, &Shape::Str), Some(Allocation::Static));
    assert_eq!(local_allocation(LocalKind::Str, &Shape::Gep), None);
}

#[test]
fn mutation_plans() {
    assert_eq!(
        mutation_plan(&Type::Struct, &Shape::LocalMut(Type::Struct)),
        Some(MutationPlan::StoreExpression)
    );
    assert_eq!(
        mutation_plan(&Type::U32, &Shape::Integer(Type::U32)),
        Some(MutationPlan::Reinitialize(LocalKind::Integer))
    );
    assert_eq!(mutation_plan(&Type::Str, &Shape::Str), None);
}

#[test]
fn asm_function_plan_reads_attributes() {
    let attrs = vec![
        LLVMAttribute::Convention(8),
        LLVMAttribute::AsmSyntax(AsmDialect::Att),
        LLVMAttribute::AsmSideEffects,
        LLVMAttribute::Convention(9),
    ];
    let plan = asm_function_plan("add", &attrs);
    assert_eq!(plan.symbol, "__asm_fn_add");
    assert_eq!(plan.convention, 9);
    assert_eq!(plan.dialect, AsmDialect::Att);
    assert!(plan.side_effects);
    assert!(!plan.align_stack);
    assert!(!plan.can_throw);
    assert!(plan.private_linkage);
}

#[test]
fn asm_function_plan_defaults() {
    let plan = asm_function_plan("f", &vec![LLVMAttribute::Public]);
    assert_eq!(plan.convention, 0);
    assert_eq!(plan.dialect, AsmDialect::Intel);
    assert!(!plan.private_linkage);
}

#[test]
fn function_plan_uses_external_name() {
    let attrs = vec![LLVMAttribute::Extern(String::from("puts")), LLVMAttribute::Ignore];
    let plan = function_plan("print", &attrs);
    assert_eq!(plan.symbol, "puts");
    assert!(plan.ignore_args);
    assert!(!plan.private_linkage);
    let private = function_plan("helper", &vec![]);
    assert_eq!(private.symbol, "helper");
    assert!(private.private_linkage);
}

#[test]
fn pointer_compilation_choice() {
    let ptr = ThrushType::Ptr(None);
    let mutable = ThrushType::Mut(Arc::new(ThrushType::S32));
    assert!(compiles_as_pointer(Some(&ptr), false));
    assert!(compiles_as_pointer(Some(&mutable), true));
    assert!(!compiles_as_pointer(Some(&mutable), false));
    assert!(!compiles_as_pointer(None, true));
}

#[test]
fn parameter_slots() {
    assert!(parameter_needs_slot(true, false, &ThrushType::S32));
    assert!(!parameter_needs_slot(true, true, &ThrushType::S32));
    assert!(!parameter_needs_slot(false, false, &ThrushType::S32));
    let mutable = ThrushType::Mut(Arc::new(ThrushType::S32));
    assert!(!parameter_needs_slot(true, false, &mutable));
}

#[test]
fn constant_unary_plans() {
    assert!(matches!(
        const_unary_plan(&TokenKind::PlusPlus, &ThrushType::S8),
        ConstUnaryPlan::Step { integer: true, increment: true }
    ));
    assert!(matches!(const_unary_plan(&TokenKind::Bang, &ThrushType::Bool), ConstUnaryPlan::Not));
    match const_unary_plan(&TokenKind::Bang, &ThrushType::S8) {
        ConstUnaryPlan::Abort(m) => assert_eq!(m, "Cannot perform a logical negation."),
        _ => panic!("expected an abort"),
    }
    match const_unary_plan(&TokenKind::Star, &ThrushType::S8) {
        ConstUnaryPlan::Abort(m) => assert_eq!(m, "Unsupported unary operation pattern encountered."),
        _ => panic!("expected an abort"),
    }
    assert!(matches!(
        const_unary_plan(&TokenKind::Minus, &ThrushType::F32),
        ConstUnaryPlan::Negate { integer: false }
    ));
}

#[test]
fn loose_binary_operations_are_reported() {
    let (family, message) = loose_binaryop_plan(&ThrushType::U16);
    assert_eq!(family, Some(BinaryFamily::Integer));
    assert_eq!(message, "Could not compile binary operation with type 'u16'.");
    let (family, message) = loose_binaryop_plan(&ThrushType::Str);
    assert_eq!(family, None);
    assert_eq!(message, "Could not compile binary operation with type 'str'.");
}

#[test]
fn write_targets() {
    assert_eq!(write_target(true, true), WriteTarget::Symbol);
    assert_eq!(write_target(false, true), WriteTarget::Pointer);
    assert_eq!(write_target(false, false), WriteTarget::Invalid);
}

#[test]
fn implicit_returns_for_void_bodies() {
    assert!(thrushc::codegen::needs_implicit_return(false, &ThrushType::Void));
    assert!(!thrushc::codegen::needs_implicit_return(true, &ThrushType::Void));
    assert!(!thrushc::codegen::needs_implicit_return(false, &ThrushType::S32));
}
