use vstd::prelude::*;

use crate::issue::{concat3, Span};
use crate::parser::{ReferenceIdentificator, ThrushStatement};
use crate::typecheck::{spec_type_name, type_display};
use crate::tokens::{TokenKind, Type};
use crate::types::ThrushType;

verus! {

/// An integer constant as the code generator emits it: an integer of `width` bits
/// made from `value` (sign-extended when `sign_extend`), then negated when
/// `negate`.
#[derive(Debug, Clone, Copy, PartialEq, Eq, Structural)]
pub struct IntConstant {
    pub width: u32,
    pub value: u64,
    pub sign_extend: bool,
    pub negate: bool,
}

/// The width in bits of the machine integer that holds a value of `kind`.
pub open spec fn int_width(kind: ThrushType) -> u32 {
    match kind {
        ThrushType::S8 | ThrushType::U8 | ThrushType::Char => 8,
        ThrushType::S16 | ThrushType::U16 => 16,
        ThrushType::S32 | ThrushType::U32 => 32,
        ThrushType::S64 | ThrushType::U64 => 64,
        ThrushType::Bool => 1,
        _ => 0,
    }
}

/// The constant for `number` of type `kind`: a signed integer type takes the sign
/// as given and is negated when `signed`; a character is always negated; unsigned
/// integers and booleans ignore the sign.
pub open spec fn spec_const_int(kind: ThrushType, number: u64, signed: bool) -> IntConstant {
    let signed_kind = kind.spec_is_signed_integer() || kind is Char;
    IntConstant {
        width: int_width(kind),
        value: number,
        sign_extend: signed_kind && signed,
        negate: kind is Char || (kind.spec_is_signed_integer() && signed),
    }
}

/// How an integer constant of `kind` is emitted.
pub fn const_int(kind: &ThrushType, number: u64, signed: bool) -> (r: IntConstant)
    requires
        kind.spec_is_integer() || *kind is Bool,
    ensures
        r == spec_const_int(*kind, number, signed),
{
    match kind {
        ThrushType::Char => IntConstant { width: 8, value: number, sign_extend: signed, negate: true },
        ThrushType::S8 => IntConstant { width: 8, value: number, sign_extend: signed, negate: signed },
        ThrushType::S16 => IntConstant { width: 16, value: number, sign_extend: signed, negate: signed },
        ThrushType::S32 => IntConstant { width: 32, value: number, sign_extend: signed, negate: signed },
        ThrushType::S64 => IntConstant { width: 64, value: number, sign_extend: signed, negate: signed },
        ThrushType::U8 => IntConstant { width: 8, value: number, sign_extend: false, negate: false },
        ThrushType::U16 => IntConstant { width: 16, value: number, sign_extend: false, negate: false },
        ThrushType::U32 => IntConstant { width: 32, value: number, sign_extend: false, negate: false },
        ThrushType::U64 => IntConstant { width: 64, value: number, sign_extend: false, negate: false },
        _ => IntConstant { width: 1, value: number, sign_extend: false, negate: false },
    }
}

/// What the code generator does for a unary operation.
#[derive(Debug, Clone, Copy, PartialEq, Eq, Structural)]
pub enum UnaryPlan {
    /// Load the symbol, add one (`increment`) or subtract one, store the result
    /// back and yield it; in integer arithmetic when `integer`, else in floating
    /// point.
    Step { integer: bool, increment: bool },
    /// Load the symbol and yield its bitwise complement when `integer`, else its
    /// negation.
    Invert { integer: bool },
    /// The boolean constant `value`, complemented.
    InvertBool { value: u64 },
    /// The integer constant of the operand, complemented when `complement`.
    IntegerConstant { complement: bool },
    /// The float constant of the operand, negated when `negate`.
    FloatConstant { negate: bool },
}

/// The plan for applying `op` to `operand`, where there is one: `++` and `--` on
/// a local; `!` and `-` on a local or a constant; `!` on a boolean literal; `-` on
/// an integer or float literal.
pub open spec fn spec_unary_plan(op: TokenKind, operand: ThrushStatement) -> Option<UnaryPlan> {
    match operand {
        ThrushStatement::Reference { kind, identificator, .. } => {
            let named = identificator is Local || identificator is Constant;
            if (op is PlusPlus || op is MinusMinus) && identificator is Local {
                Some(UnaryPlan::Step { integer: kind.spec_is_integer(), increment: op is PlusPlus })
            } else if op is Bang && named {
                Some(UnaryPlan::Invert { integer: kind.spec_is_integer() || kind is Bool })
            } else if op is Minus && named {
                Some(UnaryPlan::Invert { integer: kind.spec_is_integer() })
            } else {
                None
            }
        },
        ThrushStatement::Boolean { value, .. } => if op is Bang {
            Some(UnaryPlan::InvertBool { value })
        } else {
            None
        },
        ThrushStatement::Integer { signed, .. } => if op is Minus {
            Some(UnaryPlan::IntegerConstant { complement: !signed })
        } else {
            None
        },
        ThrushStatement::Float { signed, .. } => if op is Minus {
            Some(UnaryPlan::FloatConstant { negate: !signed })
        } else {
            None
        },
        _ => None,
    }
}

/// How a unary operation is compiled, or `None` where the code generator has no
/// way to compile it.
pub fn unary_op_plan(op: &TokenKind, operand: &ThrushStatement) -> (r: Option<UnaryPlan>)
    ensures
        r == spec_unary_plan(*op, *operand),
{
    match operand {
        ThrushStatement::Reference { kind, identificator, .. } => {
            let local = matches!(identificator, ReferenceIdentificator::Local);
            let named = local || matches!(identificator, ReferenceIdentificator::Constant);
            if matches!(op, TokenKind::PlusPlus | TokenKind::MinusMinus) && local {
                Some(
                    UnaryPlan::Step {
                        integer: kind.is_integer_type(),
                        increment: matches!(op, TokenKind::PlusPlus),
                    },
                )
            } else if matches!(op, TokenKind::Bang) && named {
                Some(UnaryPlan::Invert { integer: kind.is_integer_type() || kind.is_bool_type() })
            } else if matches!(op, TokenKind::Minus) && named {
                Some(UnaryPlan::Invert { integer: kind.is_integer_type() })
            } else {
                None
            }
        },
        ThrushStatement::Boolean { value, .. } => {
            if matches!(op, TokenKind::Bang) {
                Some(UnaryPlan::InvertBool { value: *value })
            } else {
                None
            }
        },
        ThrushStatement::Integer { signed, .. } => {
            if matches!(op, TokenKind::Minus) {
                Some(UnaryPlan::IntegerConstant { complement: !*signed })
            } else {
                None
            }
        },
        ThrushStatement::Float { signed, .. } => {
            if matches!(op, TokenKind::Minus) {
                Some(UnaryPlan::FloatConstant { negate: !*signed })
            } else {
                None
            }
        },
        _ => None,
    }
}

/// What the code generator sees of an expression before compiling it: its shape
/// and, where it has one, its type.
#[derive(Debug)]
pub enum Shape {
    NullT,
    Null,
    Str,
    Char,
    Integer(Type),
    Float(Type),
    Boolean,
    Gep,
    LocalRef(Type),
    BinaryOp(Type),
    UnaryOp,
    LocalMut(Type),
    Call(Type),
    Return(Type),
    Group(Box<Shape>),
    InitStruct,
    Other,
}

/// How a comparison or a logical operation on booleans is compiled.
#[derive(Debug, Clone, Copy, PartialEq, Eq, Structural)]
pub enum BoolRoute {
    /// As an operation on floats.
    Float,
    /// As an operation on integers.
    Integer,
    /// Each side as an operation on floats, then the two results combined as
    /// integers.
    FloatSidesThenInteger,
}

pub open spec fn is_comparison_or_logic(op: TokenKind) -> bool {
    op is BangEq || op is EqEq || op is LessEq || op is Less || op is Greater || op is GreaterEq
        || op is And || op is Or
}

/// A literal, a call or a reference to a local.
pub open spec fn is_leaf(s: Shape) -> bool {
    s is Integer || s is Float || s is Boolean || s is Call || s is LocalRef
}

/// Operations on floats for float types, on integers for integer and boolean
/// types, none otherwise.
pub open spec fn route_by_type(t: Type) -> Option<BoolRoute> {
    if t.spec_is_float() {
        Some(BoolRoute::Float)
    } else if t.spec_is_integer() || t is Bool {
        Some(BoolRoute::Integer)
    } else {
        None
    }
}

/// The route of `left op right`, where `left_type` and `right_type` are the types
/// of the two sides. Between leaves the type decides; it is the right side's
/// where a call or a local stands left of a literal, or a local left of a call,
/// and the left side's otherwise. An `&&` or `||` between two operations or
/// groups goes by the left side's type.
pub open spec fn spec_bool_route(left: Shape, op: TokenKind, right: Shape, left_type: Type, right_type: Type) -> Option<
    BoolRoute,
> {
    if is_comparison_or_logic(op) && is_leaf(left) && is_leaf(right) {
        let literal_right = right is Integer || right is Float || right is Boolean;
        let by_right = ((left is Call || left is LocalRef) && literal_right) || (left is LocalRef && right is Call);
        route_by_type(if by_right { right_type } else { left_type })
    } else if (op is And || op is Or) && (left is BinaryOp || left is Group) && (right is BinaryOp || right is Group) {
        if left_type.spec_is_float() {
            Some(BoolRoute::FloatSidesThenInteger)
        } else {
            Some(BoolRoute::Integer)
        }
    } else {
        None
    }
}

fn leaf_shape(s: &Shape) -> (r: bool)
    ensures
        r == is_leaf(*s),
{
    matches!(s, Shape::Integer(_) | Shape::Float(_) | Shape::Boolean | Shape::Call(_) | Shape::LocalRef(_))
}

fn typed_route(t: &Type) -> (r: Option<BoolRoute>)
    ensures
        r == route_by_type(*t),
{
    if t.is_float_type() {
        Some(BoolRoute::Float)
    } else if t.is_integer_type() || t.is_bool_type() {
        Some(BoolRoute::Integer)
    } else {
        None
    }
}

/// How a boolean binary operation is compiled, or `None` where the code
/// generator has no way to compile it.
pub fn bool_binaryop_route(left: &Shape, op: &TokenKind, right: &Shape, left_type: &Type, right_type: &Type) -> (r:
    Option<BoolRoute>)
    ensures
        r == spec_bool_route(*left, *op, *right, *left_type, *right_type),
{
    let comparison = matches!(
        op,
        TokenKind::BangEq | TokenKind::EqEq | TokenKind::LessEq | TokenKind::Less | TokenKind::Greater
            | TokenKind::GreaterEq | TokenKind::And | TokenKind::Or
    );
    if comparison && leaf_shape(left) && leaf_shape(right) {
        let literal_right = matches!(right, Shape::Integer(_) | Shape::Float(_) | Shape::Boolean);
        let by_right = (matches!(left, Shape::Call(_) | Shape::LocalRef(_)) && literal_right) || (matches!(
            left,
            Shape::LocalRef(_)
        ) && matches!(right, Shape::Call(_)));
        if by_right {
            typed_route(right_type)
        } else {
            typed_route(left_type)
        }
    } else if matches!(op, TokenKind::And | TokenKind::Or) && matches!(left, Shape::BinaryOp(_) | Shape::Group(_))
        && matches!(right, Shape::BinaryOp(_) | Shape::Group(_)) {
        if left_type.is_float_type() {
            Some(BoolRoute::FloatSidesThenInteger)
        } else {
            Some(BoolRoute::Integer)
        }
    } else {
        None
    }
}

/// How an expression is compiled.
#[derive(Debug, Clone, Copy, PartialEq, Eq, Structural)]
pub enum ExprRoute {
    NullPointer,
    StringConstant,
    /// A float constant, cast to the target type where they differ.
    FloatConstant,
    /// An integer constant, cast to the target type where they differ.
    IntegerConstant,
    CharConstant,
    BoolConstant,
    /// A pointer into a local at an index compiled as a `u64`.
    Gep,
    LoadFloat,
    LoadInteger,
    /// The local's own pointer.
    Pointer,
    LoadStruct,
    FloatBinary,
    IntegerBinary,
    BoolBinary,
    Unary,
    /// The value compiled with the local's type, stored into the local and yielded.
    StoreMutation,
    Call,
    /// A return without a value; a null pointer is yielded.
    ReturnVoid,
    /// A return of the value compiled with the return type; a null pointer is
    /// yielded.
    ReturnValue,
}

/// The route of an expression: literals become constants; a reference loads a
/// float, an integer or boolean, or a structure, or yields the pointer of a
/// string or a raw pointer; a binary operation goes by its type; a return by
/// whether its type is void.
pub open spec fn spec_expression_route(e: Shape) -> Option<ExprRoute> {
    match e {
        Shape::NullT => Some(ExprRoute::NullPointer),
        Shape::Str => Some(ExprRoute::StringConstant),
        Shape::Float(_) => Some(ExprRoute::FloatConstant),
        Shape::Integer(_) => Some(ExprRoute::IntegerConstant),
        Shape::Char => Some(ExprRoute::CharConstant),
        Shape::Boolean => Some(ExprRoute::BoolConstant),
        Shape::Gep => Some(ExprRoute::Gep),
        Shape::LocalRef(kind) => if kind.spec_is_float() {
            Some(ExprRoute::LoadFloat)
        } else if kind.spec_is_integer() || kind is Bool {
            Some(ExprRoute::LoadInteger)
        } else if kind is Str || kind is T {
            Some(ExprRoute::Pointer)
        } else if kind is Struct {
            Some(ExprRoute::LoadStruct)
        } else {
            None
        },
        Shape::BinaryOp(kind) => if kind.spec_is_float() {
            Some(ExprRoute::FloatBinary)
        } else if kind.spec_is_integer() {
            Some(ExprRoute::IntegerBinary)
        } else if kind is Bool {
            Some(ExprRoute::BoolBinary)
        } else {
            None
        },
        Shape::UnaryOp => Some(ExprRoute::Unary),
        Shape::LocalMut(_) => Some(ExprRoute::StoreMutation),
        Shape::Call(_) => Some(ExprRoute::Call),
        Shape::Return(kind) => if kind is Void {
            Some(ExprRoute::ReturnVoid)
        } else {
            Some(ExprRoute::ReturnValue)
        },
        _ => None,
    }
}

/// How an expression is compiled, or `None` where the code generator has no way
/// to compile it.
pub fn expression_route(e: &Shape) -> (r: Option<ExprRoute>)
    ensures
        r == spec_expression_route(*e),
{
    match e {
        Shape::NullT => Some(ExprRoute::NullPointer),
        Shape::Str => Some(ExprRoute::StringConstant),
        Shape::Float(_) => Some(ExprRoute::FloatConstant),
        Shape::Integer(_) => Some(ExprRoute::IntegerConstant),
        Shape::Char => Some(ExprRoute::CharConstant),
        Shape::Boolean => Some(ExprRoute::BoolConstant),
        Shape::Gep => Some(ExprRoute::Gep),
        Shape::LocalRef(kind) => {
            if kind.is_float_type() {
                Some(ExprRoute::LoadFloat)
            } else if kind.is_integer_type() || kind.is_bool_type() {
                Some(ExprRoute::LoadInteger)
            } else if kind.is_str() || kind.is_raw_ptr() {
                Some(ExprRoute::Pointer)
            } else if kind.is_struct_type() {
                Some(ExprRoute::LoadStruct)
            } else {
                None
            }
        },
        Shape::BinaryOp(kind) => {
            if kind.is_float_type() {
                Some(ExprRoute::FloatBinary)
            } else if kind.is_integer_type() {
                Some(ExprRoute::IntegerBinary)
            } else if kind.is_bool_type() {
                Some(ExprRoute::BoolBinary)
            } else {
                None
            }
        },
        Shape::UnaryOp => Some(ExprRoute::Unary),
        Shape::LocalMut(_) => Some(ExprRoute::StoreMutation),
        Shape::Call(_) => Some(ExprRoute::Call),
        Shape::Return(kind) => {
            if matches!(kind, Type::Void) {
                Some(ExprRoute::ReturnVoid)
            } else {
                Some(ExprRoute::ReturnValue)
            }
        },
        _ => None,
    }
}

/// The kinds of local the code generator stores differently.
#[derive(Debug, Clone, Copy, PartialEq, Eq, Structural)]
pub enum LocalKind {
    Ptr,
    Str,
    Struct,
    Integer,
    Float,
    Bool,
}

pub open spec fn spec_local_kind(t: Type) -> Option<LocalKind> {
    if t is T {
        Some(LocalKind::Ptr)
    } else if t is Str {
        Some(LocalKind::Str)
    } else if t is Struct {
        Some(LocalKind::Struct)
    } else if t.spec_is_integer() {
        Some(LocalKind::Integer)
    } else if t.spec_is_float() {
        Some(LocalKind::Float)
    } else if t is Bool {
        Some(LocalKind::Bool)
    } else {
        None
    }
}

/// The kind of a local of type `t`, or `None` for the types no local can have.
pub fn local_kind(t: &Type) -> (r: Option<LocalKind>)
    ensures
        r == spec_local_kind(*t),
{
    if t.is_raw_ptr() {
        Some(LocalKind::Ptr)
    } else if t.is_str() {
        Some(LocalKind::Str)
    } else if t.is_struct_type() {
        Some(LocalKind::Struct)
    } else if t.is_integer_type() {
        Some(LocalKind::Integer)
    } else if t.is_float_type() {
        Some(LocalKind::Float)
    } else if t.is_bool_type() {
        Some(LocalKind::Bool)
    } else {
        None
    }
}

/// How the initial value of a local of numeric or boolean kind is stored.
#[derive(Debug, Clone, Copy, PartialEq, Eq, Structural)]
pub enum StorePlan {
    /// A zero of the local's type.
    Zero,
    /// The literal as a constant of the local's type.
    Constant,
    /// The referenced local loaded as a float when `load_as_float`, else as an
    /// integer, then cast to the local's type as a float when `cast_as_float`,
    /// else as an integer.
    LoadRef { load_as_float: bool, cast_as_float: bool },
    Unary,
    IntegerBinary,
    FloatBinary,
    BoolBinary,
    /// The call's result, cast to the local's type as a float when
    /// `cast_as_float`, else as an integer.
    CallThenCast { cast_as_float: bool },
}

/// The store plan for a local of `kind` with the initial value `value`: a null
/// gives zero; the kind's own literal a constant (characters too for integers);
/// references, calls, unary and binary operations by the kind; a group, for an
/// integer local, the plan of what it holds.
pub open spec fn spec_local_store(kind: LocalKind, value: Shape) -> Option<StorePlan>
    decreases value,
{
    match value {
        Shape::Null => if kind is Integer || kind is Float || kind is Bool {
            Some(StorePlan::Zero)
        } else {
            None
        },
        Shape::Char => if kind is Integer {
            Some(StorePlan::Constant)
        } else {
            None
        },
        Shape::Integer(_) => if kind is Integer {
            Some(StorePlan::Constant)
        } else {
            None
        },
        Shape::Float(_) => if kind is Float {
            Some(StorePlan::Constant)
        } else {
            None
        },
        Shape::Boolean => if kind is Bool {
            Some(StorePlan::Constant)
        } else {
            None
        },
        Shape::LocalRef(_) => match kind {
            LocalKind::Integer => Some(StorePlan::LoadRef { load_as_float: false, cast_as_float: false }),
            LocalKind::Float => Some(StorePlan::LoadRef { load_as_float: true, cast_as_float: true }),
            LocalKind::Bool => Some(StorePlan::LoadRef { load_as_float: true, cast_as_float: false }),
            _ => None,
        },
        Shape::Call(_) => match kind {
            LocalKind::Integer => Some(StorePlan::CallThenCast { cast_as_float: false }),
            LocalKind::Float => Some(StorePlan::CallThenCast { cast_as_float: true }),
            LocalKind::Bool => Some(StorePlan::CallThenCast { cast_as_float: false }),
            _ => None,
        },
        Shape::UnaryOp => if kind is Integer || kind is Float || kind is Bool {
            Some(StorePlan::Unary)
        } else {
            None
        },
        Shape::BinaryOp(_) => match kind {
            LocalKind::Integer => Some(StorePlan::IntegerBinary),
            LocalKind::Float => Some(StorePlan::FloatBinary),
            LocalKind::Bool => Some(StorePlan::BoolBinary),
            _ => None,
        },
        Shape::Group(inner) => if kind is Integer {
            spec_local_store(kind, *inner)
        } else {
            None
        },
        _ => None,
    }
}

/// How the initial value of a local is stored, or `None` where the code
/// generator has no way to store it.
pub fn local_store(kind: LocalKind, value: &Shape) -> (r: Option<StorePlan>)
    ensures
        r == spec_local_store(kind, *value),
    decreases value,
{
    let numeric = matches!(kind, LocalKind::Integer | LocalKind::Float | LocalKind::Bool);
    match value {
        Shape::Null => if numeric {
            Some(StorePlan::Zero)
        } else {
            None
        },
        Shape::Char | Shape::Integer(_) => if matches!(kind, LocalKind::Integer) {
            Some(StorePlan::Constant)
        } else {
            None
        },
        Shape::Float(_) => if matches!(kind, LocalKind::Float) {
            Some(StorePlan::Constant)
        } else {
            None
        },
        Shape::Boolean => if matches!(kind, LocalKind::Bool) {
            Some(StorePlan::Constant)
        } else {
            None
        },
        Shape::LocalRef(_) => match kind {
            LocalKind::Integer => Some(StorePlan::LoadRef { load_as_float: false, cast_as_float: false }),
            LocalKind::Float => Some(StorePlan::LoadRef { load_as_float: true, cast_as_float: true }),
            LocalKind::Bool => Some(StorePlan::LoadRef { load_as_float: true, cast_as_float: false }),
            _ => None,
        },
        Shape::Call(_) => match kind {
            LocalKind::Integer | LocalKind::Bool => Some(StorePlan::CallThenCast { cast_as_float: false }),
            LocalKind::Float => Some(StorePlan::CallThenCast { cast_as_float: true }),
            _ => None,
        },
        Shape::UnaryOp => if numeric {
            Some(StorePlan::Unary)
        } else {
            None
        },
        Shape::BinaryOp(_) => match kind {
            LocalKind::Integer => Some(StorePlan::IntegerBinary),
            LocalKind::Float => Some(StorePlan::FloatBinary),
            LocalKind::Bool => Some(StorePlan::BoolBinary),
            _ => None,
        },
        Shape::Group(inner) => if matches!(kind, LocalKind::Integer) {
            local_store(kind, &**inner)
        } else {
            None
        },
        _ => None,
    }
}

/// Where the memory of a local of pointer or string kind lives.
#[derive(Debug, Clone, Copy, PartialEq, Eq, Structural)]
pub enum Allocation {
    Stack,
    Heap,
    Static,
}

/// A pointer local lives on the stack when it is null or points into a local,
/// on the heap when a call gave it or it refers to another local; a string local
/// is static whether it is a literal, a reference or the result of a call.
pub open spec fn spec_local_allocation(kind: LocalKind, value: Shape) -> Option<Allocation> {
    match kind {
        LocalKind::Ptr => match value {
            Shape::NullT | Shape::Gep => Some(Allocation::Stack),
            Shape::Call(_) | Shape::LocalRef(_) => Some(Allocation::Heap),
            _ => None,
        },
        LocalKind::Str => match value {
            Shape::Str | Shape::LocalRef(_) | Shape::Call(_) => Some(Allocation::Static),
            _ => None,
        },
        _ => None,
    }
}

/// Where a pointer or string local lives, or `None` where the code generator has
/// no way to store its value.
pub fn local_allocation(kind: LocalKind, value: &Shape) -> (r: Option<Allocation>)
    ensures
        r == spec_local_allocation(kind, *value),
{
    match kind {
        LocalKind::Ptr => match value {
            Shape::NullT | Shape::Gep => Some(Allocation::Stack),
            Shape::Call(_) | Shape::LocalRef(_) => Some(Allocation::Heap),
            _ => None,
        },
        LocalKind::Str => match value {
            Shape::Str | Shape::LocalRef(_) | Shape::Call(_) => Some(Allocation::Static),
            _ => None,
        },
        _ => None,
    }
}

/// How a new value is given to an existing local.
#[derive(Debug, Clone, Copy, PartialEq, Eq, Structural)]
pub enum MutationPlan {
    /// The value compiled with the local's type and stored.
    StoreExpression,
    /// Stored as a new initial value of a local of the kind.
    Reinitialize(LocalKind),
}

/// A mutation stores its value; any other value is stored as the initial value
/// of an integer, float, boolean or pointer local.
pub open spec fn spec_mutation_plan(t: Type, value: Shape) -> Option<MutationPlan> {
    if value is LocalMut {
        Some(MutationPlan::StoreExpression)
    } else if t.spec_is_integer() {
        Some(MutationPlan::Reinitialize(LocalKind::Integer))
    } else if t.spec_is_float() {
        Some(MutationPlan::Reinitialize(LocalKind::Float))
    } else if t is Bool {
        Some(MutationPlan::Reinitialize(LocalKind::Bool))
    } else if t is T {
        Some(MutationPlan::Reinitialize(LocalKind::Ptr))
    } else {
        None
    }
}

/// How a local of type `t` takes `value`, or `None` where the code generator has
/// no way to do it.
pub fn mutation_plan(t: &Type, value: &Shape) -> (r: Option<MutationPlan>)
    ensures
        r == spec_mutation_plan(*t, *value),
{
    if matches!(value, Shape::LocalMut(_)) {
        Some(MutationPlan::StoreExpression)
    } else if t.is_integer_type() {
        Some(MutationPlan::Reinitialize(LocalKind::Integer))
    } else if t.is_float_type() {
        Some(MutationPlan::Reinitialize(LocalKind::Float))
    } else if t.is_bool_type() {
        Some(MutationPlan::Reinitialize(LocalKind::Bool))
    } else if t.is_raw_ptr() {
        Some(MutationPlan::Reinitialize(LocalKind::Ptr))
    } else {
        None
    }
}

/// The dialects inline assembly can be written in.
#[derive(Debug, Clone, Copy, PartialEq, Eq, Structural)]
pub enum AsmDialect {
    Intel,
    Att,
}

/// The attributes a function or an assembler function can carry.
#[derive(Debug)]
pub enum LLVMAttribute {
    Public,
    Ignore,
    AsmSideEffects,
    AsmAlignStack,
    AsmThrow,
    /// The function is defined elsewhere under this name.
    Extern(String),
    /// The calling convention, by its number.
    Convention(u32),
    AsmSyntax(AsmDialect),
    Other,
}

/// The number of the standard calling convention.
pub const STANDARD_CONVENTION: u32 = 0;

/// Whether an attribute satisfying `p` is among `attrs`.
pub open spec fn has_attribute(attrs: Seq<LLVMAttribute>, p: spec_fn(LLVMAttribute) -> bool) -> bool {
    exists|i: int| 0 <= i < attrs.len() && p(#[trigger] attrs[i])
}

/// The calling convention the last `Convention` attribute names, else the
/// standard one.
pub open spec fn spec_convention(attrs: Seq<LLVMAttribute>) -> u32
    decreases attrs.len(),
{
    if attrs.len() == 0 {
        STANDARD_CONVENTION
    } else {
        match attrs.last() {
            LLVMAttribute::Convention(c) => c,
            _ => spec_convention(attrs.drop_last()),
        }
    }
}

/// The dialect the last `AsmSyntax` attribute names, else Intel.
pub open spec fn spec_dialect(attrs: Seq<LLVMAttribute>) -> AsmDialect
    decreases attrs.len(),
{
    if attrs.len() == 0 {
        AsmDialect::Intel
    } else {
        match attrs.last() {
            LLVMAttribute::AsmSyntax(d) => d,
            _ => spec_dialect(attrs.drop_last()),
        }
    }
}

/// The name the last `Extern` attribute gives, if any.
pub open spec fn spec_extern_name(attrs: Seq<LLVMAttribute>) -> Option<Seq<char>>
    decreases attrs.len(),
{
    if attrs.len() == 0 {
        None
    } else {
        match attrs.last() {
            LLVMAttribute::Extern(name) => Some(name@),
            _ => spec_extern_name(attrs.drop_last()),
        }
    }
}

/// What the code generator declares for an assembler function.
#[derive(Debug)]
pub struct AsmFunctionPlan {
    /// The symbol the function gets in the module.
    pub symbol: String,
    pub convention: u32,
    pub dialect: AsmDialect,
    pub side_effects: bool,
    pub align_stack: bool,
    pub can_throw: bool,
    /// Whether the symbol is private to the module.
    pub private_linkage: bool,
}

/// How a function is declared.
#[derive(Debug)]
pub struct FunctionPlan {
    /// The symbol the function gets in the module.
    pub symbol: String,
    pub convention: u32,
    /// Whether the function takes any number of arguments.
    pub ignore_args: bool,
    /// Whether the symbol is private to the module.
    pub private_linkage: bool,
}

/// What the attributes say, read in one pass: conventions, dialects and external
/// names as the last one gives them, flags as any one sets them.
struct AttributeSummary {
    convention: u32,
    dialect: AsmDialect,
    extern_name: Option<String>,
    public: bool,
    ignore: bool,
    side_effects: bool,
    align_stack: bool,
    can_throw: bool,
}

spec fn summarizes(s: AttributeSummary, attrs: Seq<LLVMAttribute>) -> bool {
    &&& s.convention == spec_convention(attrs)
    &&& s.dialect == spec_dialect(attrs)
    &&& match s.extern_name {
        Some(n) => spec_extern_name(attrs) == Some(n@),
        None => spec_extern_name(attrs) is None,
    }
    &&& s.public == has_attribute(attrs, |a: LLVMAttribute| a is Public)
    &&& s.ignore == has_attribute(attrs, |a: LLVMAttribute| a is Ignore)
    &&& s.side_effects == has_attribute(attrs, |a: LLVMAttribute| a is AsmSideEffects)
    &&& s.align_stack == has_attribute(attrs, |a: LLVMAttribute| a is AsmAlignStack)
    &&& s.can_throw == has_attribute(attrs, |a: LLVMAttribute| a is AsmThrow)
}

fn summarize(attrs: &Vec<LLVMAttribute>) -> (s: AttributeSummary)
    ensures
        summarizes(s, attrs@),
{
    let mut s = AttributeSummary {
        convention: STANDARD_CONVENTION,
        dialect: AsmDialect::Intel,
        extern_name: None,
        public: false,
        ignore: false,
        side_effects: false,
        align_stack: false,
        can_throw: false,
    };
    let mut i: usize = 0;
    while i < attrs.len()
        invariant
            0 <= i <= attrs@.len(),
            summarizes(s, attrs@.take(i as int)),
        decreases attrs.len() - i,
    {
        let ghost prefix = attrs@.take(i as int);
        let ghost next = attrs@.take(i + 1);
        assert(next.drop_last() =~= prefix);
        assert(next.last() == attrs@[i as int]);
        assert forall|p: spec_fn(LLVMAttribute) -> bool|
            has_attribute(next, p) == (has_attribute(prefix, p) || p(attrs@[i as int])) by {
            if has_attribute(next, p) {
                let k: int = choose|k: int| 0 <= k < next.len() && p(#[trigger] next[k]);
                if k < i {
                    assert(prefix[k] == next[k]);
                }
            }
            if has_attribute(prefix, p) {
                let k: int = choose|k: int| 0 <= k < prefix.len() && p(#[trigger] prefix[k]);
                assert(next[k] == prefix[k]);
            }
            if p(attrs@[i as int]) {
                assert(next[i as int] == attrs@[i as int]);
            }
        }
        match &attrs[i] {
            LLVMAttribute::Public => {
                s.public = true;
            },
            LLVMAttribute::Ignore => {
                s.ignore = true;
            },
            LLVMAttribute::AsmSideEffects => {
                s.side_effects = true;
            },
            LLVMAttribute::AsmAlignStack => {
                s.align_stack = true;
            },
            LLVMAttribute::AsmThrow => {
                s.can_throw = true;
            },
            LLVMAttribute::Extern(name) => {
                let n = name.clone();
                s.extern_name = Some(n);
            },
            LLVMAttribute::Convention(c) => {
                s.convention = *c;
            },
            LLVMAttribute::AsmSyntax(d) => {
                s.dialect = *d;
            },
            LLVMAttribute::Other => {},
        }
        i = i + 1;
    }
    assert(attrs@.take(attrs@.len() as int) =~= attrs@);
    s
}

/// The declaration of an assembler function whose name, in plain ASCII, is
/// `ascii_name`: its symbol is `__asm_fn_` followed by that name; its convention
/// and dialect are those the attributes name last (standard and Intel where none
/// does); it has side effects, aligns the stack or may throw where an attribute
/// says so; it is private unless public.
pub fn asm_function_plan(ascii_name: &str, attrs: &Vec<LLVMAttribute>) -> (r: AsmFunctionPlan)
    ensures
        r.symbol@ == "__asm_fn_"@ + ascii_name@,
        r.convention == spec_convention(attrs@),
        r.dialect == spec_dialect(attrs@),
        r.side_effects == has_attribute(attrs@, |a: LLVMAttribute| a is AsmSideEffects),
        r.align_stack == has_attribute(attrs@, |a: LLVMAttribute| a is AsmAlignStack),
        r.can_throw == has_attribute(attrs@, |a: LLVMAttribute| a is AsmThrow),
        r.private_linkage == !has_attribute(attrs@, |a: LLVMAttribute| a is Public),
{
    let s = summarize(attrs);
    let mut symbol = String::from_str("__asm_fn_");
    symbol.append(ascii_name);
    proof {
        reveal_strlit("__asm_fn_");
    }
    AsmFunctionPlan {
        symbol,
        convention: s.convention,
        dialect: s.dialect,
        side_effects: s.side_effects,
        align_stack: s.align_stack,
        can_throw: s.can_throw,
        private_linkage: !s.public,
    }
}

/// The declaration of a function whose name, in plain ASCII, is `ascii_name`:
/// its symbol is the external name the attributes give last, else `ascii_name`;
/// its convention the one they name last, else the standard one; it ignores its
/// arguments where an attribute says so; it is private unless public or external.
pub fn function_plan(ascii_name: &str, attrs: &Vec<LLVMAttribute>) -> (r: FunctionPlan)
    ensures
        r.symbol@ == match spec_extern_name(attrs@) {
            Some(n) => n,
            None => ascii_name@,
        },
        r.convention == spec_convention(attrs@),
        r.ignore_args == has_attribute(attrs@, |a: LLVMAttribute| a is Ignore),
        r.private_linkage == (!has_attribute(attrs@, |a: LLVMAttribute| a is Public) && spec_extern_name(
            attrs@,
        ) is None),
{
    let s = summarize(attrs);
    let private_linkage = !s.public && s.extern_name.is_none();
    let symbol = match s.extern_name {
        Some(n) => n,
        None => String::from_str(ascii_name),
    };
    FunctionPlan { symbol, convention: s.convention, ignore_args: s.ignore, private_linkage }
}

/// Whether an expression compiled towards `cast_type` is compiled as a pointer:
/// where the target is a pointer type, or a mutable type and a pointer is
/// wanted.
pub fn compiles_as_pointer(cast_type: Option<&ThrushType>, wants_pointer: bool) -> (r: bool)
    ensures
        r == match cast_type {
            Some(t) => *t is Ptr || (*t is Mut && wants_pointer),
            None => false,
        },
{
    match cast_type {
        Some(t) => t.is_ptr_type() || (t.is_mut_type() && wants_pointer),
        None => false,
    }
}

/// Whether a parameter gets a slot of its own to live in: where it is mutable,
/// its value is not already a pointer and its type is not a mutable type.
pub fn parameter_needs_slot(is_mutable: bool, is_pointer_value: bool, kind: &ThrushType) -> (r: bool)
    ensures
        r == (is_mutable && !is_pointer_value && !(*kind is Mut)),
{
    is_mutable && !is_pointer_value && !kind.is_mut_type()
}

/// What the code generator does for a unary operation on a constant.
#[derive(Debug)]
pub enum ConstUnaryPlan {
    /// Add one (`increment`) or subtract one; in integer arithmetic when
    /// `integer`, else on the float's constant value, where it has one.
    Step { integer: bool, increment: bool },
    /// The boolean complement.
    Not,
    /// The integer negation when `integer`, else the negation of the float's
    /// constant value, where it has one.
    Negate { integer: bool },
    /// A bug is reported with this message and a null pointer stands for the
    /// value.
    Abort(String),
}

/// `++` and `--` step, `!` complements a boolean, `-` negates; anything else is a
/// bug.
pub open spec fn spec_const_unary_matches(op: TokenKind, kind: ThrushType, plan: ConstUnaryPlan) -> bool {
    if op is PlusPlus || op is MinusMinus {
        plan == ConstUnaryPlan::Step { integer: kind.spec_is_integer(), increment: op is PlusPlus }
    } else if op is Bang {
        if kind is Bool {
            plan == ConstUnaryPlan::Not
        } else {
            plan matches ConstUnaryPlan::Abort(m) && m@ == "Cannot perform a logical negation."@
        }
    } else if op is Minus {
        plan == ConstUnaryPlan::Negate { integer: kind.spec_is_integer() }
    } else {
        plan matches ConstUnaryPlan::Abort(m) && m@ == "Unsupported unary operation pattern encountered."@
    }
}

/// How a unary operation on a constant of type `kind` is compiled.
pub fn const_unary_plan(op: &TokenKind, kind: &ThrushType) -> (r: ConstUnaryPlan)
    ensures
        spec_const_unary_matches(*op, *kind, r),
{
    match op {
        TokenKind::PlusPlus | TokenKind::MinusMinus => ConstUnaryPlan::Step {
            integer: kind.is_integer_type(),
            increment: matches!(op, TokenKind::PlusPlus),
        },
        TokenKind::Bang => {
            if kind.is_bool_type() {
                ConstUnaryPlan::Not
            } else {
                proof {
                    reveal_strlit("Cannot perform a logical negation.");
                }
                ConstUnaryPlan::Abort(String::from_str("Cannot perform a logical negation."))
            }
        },
        TokenKind::Minus => ConstUnaryPlan::Negate { integer: kind.is_integer_type() },
        _ => {
            proof {
                reveal_strlit("Unsupported unary operation pattern encountered.");
            }
            ConstUnaryPlan::Abort(String::from_str("Unsupported unary operation pattern encountered."))
        },
    }
}

/// The families of binary operation, by the type they compute in.
#[derive(Debug, Clone, Copy, PartialEq, Eq, Structural)]
pub enum BinaryFamily {
    Integer,
    Float,
    Bool,
    Pointer,
}

/// The family of a binary operation of type `kind`, if it has one.
pub open spec fn spec_binary_family(kind: ThrushType) -> Option<BinaryFamily> {
    if kind.spec_is_integer() {
        Some(BinaryFamily::Integer)
    } else if kind.spec_is_float() {
        Some(BinaryFamily::Float)
    } else if kind is Bool {
        Some(BinaryFamily::Bool)
    } else if kind is Ptr {
        Some(BinaryFamily::Pointer)
    } else {
        None
    }
}

/// How a binary operation whose value is not used is compiled: in the family of
/// its type, if it has one; the bug report that follows is made whatever the
/// type, and names it.
pub fn loose_binaryop_plan(kind: &ThrushType) -> (r: (Option<BinaryFamily>, String))
    ensures
        r.0 == spec_binary_family(*kind),
        r.1@ == "Could not compile binary operation with type '"@ + spec_type_name(*kind) + "'."@,
{
    let family = if kind.is_integer_type() {
        Some(BinaryFamily::Integer)
    } else if kind.is_float_type() {
        Some(BinaryFamily::Float)
    } else if kind.is_bool_type() {
        Some(BinaryFamily::Bool)
    } else if kind.is_ptr_type() {
        Some(BinaryFamily::Pointer)
    } else {
        None
    };
    let name = type_display(kind);
    (family, concat3("Could not compile binary operation with type '", name.as_str(), "'."))
}

/// The older code generator's entry point.
pub struct Compiler;

/// Where a write puts its value.
#[derive(Debug, Clone, Copy, PartialEq, Eq, Structural)]
pub enum WriteTarget {
    /// Into the named symbol.
    Symbol,
    /// Through the pointer an expression computes.
    Pointer,
    /// Nowhere: the write is reported as a bug.
    Invalid,
}

/// A write goes to the named symbol where it names one, else through the pointer
/// expression where it has one, and is invalid otherwise.
pub fn write_target(has_name: bool, has_pointer_expression: bool) -> (r: WriteTarget)
    ensures
        r == if has_name {
            WriteTarget::Symbol
        } else if has_pointer_expression {
            WriteTarget::Pointer
        } else {
            WriteTarget::Invalid
        },
{
    if has_name {
        WriteTarget::Symbol
    } else if has_pointer_expression {
        WriteTarget::Pointer
    } else {
        WriteTarget::Invalid
    }
}

/// Whether a function body gets a return without a value appended: where the
/// body has no return of its own and the function returns nothing.
pub fn needs_implicit_return(body_has_return: bool, return_type: &ThrushType) -> (r: bool)
    ensures
        r == (!body_has_return && *return_type is Void),
{
    !body_has_return && return_type.is_void_type()
}

/// A comparison: `==`, `!=`, `<`, `<=`, `>` or `>=`.
pub open spec fn is_comparison(op: TokenKind) -> bool {
    op is EqEq || op is BangEq || op is Less || op is LessEq || op is Greater || op is GreaterEq
}

/// A literal, a call or a reference to a local, as plain alternatives.
pub open spec fn is_value_operand(s: Shape) -> bool {
    s is Integer || s is Float || s is Boolean || s is Call || s is LocalRef
}

/// Every comparison, and `&&` and `||`, between two values of integer or boolean
/// type is compiled in integer arithmetic; between two float values, in float
/// arithmetic.
pub proof fn lemma_bool_route_by_operand_types(left: Shape, op: TokenKind, right: Shape, left_type: Type, right_type: Type)
    requires
        is_comparison(op) || op is And || op is Or,
        is_value_operand(left),
        is_value_operand(right),
    ensures
        (left_type.spec_is_integer() || left_type is Bool) && (right_type.spec_is_integer() || right_type is Bool)
            ==> spec_bool_route(left, op, right, left_type, right_type) == Some(BoolRoute::Integer),
        left_type.spec_is_float() && right_type.spec_is_float() ==> spec_bool_route(
            left,
            op,
            right,
            left_type,
            right_type,
        ) == Some(BoolRoute::Float),
{
}

/// All comparisons are compiled alike: on the same operands, each is routed as
/// `==` is, and between two values each is routed as `&&` and `||` are.
pub proof fn lemma_comparisons_routed_alike(left: Shape, op: TokenKind, right: Shape, left_type: Type, right_type: Type)
    requires
        is_comparison(op),
    ensures
        spec_bool_route(left, op, right, left_type, right_type) == spec_bool_route(
            left,
            TokenKind::EqEq,
            right,
            left_type,
            right_type,
        ),
        is_value_operand(left) && is_value_operand(right) ==> spec_bool_route(left, op, right, left_type, right_type)
            == spec_bool_route(left, TokenKind::And, right, left_type, right_type),
{
}

/// A binary operation stored into a local is compiled in the arithmetic of the
/// local's kind: integer for an integer local, float for a float local, boolean
/// for a boolean local; no other kind of local takes one. Grouping changes
/// nothing for an integer local.
pub proof fn lemma_binary_store_follows_kind(kind: LocalKind, value: Shape)
    ensures
        spec_local_store(kind, value) == Some(StorePlan::IntegerBinary) ==> kind is Integer,
        spec_local_store(kind, value) == Some(StorePlan::FloatBinary) ==> kind is Float,
        spec_local_store(kind, value) == Some(StorePlan::BoolBinary) ==> kind is Bool,
        value is BinaryOp ==> spec_local_store(kind, value) == match kind {
            LocalKind::Integer => Some(StorePlan::IntegerBinary),
            LocalKind::Float => Some(StorePlan::FloatBinary),
            LocalKind::Bool => Some(StorePlan::BoolBinary),
            _ => None::<StorePlan>,
        },
    decreases value,
{
    if let Shape::Group(inner) = value {
        lemma_binary_store_follows_kind(kind, *inner);
    }
}

/// What a local takes from another local or from a call is cast in the local's
/// own arithmetic: as a float exactly for a float local.
pub proof fn lemma_store_casts_follow_kind(kind: LocalKind, value: Shape)
    ensures
        spec_local_store(kind, value) matches Some(StorePlan::LoadRef { cast_as_float, .. }) ==> cast_as_float
            == (kind is Float),
        spec_local_store(kind, value) matches Some(StorePlan::CallThenCast { cast_as_float }) ==> cast_as_float
            == (kind is Float),
    decreases value,
{
    if let Shape::Group(inner) = value {
        lemma_store_casts_follow_kind(kind, *inner);
    }
}

/// `-` and `!` are planned alike for a reference to a constant and for a
/// reference to a local of the same type, and there is always a plan for them.
pub proof fn lemma_unary_constant_like_local(
    op: TokenKind,
    name: String,
    kind: ThrushType,
    span: Span,
    is_mutable: bool,
    is_allocated: bool,
)
    requires
        op is Minus || op is Bang,
    ensures
        spec_unary_plan(
            op,
            ThrushStatement::Reference {
                name,
                kind,
                span,
                identificator: ReferenceIdentificator::Constant,
                is_mutable,
                is_allocated,
            },
        ) == spec_unary_plan(
            op,
            ThrushStatement::Reference {
                name,
                kind,
                span,
                identificator: ReferenceIdentificator::Local,
                is_mutable,
                is_allocated,
            },
        ),
        spec_unary_plan(
            op,
            ThrushStatement::Reference {
                name,
                kind,
                span,
                identificator: ReferenceIdentificator::Constant,
                is_mutable,
                is_allocated,
            },
        ) is Some,
{
}

/// On a local, `++` and `--` are the same step in opposite directions, in the
/// same arithmetic; `-` inverts an integer local by its bits and a float local by
/// its sign, and `!` treats a boolean local as an integer.
pub proof fn lemma_unary_steps_on_locals(name: String, kind: ThrushType, span: Span, is_mutable: bool, is_allocated: bool)
    ensures
        ({
            let local = ThrushStatement::Reference {
                name,
                kind,
                span,
                identificator: ReferenceIdentificator::Local,
                is_mutable,
                is_allocated,
            };
            &&& spec_unary_plan(TokenKind::PlusPlus, local) matches Some(UnaryPlan::Step { integer: i1, increment: up })
                && up
            &&& spec_unary_plan(TokenKind::MinusMinus, local) matches Some(
                UnaryPlan::Step { integer: i2, increment: down },
            ) && !down
            &&& spec_unary_plan(TokenKind::PlusPlus, local)->Some_0->Step_integer == spec_unary_plan(
                TokenKind::MinusMinus,
                local,
            )->Some_0->Step_integer
            &&& spec_unary_plan(TokenKind::Minus, local) == Some(
                UnaryPlan::Invert { integer: !kind.spec_is_float() && kind.spec_is_integer() },
            )
            &&& kind is Bool ==> spec_unary_plan(TokenKind::Bang, local) == Some(UnaryPlan::Invert { integer: true })
        }),
{
}

/// Integer constants are as wide as their type; an unsigned integer or a boolean
/// is never sign-extended nor negated, a signed integer is both exactly when the
/// value is given as negative, and the value itself is kept as given.
pub proof fn lemma_const_int_sign(kind: ThrushType, number: u64, signed: bool)
    requires
        kind.spec_is_integer() || kind is Bool,
    ensures
        spec_const_int(kind, number, signed).value == number,
        (kind is U8 || kind is U16 || kind is U32 || kind is U64 || kind is Bool) ==> !spec_const_int(
            kind,
            number,
            signed,
        ).negate && !spec_const_int(kind, number, signed).sign_extend,
        kind.spec_is_signed_integer() ==> spec_const_int(kind, number, signed).negate == signed
            && spec_const_int(kind, number, signed).sign_extend == signed,
        (kind is S8 || kind is U8 || kind is Char) ==> spec_const_int(kind, number, signed).width == 8,
        (kind is S16 || kind is U16) ==> spec_const_int(kind, number, signed).width == 16,
        (kind is S32 || kind is U32) ==> spec_const_int(kind, number, signed).width == 32,
        (kind is S64 || kind is U64) ==> spec_const_int(kind, number, signed).width == 64,
        kind is Bool ==> spec_const_int(kind, number, signed).width == 1,
{
}

/// A reference is loaded in the arithmetic of its type: float types as floats,
/// integer and boolean types as integers; strings and raw pointers are used by
/// their address. A binary operation is compiled in the arithmetic of its type.
pub proof fn lemma_expression_route_follows_type(t: Type)
    ensures
        t.spec_is_float() ==> spec_expression_route(Shape::LocalRef(t)) == Some(ExprRoute::LoadFloat)
            && spec_expression_route(Shape::BinaryOp(t)) == Some(ExprRoute::FloatBinary),
        t.spec_is_integer() ==> spec_expression_route(Shape::LocalRef(t)) == Some(ExprRoute::LoadInteger)
            && spec_expression_route(Shape::BinaryOp(t)) == Some(ExprRoute::IntegerBinary),
        t is Bool ==> spec_expression_route(Shape::LocalRef(t)) == Some(ExprRoute::LoadInteger)
            && spec_expression_route(Shape::BinaryOp(t)) == Some(ExprRoute::BoolBinary),
        (t is Str || t is T) ==> spec_expression_route(Shape::LocalRef(t)) == Some(ExprRoute::Pointer),
{
}

/// Each numeric type gives a local of its own family.
pub proof fn lemma_local_kind_follows_type(t: Type)
    ensures
        t.spec_is_integer() ==> spec_local_kind(t) == Some(LocalKind::Integer),
        t.spec_is_float() ==> spec_local_kind(t) == Some(LocalKind::Float),
        t is Bool ==> spec_local_kind(t) == Some(LocalKind::Bool),
        t is Void ==> spec_local_kind(t) is None,
{
}

} // verus!
