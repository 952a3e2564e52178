use vstd::prelude::*;

use crate::issue::{Span, ThrushCompilerIssue};
use crate::tokens::{spec_token_text, TokenKind};
use crate::types::ThrushType;

verus! {

/// How a type is written in messages.
pub open spec fn spec_type_name(t: ThrushType) -> Seq<char>
    decreases t,
{
    match t {
        ThrushType::S8 => "s8"@,
        ThrushType::S16 => "s16"@,
        ThrushType::S32 => "s32"@,
        ThrushType::S64 => "s64"@,
        ThrushType::U8 => "u8"@,
        ThrushType::U16 => "u16"@,
        ThrushType::U32 => "u32"@,
        ThrushType::U64 => "u64"@,
        ThrushType::F32 => "f32"@,
        ThrushType::F64 => "f64"@,
        ThrushType::Bool => "bool"@,
        ThrushType::Char => "char"@,
        ThrushType::Str => "str"@,
        ThrushType::Mut(inner) => "mut "@ + spec_type_name(*inner),
        ThrushType::Ptr(None) => "ptr"@,
        ThrushType::Ptr(Some(inner)) => "ptr["@ + spec_type_name(*inner) + "]"@,
        ThrushType::Struct(name, _) => name@,
        ThrushType::Me(_) => "Me"@,
        ThrushType::Address => "addr"@,
        ThrushType::Void => "void"@,
    }
}

/// How a type is written in messages.
pub fn type_display(t: &ThrushType) -> (r: String)
    ensures
        r@ == spec_type_name(*t),
    decreases t,
{
    proof {
        reveal_strlit("s8");
        reveal_strlit("s16");
        reveal_strlit("s32");
        reveal_strlit("s64");
        reveal_strlit("u8");
        reveal_strlit("u16");
        reveal_strlit("u32");
        reveal_strlit("u64");
        reveal_strlit("f32");
        reveal_strlit("f64");
        reveal_strlit("bool");
        reveal_strlit("char");
        reveal_strlit("str");
        reveal_strlit("mut ");
        reveal_strlit("ptr");
        reveal_strlit("ptr[");
        reveal_strlit("]");
        reveal_strlit("Me");
        reveal_strlit("addr");
        reveal_strlit("void");
    }
    match t {
        ThrushType::S8 => String::from_str("s8"),
        ThrushType::S16 => String::from_str("s16"),
        ThrushType::S32 => String::from_str("s32"),
        ThrushType::S64 => String::from_str("s64"),
        ThrushType::U8 => String::from_str("u8"),
        ThrushType::U16 => String::from_str("u16"),
        ThrushType::U32 => String::from_str("u32"),
        ThrushType::U64 => String::from_str("u64"),
        ThrushType::F32 => String::from_str("f32"),
        ThrushType::F64 => String::from_str("f64"),
        ThrushType::Bool => String::from_str("bool"),
        ThrushType::Char => String::from_str("char"),
        ThrushType::Str => String::from_str("str"),
        ThrushType::Mut(inner) => {
            let mut s = String::from_str("mut ");
            let rest = type_display(&**inner);
            s.append(rest.as_str());
            s
        },
        ThrushType::Ptr(None) => String::from_str("ptr"),
        ThrushType::Ptr(Some(inner)) => {
            let mut s = String::from_str("ptr[");
            let rest = type_display(&**inner);
            s.append(rest.as_str());
            s.append("]");
            s
        },
        ThrushType::Struct(name, _) => name.clone(),
        ThrushType::Me(_) => String::from_str("Me"),
        ThrushType::Address => String::from_str("addr"),
        ThrushType::Void => String::from_str("void"),
    }
}

/// The outcome of checking a unary operation on an operand of type `a`: `-`, `++`
/// and `--` need an integer or float operand, `!` a boolean one; other operators
/// are not checked here.
pub open spec fn unary_accepted(operator: TokenKind, a: ThrushType) -> bool {
    match operator {
        TokenKind::Minus | TokenKind::PlusPlus | TokenKind::MinusMinus => a.spec_is_integer()
            || a.spec_is_float(),
        TokenKind::Bang => a is Bool,
        _ => true,
    }
}

/// The description of the issue a refused unary operation is reported with.
pub open spec fn unary_refusal(operator: TokenKind, a: ThrushType) -> Seq<char> {
    match operator {
        TokenKind::Bang => "Logical (!"@ + spec_type_name(a) + ") isn't allowed."@,
        _ => "Arithmetic '"@ + spec_token_text(operator) + "' with '"@ + spec_type_name(a)
            + "' isn't allowed."@,
    }
}

/// Checks that unary `operator` can be applied to a value of type `a`.
pub fn validate_unary(operator: &TokenKind, a: &ThrushType, span: Span) -> (r: Result<(), ThrushCompilerIssue>)
    ensures
        unary_accepted(*operator, *a) ==> r is Ok,
        !unary_accepted(*operator, *a) ==> (r matches Err(ThrushCompilerIssue::Error(title, desc, note, sp))
            && title@ == "Mismatched Types"@ && desc@ == unary_refusal(*operator, *a) && note is None
            && sp == span),
{
    match operator {
        TokenKind::Minus | TokenKind::PlusPlus | TokenKind::MinusMinus => validate_general_unary(
            operator,
            a,
            span,
        ),
        TokenKind::Bang => validate_unary_bang(a, span),
        _ => Ok(()),
    }
}

fn validate_general_unary(operator: &TokenKind, a: &ThrushType, span: Span) -> (r: Result<(), ThrushCompilerIssue>)
    ensures
        (a.spec_is_integer() || a.spec_is_float()) ==> r is Ok,
        !(a.spec_is_integer() || a.spec_is_float()) ==> (r matches Err(ThrushCompilerIssue::Error(title, desc, note, sp))
            && title@ == "Mismatched Types"@ && desc@ == "Arithmetic '"@ + spec_token_text(*operator) + "' with '"@
            + spec_type_name(*a) + "' isn't allowed."@ && note is None && sp == span),
{
    if a.is_integer_type() || a.is_float_type() {
        return Ok(());
    }
    proof {
        reveal_strlit("Mismatched Types");
        reveal_strlit("Arithmetic '");
        reveal_strlit("' with '");
        reveal_strlit("' isn't allowed.");
    }
    let mut description: String = String::from_str("Arithmetic '");
    let op_text: String = operator.to_text();
    description.append(op_text.as_str());
    description.append("' with '");
    let name: String = type_display(a);
    description.append(name.as_str());
    description.append("' isn't allowed.");
    Err(ThrushCompilerIssue::Error(String::from_str("Mismatched Types"), description, None, span))
}

fn validate_unary_bang(a: &ThrushType, span: Span) -> (r: Result<(), ThrushCompilerIssue>)
    ensures
        *a is Bool ==> r is Ok,
        !(*a is Bool) ==> (r matches Err(ThrushCompilerIssue::Error(title, desc, note, sp))
            && title@ == "Mismatched Types"@ && desc@ == "Logical (!"@ + spec_type_name(*a)
            + ") isn't allowed."@ && note is None && sp == span),
{
    if let ThrushType::Bool = a {
        return Ok(());
    }
    proof {
        reveal_strlit("Mismatched Types");
        reveal_strlit("Logical (!");
        reveal_strlit(") isn't allowed.");
    }
    let name: String = type_display(a);
    Err(
        ThrushCompilerIssue::Error(
            String::from_str("Mismatched Types"),
            crate::issue::concat3("Logical (!", name.as_str(), ") isn't allowed."),
            None,
            span,
        ),
    )
}

/// `-`, `++` and `--` accept the same operands, exactly the integer and float
/// types; `!` accepts booleans alone.
pub proof fn lemma_unary_acceptance(a: ThrushType)
    ensures
        unary_accepted(TokenKind::Minus, a) == (a.spec_is_integer() || a.spec_is_float()),
        unary_accepted(TokenKind::PlusPlus, a) == unary_accepted(TokenKind::Minus, a),
        unary_accepted(TokenKind::MinusMinus, a) == unary_accepted(TokenKind::Minus, a),
        unary_accepted(TokenKind::Bang, a) == (a is Bool),
{
}

} // verus!
