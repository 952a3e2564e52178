use vstd::prelude::*;

use crate::codegen::LLVMAttribute;
use crate::issue::{Span, ThrushCompilerIssue};
use crate::tokens::TokenKind;
use crate::types::ThrushType;

verus! {

/// What a reference names.
#[derive(Debug, Clone, Copy, PartialEq, Eq, Structural)]
pub enum ReferenceIdentificator {
    Constant,
    FunctionParameter,
    LowLevelInstruction,
    Local,
}

/// The statements and expressions the parser builds here.
#[derive(Debug)]
pub enum ThrushStatement {
    /// A use of a named value.
    Reference {
        name: String,
        kind: ThrushType,
        span: Span,
        identificator: ReferenceIdentificator,
        is_mutable: bool,
        is_allocated: bool,
    },
    /// A unary operation; `is_pre` tells a prefix from a postfix one.
    UnaryOp {
        operator: TokenKind,
        expression: Box<ThrushStatement>,
        kind: ThrushType,
        is_pre: bool,
        span: Span,
    },
    /// An integer literal: its type, magnitude and whether it is negated.
    Integer { kind: ThrushType, value: u64, signed: bool, span: Span },
    /// A float literal whose value is the whole number `value`.
    Float { kind: ThrushType, value: u64, signed: bool, span: Span },
    /// A boolean literal, 0 for false.
    Boolean { kind: ThrushType, value: u64, span: Span },
    /// A character literal by its code.
    Char { kind: ThrushType, value: u64, span: Span },
    /// An enumeration: its name and its fields with their values.
    Enum { name: String, fields: Vec<(String, ThrushStatement)>, span: Span },
    /// Nothing.
    Null { span: Span },
    /// A constant declaration: its name, whether it is public, and where it stands.
    Const { name: String, is_public: bool, span: Span },
    /// A structure declaration: its name, its fields (name, type, position and
    /// place of each), whether it is public, and where it stands.
    Struct { name: String, fields: Vec<(String, ThrushType, u32, Span)>, is_public: bool, span: Span },
    /// A function declaration: its name, whether it is public, and where it stands.
    Function { name: String, is_public: bool, span: Span },
    /// An assembler function declaration: its name, whether it is public, and where
    /// it stands.
    AssemblerFunction { name: String, is_public: bool, span: Span },
    /// A block of statements.
    Block { stmts: Vec<ThrushStatement>, span: Span },
}

/// Where a statement stands.
pub open spec fn spec_stmt_span(s: ThrushStatement) -> Span {
    match s {
        ThrushStatement::Reference { span, .. } => span,
        ThrushStatement::UnaryOp { span, .. } => span,
        ThrushStatement::Integer { span, .. } => span,
        ThrushStatement::Float { span, .. } => span,
        ThrushStatement::Boolean { span, .. } => span,
        ThrushStatement::Char { span, .. } => span,
        ThrushStatement::Enum { span, .. } => span,
        ThrushStatement::Null { span } => span,
        ThrushStatement::Const { span, .. } => span,
        ThrushStatement::Struct { span, .. } => span,
        ThrushStatement::Function { span, .. } => span,
        ThrushStatement::AssemblerFunction { span, .. } => span,
        ThrushStatement::Block { span, .. } => span,
    }
}

impl ThrushStatement {
    /// Where the statement stands.
    pub fn get_span(&self) -> (r: Span)
        ensures
            r == spec_stmt_span(*self),
    {
        match self {
            ThrushStatement::Reference { span, .. } => *span,
            ThrushStatement::UnaryOp { span, .. } => *span,
            ThrushStatement::Integer { span, .. } => *span,
            ThrushStatement::Float { span, .. } => *span,
            ThrushStatement::Boolean { span, .. } => *span,
            ThrushStatement::Char { span, .. } => *span,
            ThrushStatement::Enum { span, .. } => *span,
            ThrushStatement::Null { span } => *span,
            ThrushStatement::Const { span, .. } => *span,
            ThrushStatement::Struct { span, .. } => *span,
            ThrushStatement::Function { span, .. } => *span,
            ThrushStatement::AssemblerFunction { span, .. } => *span,
            ThrushStatement::Block { span, .. } => *span,
        }
    }
}

/// A name as the symbols table resolved it, with what the reference needs of it:
/// its type and, for parameters and locals, whether it is mutable.
#[derive(Debug)]
pub enum FoundSymbol {
    Constant(ThrushType),
    Parameter(ThrushType, bool),
    LowLevelInstruction(ThrushType),
    Local(ThrushType, bool),
}

/// The reference a resolved name stands for: its identificator, whether it is
/// mutable and whether it lives in memory (constants and locals always; parameters
/// of mutable, pointer or address type; low-level instructions of pointer or
/// address type).
pub open spec fn reference_shape(symbol: FoundSymbol) -> (ReferenceIdentificator, bool, bool) {
    match symbol {
        FoundSymbol::Constant(_) => (ReferenceIdentificator::Constant, false, true),
        FoundSymbol::Parameter(kind, is_mutable) => (
            ReferenceIdentificator::FunctionParameter,
            is_mutable,
            kind is Mut || kind is Ptr || kind is Address,
        ),
        FoundSymbol::LowLevelInstruction(kind) => (
            ReferenceIdentificator::LowLevelInstruction,
            false,
            kind is Ptr || kind is Address,
        ),
        FoundSymbol::Local(_, is_mutable) => (ReferenceIdentificator::Local, is_mutable, true),
    }
}

pub open spec fn symbol_type(symbol: FoundSymbol) -> ThrushType {
    match symbol {
        FoundSymbol::Constant(kind) => kind,
        FoundSymbol::Parameter(kind, _) => kind,
        FoundSymbol::LowLevelInstruction(kind) => kind,
        FoundSymbol::Local(kind, _) => kind,
    }
}

/// A reference with the given parts.
pub open spec fn is_reference(
    s: ThrushStatement,
    name: Seq<char>,
    kind: ThrushType,
    span: Span,
    shape: (ReferenceIdentificator, bool, bool),
) -> bool {
    s matches ThrushStatement::Reference { name: n, kind: k, span: sp, identificator, is_mutable, is_allocated }
        && n@ == name && k.spec_same(kind) && sp == span && identificator == shape.0 && is_mutable
        == shape.1 && is_allocated == shape.2
}

/// Builds the reference to the value `name` resolves to. A local followed by `++`
/// or `--` (the token `next`, at `next_span`) becomes a postfix unary operation on
/// it; the second part of the result tells whether that token was taken.
pub fn build_reference(symbol: FoundSymbol, name: &str, span: Span, next: TokenKind, next_span: Span) -> (r: (ThrushStatement, bool))
    ensures
        ({
            let shape = reference_shape(symbol);
            let kind = symbol_type(symbol);
            if symbol is Local && (next is PlusPlus || next is MinusMinus) {
                &&& r.1
                &&& r.0 matches ThrushStatement::UnaryOp { operator, expression, kind: k, is_pre, span: sp }
                &&& operator == next && k.spec_same(kind) && !is_pre && sp == next_span
                &&& is_reference(*expression, name@, kind, span, shape)
            } else {
                !r.1 && is_reference(r.0, name@, kind, span, shape)
            }
        }),
{
    proof {
        crate::types::lemma_same_reflexive(symbol_type(symbol));
    }
    match symbol {
        FoundSymbol::Constant(constant_type) => {
            (
                ThrushStatement::Reference {
                    name: String::from_str(name),
                    kind: constant_type,
                    span,
                    identificator: ReferenceIdentificator::Constant,
                    is_mutable: false,
                    is_allocated: true,
                },
                false,
            )
        },
        FoundSymbol::Parameter(parameter_type, is_mutable) => {
            let is_allocated: bool = parameter_type.is_mut_type() || parameter_type.is_ptr_type()
                || parameter_type.is_address_type();
            (
                ThrushStatement::Reference {
                    name: String::from_str(name),
                    kind: parameter_type,
                    span,
                    is_mutable,
                    identificator: ReferenceIdentificator::FunctionParameter,
                    is_allocated,
                },
                false,
            )
        },
        FoundSymbol::LowLevelInstruction(lli_type) => {
            let is_allocated: bool = lli_type.is_ptr_type() || lli_type.is_address_type();
            (
                ThrushStatement::Reference {
                    name: String::from_str(name),
                    kind: lli_type,
                    span,
                    is_mutable: false,
                    identificator: ReferenceIdentificator::LowLevelInstruction,
                    is_allocated,
                },
                false,
            )
        },
        FoundSymbol::Local(local_type, is_mutable) => {
            let reference_type: ThrushType = local_type.duplicate();
            let reference: ThrushStatement = ThrushStatement::Reference {
                name: String::from_str(name),
                kind: reference_type,
                span,
                is_mutable,
                identificator: ReferenceIdentificator::Local,
                is_allocated: true,
            };
            if next == TokenKind::PlusPlus || next == TokenKind::MinusMinus {
                let unaryop: ThrushStatement = ThrushStatement::UnaryOp {
                    operator: next,
                    expression: Box::new(reference),
                    kind: local_type,
                    is_pre: false,
                    span: next_span,
                };
                return (unaryop, true);
            }
            (reference, false)
        },
    }
}

/// A field of an enumeration as written: its name, where it stands, its type, and
/// its value where one is written.
#[derive(Debug)]
pub struct EnumFieldSyntax {
    pub name: String,
    pub span: Span,
    pub kind: ThrushType,
    pub value: Option<ThrushStatement>,
}

/// An enumeration as written: where the `enum` keyword stands, its name and where
/// the name stands, the attributes written after the name, and its fields in
/// order.
#[derive(Debug)]
pub struct EnumSyntax {
    pub keyword_span: Span,
    pub name: String,
    pub span: Span,
    pub attributes: ThrushAttributes,
    pub fields: Vec<EnumFieldSyntax>,
}

/// The attributes of a declaration.
pub type ThrushAttributes = Vec<LLVMAttribute>;

/// The fields of an enumeration with their values.
pub type EnumFields = Vec<(String, ThrushStatement)>;

/// An enumeration as the symbols table records it: its fields with their values,
/// and its attributes.
pub type Enum = (EnumFields, ThrushAttributes);

/// Why an enumeration was refused.
pub enum EnumFailure {
    /// The field at this place has a type that is not an integer, boolean, char or float.
    NotNumeric(Span),
    /// The field at this place would get a default value beyond the last char.
    CharOverflow(Span),
}

/// The types an enumeration field may have.
pub open spec fn is_enum_field_type(t: ThrushType) -> bool {
    t.spec_is_integer() || t.spec_is_float() || t is Bool
}

/// The value a field without one gets: the number of such fields before it, as a
/// literal of the field's type.
pub open spec fn default_value(kind: ThrushType, counter: u64, span: Span) -> ThrushStatement {
    if kind.spec_is_float() {
        ThrushStatement::Float { kind, value: counter, signed: false, span }
    } else if kind is Bool {
        ThrushStatement::Boolean { kind, value: counter, span }
    } else if kind is Char {
        ThrushStatement::Char { kind, value: counter, span }
    } else {
        ThrushStatement::Integer { kind, value: counter, signed: false, span }
    }
}

/// The largest char code.
pub open spec fn max_char() -> u64 {
    0x10FFFF
}

/// The fields `fields[i..]` with their values, the next default being `counter`.
pub open spec fn enum_values(fields: Seq<EnumFieldSyntax>, i: int, counter: u64) -> Result<
    Seq<(String, ThrushStatement)>,
    EnumFailure,
>
    decreases fields.len() - i,
{
    if i < 0 || i >= fields.len() {
        Ok(Seq::empty())
    } else {
        let f = fields[i];
        if !is_enum_field_type(f.kind) {
            Err(EnumFailure::NotNumeric(f.span))
        } else {
            match f.value {
                None => if f.kind is Char && counter > max_char() {
                    Err(EnumFailure::CharOverflow(f.span))
                } else {
                    match enum_values(fields, i + 1, (counter + 1) as u64) {
                        Ok(rest) => Ok(seq![(f.name, default_value(f.kind, counter, f.span))] + rest),
                        Err(e) => Err(e),
                    }
                },
                Some(v) => match enum_values(fields, i + 1, counter) {
                    Ok(rest) => Ok(seq![(f.name, v)] + rest),
                    Err(e) => Err(e),
                },
            }
        }
    }
}

/// How many of `fields[..n]` have no value written.
pub open spec fn defaulted_before(fields: Seq<EnumFieldSyntax>, n: int) -> nat
    decreases n,
{
    if n <= 0 {
        0
    } else {
        defaulted_before(fields, n - 1) + if fields[n - 1].value is None {
            1nat
        } else {
            0nat
        }
    }
}

/// The field at `j` is accepted: its type is numeric, and if it takes a default
/// char value, that value is a char.
pub open spec fn enum_field_accepted(fields: Seq<EnumFieldSyntax>, j: int) -> bool {
    &&& is_enum_field_type(fields[j].kind)
    &&& !(fields[j].value is None && fields[j].kind is Char && defaulted_before(fields, j) > max_char())
}

/// The field at `j` with its value: the value written, else the number of fields
/// before it without a written value, as a literal of its type.
pub open spec fn enum_field_entry(fields: Seq<EnumFieldSyntax>, j: int) -> (String, ThrushStatement) {
    (
        fields[j].name,
        match fields[j].value {
            Some(v) => v,
            None => default_value(fields[j].kind, defaulted_before(fields, j) as u64, fields[j].span),
        },
    )
}

proof fn lemma_defaulted_bounded(fields: Seq<EnumFieldSyntax>, n: int)
    ensures
        defaulted_before(fields, n) <= if n < 0 { 0 } else { n },
    decreases n,
{
    if n > 0 {
        lemma_defaulted_bounded(fields, n - 1);
    }
}

proof fn lemma_enum_values_from(fields: Seq<EnumFieldSyntax>, i: int)
    requires
        0 <= i <= fields.len(),
        fields.len() <= u64::MAX,
    ensures
        ({
            let r = enum_values(fields, i, defaulted_before(fields, i) as u64);
            &&& r is Ok <==> forall|j: int| i <= j < fields.len() ==> enum_field_accepted(fields, j)
            &&& r is Ok ==> r->Ok_0.len() == fields.len() - i && forall|k: int|
                0 <= k < fields.len() - i ==> r->Ok_0[k] == enum_field_entry(fields, i + k)
        }),
    decreases fields.len() - i,
{
    lemma_defaulted_bounded(fields, i);
    lemma_defaulted_bounded(fields, i + 1);
    if i < fields.len() {
        lemma_enum_values_from(fields, i + 1);
        let c = defaulted_before(fields, i) as u64;
        assert(defaulted_before(fields, i + 1) == defaulted_before(fields, i) + if fields[i].value is None {
            1nat
        } else {
            0nat
        });
        let r = enum_values(fields, i, c);
        let rest = enum_values(fields, i + 1, defaulted_before(fields, i + 1) as u64);
        if !enum_field_accepted(fields, i) {
            assert(r is Err);
        } else {
            if fields[i].value is None {
                assert((c + 1) as u64 == defaulted_before(fields, i + 1) as u64);
            }
            assert(r is Ok <==> rest is Ok);
            if r is Ok {
                assert(r->Ok_0 == seq![enum_field_entry(fields, i)] + rest->Ok_0);
                assert forall|k: int| 0 <= k < fields.len() - i implies r->Ok_0[k] == enum_field_entry(fields, i + k) by {
                    if k > 0 {
                        assert(r->Ok_0[k] == rest->Ok_0[k - 1]);
                    }
                }
            }
            assert((forall|j: int| i <= j < fields.len() ==> enum_field_accepted(fields, j)) <==> (forall|j: int|
                i + 1 <= j < fields.len() ==> enum_field_accepted(fields, j)));
        }
    }
}

/// An enumeration is accepted exactly when every field is, and then its fields
/// keep their order and names: a written value is kept, and the k-th field without
/// one (counting from 0 over such fields alone) gets k as a literal of its type.
pub proof fn lemma_enum_field_values(fields: Seq<EnumFieldSyntax>)
    requires
        fields.len() <= u64::MAX,
    ensures
        enum_values(fields, 0, 0) is Ok <==> forall|j: int| 0 <= j < fields.len() ==> enum_field_accepted(fields, j),
        enum_values(fields, 0, 0) is Ok ==> ({
            let values = enum_values(fields, 0, 0)->Ok_0;
            &&& values.len() == fields.len()
            &&& forall|j: int| 0 <= j < fields.len() ==> values[j] == enum_field_entry(fields, j)
        }),
{
    lemma_enum_values_from(fields, 0);
    assert(defaulted_before(fields, 0) as u64 == 0);
}

/// The issue an enumeration failure is reported as.
pub open spec fn enum_failure_issue(f: EnumFailure, issue: ThrushCompilerIssue) -> bool {
    match f {
        EnumFailure::NotNumeric(span) => issue matches ThrushCompilerIssue::Error(title, desc, note, sp)
            && title@ == "Syntax error"@ && desc@ == "Expected integer, boolean, char or floating-point types."@
            && note is None && sp == span,
        EnumFailure::CharOverflow(span) => issue matches ThrushCompilerIssue::Error(title, desc, note, sp)
            && title@ == "Syntax error"@ && desc@ == "Char overflow."@ && note is None && sp == span,
    }
}

fn enum_error(description: &str, span: Span) -> (r: ThrushCompilerIssue)
    ensures
        r matches ThrushCompilerIssue::Error(title, desc, note, sp) && title@ == "Syntax error"@
            && desc@ == description@ && note is None && sp == span,
{
    proof {
        reveal_strlit("Syntax error");
    }
    ThrushCompilerIssue::Error(String::from_str("Syntax error"), String::from_str(description), None, span)
}

/// Builds an enumeration: outside the global scope it is refused; each field must
/// have an integer, boolean, char or float type; a field without a value gets the
/// number of such fields before it. When declaring forward, the enumeration is
/// recorded in `declared` with its fields, its attributes and the place of its
/// name, and nothing is returned in its place.
pub fn build_enum(
    syntax: EnumSyntax,
    is_main_scope: bool,
    declare_forward: bool,
    declared: &mut Vec<(String, Enum, Span)>,
) -> (r: Result<ThrushStatement, ThrushCompilerIssue>)
    requires
        old(declared)@.len() < usize::MAX,
    ensures
        !is_main_scope ==> (r matches Err(e) && e matches ThrushCompilerIssue::Error(title, desc, note, sp)
            && title@ == "Syntax error"@ && desc@ == "Enums are only defined globally."@ && note is None
            && sp == syntax.keyword_span && *final(declared) == *old(declared)),
        is_main_scope ==> match enum_values(syntax.fields@, 0, 0) {
            Err(f) => r matches Err(e) && enum_failure_issue(f, e) && *final(declared) == *old(declared),
            Ok(values) => if declare_forward {
                &&& r == Ok::<ThrushStatement, ThrushCompilerIssue>(ThrushStatement::Null { span: syntax.span })
                &&& final(declared)@.len() == old(declared)@.len() + 1
                &&& final(declared)@.drop_last() == old(declared)@
                &&& final(declared)@.last().0 == syntax.name
                &&& final(declared)@.last().1.0@ == values
                &&& final(declared)@.last().1.1 == syntax.attributes
                &&& final(declared)@.last().2 == syntax.span
            } else {
                &&& r matches Ok(ThrushStatement::Enum { name, fields, span })
                &&& name == syntax.name && fields@ == values && span == syntax.span
                &&& *final(declared) == *old(declared)
            },
        },
{
    proof {
        reveal_strlit("Enums are only defined globally.");
        reveal_strlit("Expected integer, boolean, char or floating-point types.");
        reveal_strlit("Char overflow.");
    }
    if !is_main_scope {
        return Err(enum_error("Enums are only defined globally.", syntax.keyword_span));
    }
    let ghost given_fields = syntax.fields@;
    let EnumSyntax { keyword_span: _, name: enum_name, span, attributes, fields } = syntax;
    let ghost all = fields@;
    let field_count: usize = fields.len();
    let mut rest: Vec<EnumFieldSyntax> = fields;
    let mut enum_fields: EnumFields = Vec::new();
    let mut default_value_counter: u64 = 0;
    let ghost mut i: int = 0;
    while rest.len() > 0
        invariant
            0 <= i <= all.len(),
            all.len() == field_count,
            all == given_fields,
            given_fields == syntax.fields@,
            is_main_scope,
            *declared == *old(declared),
            rest@ == all.subrange(i, all.len() as int),
            default_value_counter <= i,
            i <= usize::MAX,
            enum_values(all, 0, 0) == match enum_values(all, i, default_value_counter) {
                Ok(tail) => Ok(enum_fields@ + tail),
                Err(e) => Err::<Seq<(String, ThrushStatement)>, EnumFailure>(e),
            },
        decreases rest.len(),
    {
        let field: EnumFieldSyntax = rest.remove(0);
        assert(field == all[i]);
        let EnumFieldSyntax { name, span: field_span, kind: field_type, value } = field;
        if !(field_type.is_integer_type() || field_type.is_float_type() || field_type.is_bool_type()) {
            return Err(enum_error("Expected integer, boolean, char or floating-point types.", field_span));
        }
        match value {
            None => {
                if field_type.is_char_type() && default_value_counter > 0x10FFFF {
                    return Err(enum_error("Char overflow.", field_span));
                }
                let field_value: ThrushStatement = if field_type.is_float_type() {
                    ThrushStatement::Float { kind: field_type, value: default_value_counter, signed: false, span: field_span }
                } else if field_type.is_bool_type() {
                    ThrushStatement::Boolean { kind: field_type, value: default_value_counter, span: field_span }
                } else if field_type.is_char_type() {
                    ThrushStatement::Char { kind: field_type, value: default_value_counter, span: field_span }
                } else {
                    ThrushStatement::Integer { kind: field_type, value: default_value_counter, signed: false, span: field_span }
                };
                let ghost before = enum_fields@;
                enum_fields.push((name, field_value));
                proof {
                    assert(enum_fields@ == before + seq![(all[i].name, default_value(all[i].kind, default_value_counter, all[i].span))]);
                    let next = enum_values(all, i + 1, (default_value_counter + 1) as u64);
                    match next {
                        Ok(tail) => {
                            assert(before + (seq![(all[i].name, default_value(all[i].kind, default_value_counter, all[i].span))] + tail)
                                =~= enum_fields@ + tail);
                        },
                        Err(_) => {},
                    }
                }
                default_value_counter = default_value_counter + 1;
            },
            Some(expression) => {
                let ghost before = enum_fields@;
                enum_fields.push((name, expression));
                proof {
                    let next = enum_values(all, i + 1, default_value_counter);
                    match next {
                        Ok(tail) => {
                            assert(before + (seq![(all[i].name, all[i].value->Some_0)] + tail)
                                =~= enum_fields@ + tail);
                        },
                        Err(_) => {},
                    }
                }
            },
        }
        proof {
            i = i + 1;
        }
    }
    assert(enum_values(all, i, default_value_counter) == Ok::<Seq<(String, ThrushStatement)>, EnumFailure>(Seq::empty()));
    assert(enum_fields@ + Seq::<(String, ThrushStatement)>::empty() =~= enum_fields@);
    if declare_forward {
        declared.push((enum_name, (enum_fields, attributes), span));
        return Ok(ThrushStatement::Null { span });
    }
    Ok(ThrushStatement::Enum { name: enum_name, fields: enum_fields, span })
}

/// A reference names what it refers to by the kind of symbol it found, carries
/// that symbol's own mutability (a parameter's or a local's flag; constants and
/// low-level instructions are never mutable), and its type is the symbol's type.
pub proof fn lemma_reference_follows_symbol(kind: ThrushType, mutable: bool)
    ensures
        reference_shape(FoundSymbol::Parameter(kind, mutable)).0 == ReferenceIdentificator::FunctionParameter,
        reference_shape(FoundSymbol::Parameter(kind, mutable)).1 == mutable,
        reference_shape(FoundSymbol::Local(kind, mutable)).0 == ReferenceIdentificator::Local,
        reference_shape(FoundSymbol::Local(kind, mutable)).1 == mutable,
        reference_shape(FoundSymbol::Constant(kind)).0 == ReferenceIdentificator::Constant,
        !reference_shape(FoundSymbol::Constant(kind)).1,
        reference_shape(FoundSymbol::LowLevelInstruction(kind)).0 == ReferenceIdentificator::LowLevelInstruction,
        !reference_shape(FoundSymbol::LowLevelInstruction(kind)).1,
        symbol_type(FoundSymbol::Parameter(kind, mutable)) == kind,
        symbol_type(FoundSymbol::Local(kind, mutable)) == kind,
        symbol_type(FoundSymbol::Constant(kind)) == kind,
        symbol_type(FoundSymbol::LowLevelInstruction(kind)) == kind,
{
}

/// Constants and locals always live in memory; a parameter or a low-level
/// instruction does exactly when its value is an address: a pointer, an address,
/// or, for a parameter, a mutable type.
pub proof fn lemma_reference_allocation(kind: ThrushType, mutable: bool)
    ensures
        reference_shape(FoundSymbol::Constant(kind)).2,
        reference_shape(FoundSymbol::Local(kind, mutable)).2,
        reference_shape(FoundSymbol::Parameter(kind, mutable)).2 == (kind is Mut || kind is Ptr || kind is Address),
        reference_shape(FoundSymbol::LowLevelInstruction(kind)).2 == (kind is Ptr || kind is Address),
        !reference_shape(FoundSymbol::Parameter(kind, mutable)).2 ==> !(kind is Ptr),
{
}

} // verus!
