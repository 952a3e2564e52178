use vstd::prelude::*;

verus! {

/// The data types that tokens name.
#[derive(Debug, Clone, Copy, PartialEq, Eq, Structural)]
pub enum Type {
    S8,
    S16,
    S32,
    S64,
    U8,
    U16,
    U32,
    U64,
    F32,
    F64,
    Bool,
    Str,
    Char,
    Struct,
    T,
    Void,
}

/// How a data type is written in source text.
pub open spec fn spec_type_text(t: Type) -> Seq<char> {
    match t {
        Type::S8 => "s8"@,
        Type::S16 => "s16"@,
        Type::S32 => "s32"@,
        Type::S64 => "s64"@,
        Type::U8 => "u8"@,
        Type::U16 => "u16"@,
        Type::U32 => "u32"@,
        Type::U64 => "u64"@,
        Type::F32 => "f32"@,
        Type::F64 => "f64"@,
        Type::Bool => "bool"@,
        Type::Str => "str"@,
        Type::Char => "char"@,
        Type::Struct => "struct"@,
        Type::T => "T"@,
        Type::Void => "void"@,
    }
}

impl Type {
    pub open spec fn spec_is_integer(self) -> bool {
        self is S8 || self is S16 || self is S32 || self is S64 || self is U8 || self is U16 || self is U32
            || self is U64 || self is Char
    }

    pub open spec fn spec_is_float(self) -> bool {
        self is F32 || self is F64
    }

    /// Whether the type is an integer type, characters included.
    pub fn is_integer_type(&self) -> (r: bool)
        ensures
            r == self.spec_is_integer(),
    {
        matches!(
            self,
            Type::S8 | Type::S16 | Type::S32 | Type::S64 | Type::U8 | Type::U16 | Type::U32 | Type::U64
                | Type::Char
        )
    }

    pub fn is_float_type(&self) -> (r: bool)
        ensures
            r == self.spec_is_float(),
    {
        matches!(self, Type::F32 | Type::F64)
    }

    pub fn is_bool_type(&self) -> (r: bool)
        ensures
            r == (*self is Bool),
    {
        matches!(self, Type::Bool)
    }

    /// Whether the type is the string type.
    pub fn is_str(&self) -> (r: bool)
        ensures
            r == (*self is Str),
    {
        matches!(self, Type::Str)
    }

    pub fn is_struct_type(&self) -> (r: bool)
        ensures
            r == (*self is Struct),
    {
        matches!(self, Type::Struct)
    }

    /// Whether the type is the raw pointer type `T`.
    pub fn is_raw_ptr(&self) -> (r: bool)
        ensures
            r == (*self is T),
    {
        matches!(self, Type::T)
    }

    /// How the type is written in source text.
    pub fn to_text(&self) -> (r: String)
        ensures
            r@ == spec_type_text(*self),
    {
        let text: &str = match self {
            Type::S8 => "s8",
            Type::S16 => "s16",
            Type::S32 => "s32",
            Type::S64 => "s64",
            Type::U8 => "u8",
            Type::U16 => "u16",
            Type::U32 => "u32",
            Type::U64 => "u64",
            Type::F32 => "f32",
            Type::F64 => "f64",
            Type::Bool => "bool",
            Type::Str => "str",
            Type::Char => "char",
            Type::Struct => "struct",
            Type::T => "T",
            Type::Void => "void",
        };
        proof {
            reveal_strlit("s8");
            reveal_strlit("s16");
            reveal_strlit("s32");
            reveal_strlit("s64");
            reveal_strlit("u8");
            reveal_strlit("u16");
            reveal_strlit("u32");
            reveal_strlit("u64");
            reveal_strlit("f32");
            reveal_strlit("f64");
            reveal_strlit("bool");
            reveal_strlit("str");
            reveal_strlit("char");
            reveal_strlit("struct");
            reveal_strlit("T");
            reveal_strlit("void");
        }
        String::from_str(text)
    }
}

/// The kinds of token the lexer produces.
#[derive(Debug, Clone, Copy, PartialEq, Eq, Structural)]
pub enum TokenKind {
    LParen,
    RParen,
    LBrace,
    RBrace,
    Comma,
    Dot,
    Minus,
    Plus,
    Slash,
    Star,
    Colon,
    SemiColon,
    LBracket,
    RBracket,
    Arith,
    Bang,
    Range,
    ColonColon,
    BangEq,
    Eq,
    EqEq,
    Greater,
    GreaterEq,
    Less,
    LessEq,
    PlusPlus,
    MinusMinus,
    LShift,
    RShift,
    Identifier,
    And,
    Struct,
    Else,
    False,
    Fn,
    For,
    Continue,
    Break,
    Match,
    Pattern,
    If,
    Elif,
    NullT,
    Or,
    Return,
    This,
    True,
    Local,
    Const,
    While,
    Loop,
    /// An integer literal: its type, its magnitude and whether it is negated.
    Integer(Type, u64, bool),
    /// A float literal: its type, the bits of its value and whether it is negated.
    Float(Type, u64, bool),
    Str,
    Char,
    Builtin,
    Public,
    Ignore,
    MinSize,
    NoInline,
    AlwaysInline,
    InlineHint,
    Hot,
    SafeStack,
    WeakStack,
    StrongStack,
    PreciseFloats,
    Convention,
    Extern,
    Import,
    New,
    Eof,
    DataType(Type),
    /// The separator of function parameters in the older grammar.
    Pass,
}

/// How a token kind is written in messages.
pub open spec fn spec_token_text(k: TokenKind) -> Seq<char> {
    match k {
        TokenKind::LParen => "("@,
        TokenKind::RParen => ")"@,
        TokenKind::LBrace => "{"@,
        TokenKind::RBrace => "}"@,
        TokenKind::Comma => ","@,
        TokenKind::Dot => "."@,
        TokenKind::Minus => "-"@,
        TokenKind::Plus => "+"@,
        TokenKind::Slash => "/"@,
        TokenKind::Star => "*"@,
        TokenKind::Colon => ":"@,
        TokenKind::SemiColon => ";"@,
        TokenKind::LBracket => "["@,
        TokenKind::RBracket => "]"@,
        TokenKind::Arith => "%"@,
        TokenKind::Bang => "!"@,
        TokenKind::Range => ".."@,
        TokenKind::ColonColon => "::"@,
        TokenKind::BangEq => "!="@,
        TokenKind::Eq => "="@,
        TokenKind::EqEq => "=="@,
        TokenKind::Greater => ">"@,
        TokenKind::GreaterEq => ">="@,
        TokenKind::Less => "<"@,
        TokenKind::LessEq => "<="@,
        TokenKind::PlusPlus => "++"@,
        TokenKind::MinusMinus => "--"@,
        TokenKind::LShift => "<<"@,
        TokenKind::RShift => ">>"@,
        TokenKind::Identifier => "identifier"@,
        TokenKind::And => "and"@,
        TokenKind::Struct => "struct"@,
        TokenKind::Else => "else"@,
        TokenKind::False => "false"@,
        TokenKind::Fn => "fn"@,
        TokenKind::For => "for"@,
        TokenKind::Continue => "continue"@,
        TokenKind::Break => "break"@,
        TokenKind::Match => "match"@,
        TokenKind::Pattern => "pattern"@,
        TokenKind::If => "if"@,
        TokenKind::Elif => "elif"@,
        TokenKind::NullT => "nullT"@,
        TokenKind::Or => "or"@,
        TokenKind::Return => "return"@,
        TokenKind::This => "this"@,
        TokenKind::True => "true"@,
        TokenKind::Local => "local"@,
        TokenKind::Const => "const"@,
        TokenKind::While => "while"@,
        TokenKind::Loop => "loop"@,
        TokenKind::Integer(datatype, _, _) => spec_type_text(datatype),
        TokenKind::Float(datatype, _, _) => spec_type_text(datatype),
        TokenKind::Str => "str"@,
        TokenKind::Char => "char"@,
        TokenKind::Builtin => "built-in"@,
        TokenKind::Public => "@public"@,
        TokenKind::Ignore => "@ignore"@,
        TokenKind::MinSize => "@minsize"@,
        TokenKind::NoInline => "@noinline"@,
        TokenKind::AlwaysInline => "@alwaysinline"@,
        TokenKind::InlineHint => "@inlinehint"@,
        TokenKind::Hot => "@hot"@,
        TokenKind::SafeStack => "@safestack"@,
        TokenKind::WeakStack => "@weakstack"@,
        TokenKind::StrongStack => "@strongstack"@,
        TokenKind::PreciseFloats => "@precisefloats"@,
        TokenKind::Convention => "@convention"@,
        TokenKind::Extern => "@extern"@,
        TokenKind::Import => "@import"@,
        TokenKind::New => "new"@,
        TokenKind::Eof => "EOF"@,
        TokenKind::DataType(datatype) => spec_type_text(datatype),
        TokenKind::Pass => "pass"@,
    }
}

impl TokenKind {
    /// How the token kind is written in messages.
    pub fn to_text(&self) -> (r: String)
        ensures
            r@ == spec_token_text(*self),
    {
        let text: &str = match self {
            TokenKind::LParen => "(",
            TokenKind::RParen => ")",
            TokenKind::LBrace => "{",
            TokenKind::RBrace => "}",
            TokenKind::Comma => ",",
            TokenKind::Dot => ".",
            TokenKind::Minus => "-",
            TokenKind::Plus => "+",
            TokenKind::Slash => "/",
            TokenKind::Star => "*",
            TokenKind::Colon => ":",
            TokenKind::SemiColon => ";",
            TokenKind::LBracket => "[",
            TokenKind::RBracket => "]",
            TokenKind::Arith => "%",
            TokenKind::Bang => "!",
            TokenKind::Range => "..",
            TokenKind::ColonColon => "::",
            TokenKind::BangEq => "!=",
            TokenKind::Eq => "=",
            TokenKind::EqEq => "==",
            TokenKind::Greater => ">",
            TokenKind::GreaterEq => ">=",
            TokenKind::Less => "<",
            TokenKind::LessEq => "<=",
            TokenKind::PlusPlus => "++",
            TokenKind::MinusMinus => "--",
            TokenKind::LShift => "<<",
            TokenKind::RShift => ">>",
            TokenKind::Identifier => "identifier",
            TokenKind::And => "and",
            TokenKind::Struct => "struct",
            TokenKind::Else => "else",
            TokenKind::False => "false",
            TokenKind::Fn => "fn",
            TokenKind::For => "for",
            TokenKind::Continue => "continue",
            TokenKind::Break => "break",
            TokenKind::Match => "match",
            TokenKind::Pattern => "pattern",
            TokenKind::If => "if",
            TokenKind::Elif => "elif",
            TokenKind::NullT => "nullT",
            TokenKind::Or => "or",
            TokenKind::Return => "return",
            TokenKind::This => "this",
            TokenKind::True => "true",
            TokenKind::Local => "local",
            TokenKind::Const => "const",
            TokenKind::While => "while",
            TokenKind::Loop => "loop",
            TokenKind::Integer(datatype, _, _) => return datatype.to_text(),
            TokenKind::Float(datatype, _, _) => return datatype.to_text(),
            TokenKind::Str => "str",
            TokenKind::Char => "char",
            TokenKind::Builtin => "built-in",
            TokenKind::Public => "@public",
            TokenKind::Ignore => "@ignore",
            TokenKind::MinSize => "@minsize",
            TokenKind::NoInline => "@noinline",
            TokenKind::AlwaysInline => "@alwaysinline",
            TokenKind::InlineHint => "@inlinehint",
            TokenKind::Hot => "@hot",
            TokenKind::SafeStack => "@safestack",
            TokenKind::WeakStack => "@weakstack",
            TokenKind::StrongStack => "@strongstack",
            TokenKind::PreciseFloats => "@precisefloats",
            TokenKind::Convention => "@convention",
            TokenKind::Extern => "@extern",
            TokenKind::Import => "@import",
            TokenKind::New => "new",
            TokenKind::Eof => "EOF",
            TokenKind::DataType(datatype) => return datatype.to_text(),
            TokenKind::Pass => "pass",
        };
        proof {
            reveal_strlit("(");
            reveal_strlit(")");
            reveal_strlit("{");
            reveal_strlit("}");
            reveal_strlit(",");
            reveal_strlit(".");
            reveal_strlit("-");
            reveal_strlit("+");
            reveal_strlit("/");
            reveal_strlit("*");
            reveal_strlit(":");
            reveal_strlit(";");
            reveal_strlit("[");
            reveal_strlit("]");
            reveal_strlit("%");
            reveal_strlit("!");
            reveal_strlit("..");
            reveal_strlit("::");
            reveal_strlit("!=");
            reveal_strlit("=");
            reveal_strlit("==");
            reveal_strlit(">");
            reveal_strlit(">=");
            reveal_strlit("<");
            reveal_strlit("<=");
            reveal_strlit("++");
            reveal_strlit("--");
            reveal_strlit("<<");
            reveal_strlit(">>");
            reveal_strlit("identifier");
            reveal_strlit("and");
            reveal_strlit("struct");
            reveal_strlit("else");
            reveal_strlit("false");
            reveal_strlit("fn");
            reveal_strlit("for");
            reveal_strlit("continue");
            reveal_strlit("break");
            reveal_strlit("match");
            reveal_strlit("pattern");
            reveal_strlit("if");
            reveal_strlit("elif");
            reveal_strlit("nullT");
            reveal_strlit("or");
            reveal_strlit("return");
            reveal_strlit("this");
            reveal_strlit("true");
            reveal_strlit("local");
            reveal_strlit("const");
            reveal_strlit("while");
            reveal_strlit("loop");
            reveal_strlit("str");
            reveal_strlit("char");
            reveal_strlit("built-in");
            reveal_strlit("@public");
            reveal_strlit("@ignore");
            reveal_strlit("@minsize");
            reveal_strlit("@noinline");
            reveal_strlit("@alwaysinline");
            reveal_strlit("@inlinehint");
            reveal_strlit("@hot");
            reveal_strlit("@safestack");
            reveal_strlit("@weakstack");
            reveal_strlit("@strongstack");
            reveal_strlit("@precisefloats");
            reveal_strlit("@convention");
            reveal_strlit("@extern");
            reveal_strlit("@import");
            reveal_strlit("new");
            reveal_strlit("EOF");
            reveal_strlit("pass");
        }
        String::from_str(text)
    }
}

/// A token of the older front end: its kind, its text where it has one, and its line.
#[derive(Debug)]
pub struct Token {
    pub kind: TokenKind,
    pub lexeme: Option<String>,
    pub line: usize,
}

} // verus!
