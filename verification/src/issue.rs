use vstd::prelude::*;

verus! {

/// A place in a source file: the line and the columns it covers.
#[derive(Clone, Copy, Debug, PartialEq, Eq, Structural)]
pub struct Span {
    pub line: usize,
    pub start: usize,
    pub end: usize,
}

/// What the front end reports: an error with a title, a description, an optional
/// note and a place, or a warning with a title, a description and a place.
#[derive(Debug)]
pub enum ThrushCompilerIssue {
    Error(String, String, Option<String>, Span),
    Warning(String, String, Span),
}

/// The error kind of the older front end stages (the import preprocessor and the
/// parser's object table): a title, a help text, the line it refers to, and a
/// further text that these stages leave empty.
#[derive(Debug)]
pub enum ThrushError {
    Error(String, String, usize, String),
}

/// The error kind of the reference lookups: a title, a description, the line and,
/// where known, the columns.
#[derive(Debug)]
pub enum ThrushCompilerError {
    Error(String, String, usize, Option<(usize, usize)>),
}

/// Three pieces of text put one after the other.
pub fn concat3(a: &str, b: &str, c: &str) -> (r: String)
    ensures
        r@ == a@ + b@ + c@,
{
    let mut s = String::from_str(a);
    s.append(b);
    s.append(c);
    s
}

} // verus!
