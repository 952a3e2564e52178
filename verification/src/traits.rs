use vstd::prelude::*;

use crate::issue::ThrushError;

verus! {

/// What a token offers about its text.
pub trait TokenLexeme {
    fn to_str(&self) -> &str;

    fn to_string(&self) -> String;

    fn parse_scapes(&self, line: usize, span: (usize, usize)) -> Result<String, ThrushError>;
}

/// The error reporting a parser offers.
pub trait ParserErrorsBasics {
    fn add_error(&self) -> &str;
}

} // verus!
