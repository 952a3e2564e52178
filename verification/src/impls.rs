use vstd::prelude::*;

use crate::issue::ThrushCompilerError;
use crate::tokens::Type;

verus! {

/// The fields of a structure: for each, its name, the name of the structure type
/// it holds (empty when none) and its data type.
pub type Struct<'a> = Vec<(&'a str, &'a str, Type)>;

/// What a name was found to be: a structure, a function, or a local (with the
/// index of the scope it lives in).
pub type FoundObjectId<'a> = (Option<&'a str>, Option<&'a str>, Option<(&'a str, usize)>);

/// A line and the columns on it.
pub type CodeLocation = (usize, (usize, usize));

/// The index of the first field named `name`, from `from` on.
pub open spec fn first_field<'a>(fields: Seq<(&'a str, &'a str, Type)>, name: Seq<char>, from: int) -> Option<int>
    decreases fields.len() - from,
{
    if from < 0 || from >= fields.len() {
        None
    } else if fields[from].0@ == name {
        Some(from)
    } else {
        first_field(fields, name, from + 1)
    }
}

pub trait StructureExtensions<'a> {
    fn contains_field(&self, field_name: &str) -> bool;

    fn get_field_type(&self, field_name: &str, default: (Type, &'a str)) -> (Type, &'a str);
}

pub trait FoundObjectExtensions {
    fn is_structure(&self) -> bool;

    fn is_function(&self) -> bool;

    fn is_local(&self) -> bool;
}

pub trait FoundObjectEither<'instr> {
    fn expected_local(&self, location: CodeLocation) -> Result<(&'instr str, usize), ThrushCompilerError>;

    fn expected_function(&self, location: CodeLocation) -> Result<&'instr str, ThrushCompilerError>;
}

fn str_equals(a: &str, b: &str) -> (r: bool)
    ensures
        r == (a@ == b@),
{
    let left: String = String::from_str(a);
    let right: String = String::from_str(b);
    left == right
}

proof fn lemma_first_field<'a>(fields: Seq<(&'a str, &'a str, Type)>, name: Seq<char>, from: int)
    ensures
        first_field(fields, name, from) matches Some(i) ==> 0 <= from <= i < fields.len()
            && fields[i].0@ == name,
        first_field(fields, name, from) is None ==> forall|j: int|
            0 <= from <= j < fields.len() ==> (#[trigger] fields[j]).0@ != name,
    decreases fields.len() - from,
{
    if 0 <= from < fields.len() && fields[from].0@ != name {
        lemma_first_field(fields, name, from + 1);
    }
}

fn find_field<'a>(fields: &Struct<'a>, field_name: &str) -> (r: Option<usize>)
    ensures
        r matches Some(k) ==> first_field(fields@, field_name@, 0) == Some(k as int),
        r is None ==> first_field(fields@, field_name@, 0) is None,
{
    let mut i: usize = 0;
    while i < fields.len()
        invariant
            0 <= i <= fields@.len(),
            first_field(fields@, field_name@, 0) == first_field(fields@, field_name@, i as int),
        decreases fields.len() - i,
    {
        if str_equals(fields[i].0, field_name) {
            return Some(i);
        }
        i = i + 1;
    }
    None
}

impl<'a> StructureExtensions<'a> for Struct<'a> {
    fn contains_field(&self, field_name: &str) -> (r: bool)
        ensures
            r == exists|i: int| 0 <= i < self@.len() && (#[trigger] self@[i]).0@ == field_name@,
    {
        proof {
            lemma_first_field(self@, field_name@, 0);
        }
        let found: Option<usize> = find_field(self, field_name);
        if let Some(k) = found {
            assert(self@[k as int].0@ == field_name@);
        }
        found.is_some()
    }

    fn get_field_type(&self, field_name: &str, default: (Type, &'a str)) -> (r: (Type, &'a str))
        ensures
            match first_field(self@, field_name@, 0) {
                Some(i) => r == (self@[i].2, self@[i].1),
                None => r == default,
            },
    {
        proof {
            lemma_first_field(self@, field_name@, 0);
        }
        match find_field(self, field_name) {
            Some(k) => (self[k].2, self[k].1),
            None => default,
        }
    }
}

impl<'a> FoundObjectExtensions for FoundObjectId<'a> {
    fn is_structure(&self) -> (r: bool)
        ensures
            r == (self.0 is Some),
    {
        self.0.is_some()
    }

    fn is_function(&self) -> (r: bool)
        ensures
            r == (self.1 is Some),
    {
        self.1.is_some()
    }

    fn is_local(&self) -> (r: bool)
        ensures
            r == (self.2 is Some),
    {
        self.2.is_some()
    }
}

impl<'instr> FoundObjectEither<'instr> for FoundObjectId<'instr> {
    fn expected_local(&self, location: CodeLocation) -> (r: Result<(&'instr str, usize), ThrushCompilerError>)
        ensures
            match self.2 {
                Some(local) => r == Ok::<(&'instr str, usize), ThrushCompilerError>(local),
                None => r matches Err(ThrushCompilerError::Error(title, desc, line, span)) && title@
                    == "Expected local reference"@ && desc@ == "Expected local but found something else."@
                    && line == location.0 && span == Some(location.1),
            },
    {
        if let Some((name, scope_idx)) = self.2 {
            return Ok((name, scope_idx));
        }
        proof {
            reveal_strlit("Expected local reference");
            reveal_strlit("Expected local but found something else.");
        }
        Err(
            ThrushCompilerError::Error(
                String::from_str("Expected local reference"),
                String::from_str("Expected local but found something else."),
                location.0,
                Some(location.1),
            ),
        )
    }

    fn expected_function(&self, location: CodeLocation) -> (r: Result<&'instr str, ThrushCompilerError>)
        ensures
            match self.1 {
                Some(name) => r == Ok::<&'instr str, ThrushCompilerError>(name),
                None => r matches Err(ThrushCompilerError::Error(title, desc, line, span)) && title@
                    == "Expected function reference"@ && desc@
                    == "Expected function but found something else."@ && line == location.0 && span
                    == Some(location.1),
            },
    {
        if let Some(name) = self.1 {
            return Ok(name);
        }
        proof {
            reveal_strlit("Expected function reference");
            reveal_strlit("Expected function but found something else.");
        }
        Err(
            ThrushCompilerError::Error(
                String::from_str("Expected function reference"),
                String::from_str("Expected function but found something else."),
                location.0,
                Some(location.1),
            ),
        )
    }
}

} // verus!
