use vstd::prelude::*;

use crate::issue::{concat3, Span, ThrushCompilerIssue};
use crate::types::ThrushType;

verus! {

/// A field of a declared structure: its name, its type and its position.
pub type StructField = (String, ThrushType, u32);

/// A structure as the symbols table records it: its name and its fields in order.
pub struct StructDeclaration {
    pub name: String,
    pub fields: Vec<StructField>,
}

/// The declarations that property accesses are resolved against.
pub struct SymbolsTable {
    pub structs: Vec<StructDeclaration>,
}

/// Why a chain of property accesses could not be resolved.
pub enum PropertyFailure {
    /// The structure of this name is not declared.
    UnknownStructure(Seq<char>),
    /// The structure has no field of this name.
    UnknownProperty(Seq<char>),
    /// A property of this name was asked of a value that is not a structure.
    NotAStructure(Seq<char>),
}

/// The index of the first declared structure with the given name, from `from` on.
pub open spec fn find_struct(structs: Seq<StructDeclaration>, name: Seq<char>, from: int) -> Option<
    int,
>
    decreases structs.len() - from,
{
    if from < 0 || from >= structs.len() {
        None
    } else if structs[from].name@ == name {
        Some(from)
    } else {
        find_struct(structs, name, from + 1)
    }
}

/// The index of the first field with the given name, from `from` on.
pub open spec fn find_field(fields: Seq<StructField>, name: Seq<char>, from: int) -> Option<int>
    decreases fields.len() - from,
{
    if from < 0 || from >= fields.len() {
        None
    } else if fields[from].0@ == name {
        Some(from)
    } else {
        find_field(fields, name, from + 1)
    }
}

proof fn lemma_find_struct(structs: Seq<StructDeclaration>, name: Seq<char>, from: int)
    ensures
        find_struct(structs, name, from) matches Some(i) ==> 0 <= from <= i < structs.len()
            && structs[i].name@ == name,
    decreases structs.len() - from,
{
    if 0 <= from < structs.len() && structs[from].name@ != name {
        lemma_find_struct(structs, name, from + 1);
    }
}

proof fn lemma_find_field(fields: Seq<StructField>, name: Seq<char>, from: int)
    ensures
        find_field(fields, name, from) matches Some(i) ==> 0 <= from <= i < fields.len()
            && fields[i].0@ == name,
    decreases fields.len() - from,
{
    if 0 <= from < fields.len() && fields[from].0@ != name {
        lemma_find_field(fields, name, from + 1);
    }
}

/// Resolving `names[position..]` as a chain of property accesses on a value of type
/// `ty`: the type of the last property and, for each step, the field's type and
/// index.
pub open spec fn spec_decompose(
    position: int,
    names: Seq<Seq<char>>,
    ty: ThrushType,
    structs: Seq<StructDeclaration>,
) -> Result<(ThrushType, Seq<(ThrushType, u32)>), PropertyFailure>
    decreases names.len() - position,
{
    if position < 0 || position >= names.len() {
        Ok((ty, Seq::empty()))
    } else {
        match ty {
            ThrushType::Struct(name, _) => match find_struct(structs, name@, 0) {
                None => Err(PropertyFailure::UnknownStructure(name@)),
                Some(s) => match find_field(structs[s].fields@, names[position], 0) {
                    None => Err(PropertyFailure::UnknownProperty(names[position])),
                    Some(i) => {
                        let field_type = structs[s].fields@[i].1;
                        match spec_decompose(position + 1, names, field_type, structs) {
                            Ok((t, rest)) => Ok(
                                (t, seq![(field_type, i as u32)] + rest),
                            ),
                            Err(e) => Err(e),
                        }
                    },
                },
            },
            _ => Err(PropertyFailure::NotAStructure(names[position])),
        }
    }
}

/// One step of a property chain: on a value of structure type `ty`, the property
/// `names[p]` gives its field's type and the index of the first field of that name
/// in the declared structure; none where the structure or the field is unknown, or
/// `ty` is not a structure.
pub open spec fn property_step(names: Seq<Seq<char>>, ty: ThrushType, structs: Seq<StructDeclaration>, p: int) -> Option<
    (ThrushType, u32),
> {
    match ty {
        ThrushType::Struct(name, _) => match find_struct(structs, name@, 0) {
            Some(s) => match find_field(structs[s].fields@, names[p], 0) {
                Some(i) => Some((structs[s].fields@[i].1, i as u32)),
                None => None,
            },
            None => None,
        },
        _ => None,
    }
}

/// The type reached after `k` steps of the chain `names[p..]` from `ty`, if every
/// step resolves.
pub open spec fn type_after(names: Seq<Seq<char>>, ty: ThrushType, structs: Seq<StructDeclaration>, p: int, k: nat) -> Option<
    ThrushType,
>
    decreases k,
{
    if k == 0 {
        Some(ty)
    } else {
        match property_step(names, ty, structs, p) {
            Some((field_type, _)) => type_after(names, field_type, structs, p + 1, (k - 1) as nat),
            None => None,
        }
    }
}

/// Every step of the chain `names[p..]` from `ty` resolves.
pub open spec fn chain_resolves(names: Seq<Seq<char>>, ty: ThrushType, structs: Seq<StructDeclaration>, p: int) -> bool {
    forall|k: nat|
        k < names.len() - p ==> #[trigger] type_after(names, ty, structs, p, k) is Some && property_step(
            names,
            type_after(names, ty, structs, p, k)->Some_0,
            structs,
            p + k,
        ) is Some
}

proof fn lemma_type_after_step(names: Seq<Seq<char>>, ty: ThrushType, structs: Seq<StructDeclaration>, p: int, k: nat)
    requires
        type_after(names, ty, structs, p, k) is Some,
        property_step(names, type_after(names, ty, structs, p, k)->Some_0, structs, p + k) is Some,
    ensures
        type_after(names, ty, structs, p, k + 1) == Some(
            property_step(names, type_after(names, ty, structs, p, k)->Some_0, structs, p + k)->Some_0.0,
        ),
    decreases k,
{
    if k > 0 {
        let field_type = property_step(names, ty, structs, p)->Some_0.0;
        assert(type_after(names, ty, structs, p, k) == type_after(names, field_type, structs, p + 1, (k - 1) as nat));
        assert(p + 1 + (k - 1) == p + k);
        lemma_type_after_step(names, field_type, structs, p + 1, (k - 1) as nat);
        assert(((k - 1) as nat + 1) as nat == k);
        assert(type_after(names, ty, structs, p, k + 1) == type_after(names, field_type, structs, p + 1, k));
    } else {
        assert(p + k == p);
        let field_type = property_step(names, ty, structs, p)->Some_0.0;
        assert(type_after(names, ty, structs, p, 1) == type_after(names, field_type, structs, p + 1, 0));
    }
}

/// A chain of properties whose every step resolves is resolved step by step: the
/// k-th entry is the type of the field the k-th name selects and that field's
/// index in its structure (first match), each field type is the type the next step
/// starts from, and the result's type is the type reached after the last step.
pub proof fn lemma_chain_step_by_step(
    position: int,
    names: Seq<Seq<char>>,
    ty: ThrushType,
    structs: Seq<StructDeclaration>,
)
    requires
        0 <= position <= names.len(),
        chain_resolves(names, ty, structs, position),
    ensures
        ({
            let m = (names.len() - position) as nat;
            spec_decompose(position, names, ty, structs) matches Ok((t, steps)) && steps.len() == m && t
                == type_after(names, ty, structs, position, m)->Some_0 && forall|k: nat|
                k < m ==> {
                    &&& #[trigger] steps[k as int] == property_step(
                        names,
                        type_after(names, ty, structs, position, k)->Some_0,
                        structs,
                        position + k,
                    )->Some_0
                    &&& steps[k as int].0 == type_after(names, ty, structs, position, k + 1)->Some_0
                }
        }),
    decreases names.len() - position,
{
    let m = (names.len() - position) as nat;
    if position < names.len() {
        assert(type_after(names, ty, structs, position, 0) is Some);
        let (field_type, index) = property_step(names, ty, structs, position)->Some_0;
        assert forall|k: nat| k < names.len() - (position + 1) implies #[trigger] type_after(
            names,
            field_type,
            structs,
            position + 1,
            k,
        ) is Some && property_step(
            names,
            type_after(names, field_type, structs, position + 1, k)->Some_0,
            structs,
            position + 1 + k,
        ) is Some by {
            assert(type_after(names, ty, structs, position, k + 1) == type_after(
                names,
                field_type,
                structs,
                position + 1,
                k,
            ));
            assert(type_after(names, ty, structs, position, k + 1) is Some);
        }
        lemma_chain_step_by_step(position + 1, names, field_type, structs);
        assert(type_after(names, ty, structs, position, m) == type_after(
            names,
            field_type,
            structs,
            position + 1,
            (m - 1) as nat,
        ));
        let rest = spec_decompose(position + 1, names, field_type, structs)->Ok_0.1;
        let steps = spec_decompose(position, names, ty, structs)->Ok_0.1;
        assert(steps == seq![(field_type, index)] + rest);
        assert forall|k: nat| k < m implies {
            &&& #[trigger] steps[k as int] == property_step(
                names,
                type_after(names, ty, structs, position, k)->Some_0,
                structs,
                position + k,
            )->Some_0
            &&& steps[k as int].0 == type_after(names, ty, structs, position, k + 1)->Some_0
        } by {
            lemma_type_after_step(names, ty, structs, position, k);
            if k > 0 {
                assert(type_after(names, ty, structs, position, k) == type_after(
                    names,
                    field_type,
                    structs,
                    position + 1,
                    (k - 1) as nat,
                ));
                assert(steps[k as int] == rest[k - 1]);
            }
        }
    }
}

/// Two lists of (field type, index) pairs that agree entry by entry.
pub open spec fn same_indices(a: Seq<(ThrushType, u32)>, b: Seq<(ThrushType, u32)>) -> bool {
    a.len() == b.len() && forall|i: int|
        0 <= i < a.len() ==> (#[trigger] a[i]).0.spec_same(b[i].0) && a[i].1 == b[i].1
}

/// The issue that a failed resolution is reported as.
pub open spec fn failure_issue_matches(f: PropertyFailure, issue: ThrushCompilerIssue, span: Span) -> bool {
    match f {
        PropertyFailure::UnknownStructure(name) => issue matches ThrushCompilerIssue::Error(
            title,
            desc,
            note,
            sp,
        ) && title@ == "Structure not found"@ && desc@ == "'"@ + name + "' structure not defined."@
            && note is None && sp == span,
        PropertyFailure::UnknownProperty(name) => issue matches ThrushCompilerIssue::Error(
            title,
            desc,
            note,
            sp,
        ) && title@ == "Syntax error"@ && desc@ == "Expected existing property, not '"@ + name
            + "'."@ && note is None && sp == span,
        PropertyFailure::NotAStructure(name) => issue matches ThrushCompilerIssue::Error(
            title,
            desc,
            note,
            sp,
        ) && title@ == "Syntax error"@ && desc@ == "Existing property '"@ + name
            + "' is not a structure."@ && note is None && sp == span,
    }
}

fn syntax_error(description: String, span: Span) -> (r: ThrushCompilerIssue)
    ensures
        r matches ThrushCompilerIssue::Error(title, desc, note, sp) && title@ == "Syntax error"@
            && desc == description && note is None && sp == span,
{
    proof {
        reveal_strlit("Syntax error");
    }
    ThrushCompilerIssue::Error(String::from_str("Syntax error"), description, None, span)
}

fn str_equals(a: &str, b: &String) -> (r: bool)
    ensures
        r == (a@ == b@),
{
    let owned: String = String::from_str(a);
    owned == *b
}

impl SymbolsTable {
    /// The first declared structure with the given name.
    pub fn get_struct(&self, name: &str, span: Span) -> (r: Result<&StructDeclaration, ThrushCompilerIssue>)
        ensures
            match find_struct(self.structs@, name@, 0) {
                Some(i) => r matches Ok(d) && *d == self.structs@[i],
                None => r matches Err(e) && failure_issue_matches(
                    PropertyFailure::UnknownStructure(name@),
                    e,
                    span,
                ),
            },
    {
        let mut i: usize = 0;
        while i < self.structs.len()
            invariant
                0 <= i <= self.structs@.len(),
                find_struct(self.structs@, name@, 0) == find_struct(self.structs@, name@, i as int),
            decreases self.structs.len() - i,
        {
            if str_equals(name, &self.structs[i].name) {
                return Ok(&self.structs[i]);
            }
            i = i + 1;
        }
        proof {
            reveal_strlit("Structure not found");
            reveal_strlit("'");
            reveal_strlit("' structure not defined.");
        }
        Err(
            ThrushCompilerIssue::Error(
                String::from_str("Structure not found"),
                concat3("'", name, "' structure not defined."),
                None,
                span,
            ),
        )
    }
}

/// The first field of `fields` with the given name, with its index.
fn find_field_index(fields: &Vec<StructField>, name: &str) -> (r: Option<usize>)
    ensures
        r matches Some(k) ==> find_field(fields@, name@, 0) == Some(k as int),
        r is None ==> find_field(fields@, name@, 0) is None,
{
    let mut i: usize = 0;
    while i < fields.len()
        invariant
            0 <= i <= fields@.len(),
            find_field(fields@, name@, 0) == find_field(fields@, name@, i as int),
        decreases fields.len() - i,
    {
        if str_equals(name, &fields[i].0) {
            assert(find_field(fields@, name@, i as int) == Some(i as int));
            return Some(i);
        }
        i = i + 1;
    }
    None
}

/// Resolves `property_names[position..]` as a chain of property accesses on a value
/// of type `struct_type`: gives the type of the last property and, for each step,
/// the field's type and its index within its structure.
pub fn decompose_struct_property(
    position: usize,
    property_names: Vec<&str>,
    struct_type: ThrushType,
    symbols_table: &SymbolsTable,
    span: Span,
) -> (r: Result<(ThrushType, Vec<(ThrushType, u32)>), ThrushCompilerIssue>)
    ensures
        match spec_decompose(
            position as int,
            property_names@.map_values(|s: &str| s@),
            struct_type,
            symbols_table.structs@,
        ) {
            Ok((t, indices)) => r matches Ok((rt, ri)) && rt.spec_same(t) && same_indices(ri@, indices),
            Err(f) => r matches Err(e) && failure_issue_matches(f, e, span),
        },
{
    decompose_from(position, &property_names, &struct_type, symbols_table, span)
}

fn decompose_from(
    position: usize,
    property_names: &Vec<&str>,
    struct_type: &ThrushType,
    symbols_table: &SymbolsTable,
    span: Span,
) -> (r: Result<(ThrushType, Vec<(ThrushType, u32)>), ThrushCompilerIssue>)
    ensures
        match spec_decompose(
            position as int,
            property_names@.map_values(|s: &str| s@),
            *struct_type,
            symbols_table.structs@,
        ) {
            Ok((t, indices)) => r matches Ok((rt, ri)) && rt.spec_same(t) && same_indices(ri@, indices),
            Err(f) => r matches Err(e) && failure_issue_matches(f, e, span),
        },
    decreases property_names@.len() - position,
{
    let ghost names = property_names@.map_values(|s: &str| s@);
    let mut gep_indices: Vec<(ThrushType, u32)> = Vec::new();

    if position >= property_names.len() {
        let kind: ThrushType = struct_type.duplicate();
        return Ok((kind, gep_indices));
    }
    if let ThrushType::Struct(name, _) = struct_type {
        let structure: &StructDeclaration = match symbols_table.get_struct(name.as_str(), span) {
            Ok(s) => s,
            Err(e) => return Err(e),
        };
        let field_name: &str = property_names[position];
        assert(names[position as int] == field_name@);
        proof {
            lemma_find_struct(symbols_table.structs@, name@, 0);
            lemma_find_field(structure.fields@, field_name@, 0);
        }
        match find_field_index(&structure.fields, field_name) {
            Some(index) => {
                let field_type: ThrushType = structure.fields[index].1.duplicate();
                gep_indices.push((field_type, #[verifier::truncate] (index as u32)));
                let nested_result = decompose_from(
                    position + 1,
                    property_names,
                    &structure.fields[index].1,
                    symbols_table,
                    span,
                );
                let ghost field_spec_type = structure.fields@[index as int].1;
                let ghost inner = spec_decompose(
                    position + 1,
                    names,
                    field_spec_type,
                    symbols_table.structs@,
                );
                assert(names.len() == property_names@.len());
                assert(find_struct(symbols_table.structs@, name@, 0) is Some);
                let ghost si = find_struct(symbols_table.structs@, name@, 0)->Some_0;
                assert(symbols_table.structs@[si] == *structure);
                assert(find_field(symbols_table.structs@[si].fields@, names[position as int], 0) == Some(index as int));
                assert(spec_decompose(position as int, names, *struct_type, symbols_table.structs@)
                    == match inner {
                    Ok((t, rest)) => Ok((t, seq![(field_spec_type, index as u32)] + rest)),
                    Err(e) => Err(e),
                });
                match nested_result {
                    Ok((result_type, mut nested)) => {
                        let ghost first = gep_indices@;
                        let ghost nested_old = nested@;
                        gep_indices.append(&mut nested);
                        proof {
                            let rest = inner->Ok_0.1;
                            let expected = seq![(field_spec_type, index as u32)] + rest;
                            assert(gep_indices@ == first + nested_old);
                            assert forall|k: int| 0 <= k < gep_indices@.len() implies (
                            #[trigger] gep_indices@[k]).0.spec_same(expected[k].0)
                                && gep_indices@[k].1 == expected[k].1 by {
                                if k > 0 {
                                    assert(gep_indices@[k] == nested_old[k - 1]);
                                    assert(expected[k] == rest[k - 1]);
                                }
                            }
                        }
                        return Ok((result_type, gep_indices));
                    },
                    Err(e) => return Err(e),
                }
            },
            None => {
                proof {
                    reveal_strlit("Expected existing property, not '");
                    reveal_strlit("'.");
                }
                return Err(
                    syntax_error(
                        concat3("Expected existing property, not '", field_name, "'."),
                        span,
                    ),
                );
            },
        }
    }
    proof {
        reveal_strlit("Existing property '");
        reveal_strlit("' is not a structure.");
    }
    Err(
        syntax_error(
            concat3("Existing property '", property_names[position], "' is not a structure."),
            span,
        ),
    )
}

} // verus!
