use std::sync::Arc;
use vstd::prelude::*;

use crate::issue::{concat3, Span, ThrushCompilerIssue};

verus! {

/// The kind of declaration that a set of bindings belongs to.
#[derive(Debug, Clone, Copy)]
pub enum BindingsApplicant {
    Struct,
}

/// The types of the language, as the lexer and the type checker see them.
#[derive(Debug, Clone)]
pub enum ThrushType {
    // signed integers
    S8,
    S16,
    S32,
    S64,
    // unsigned integers
    U8,
    U16,
    U32,
    U64,
    // floating point
    F32,
    F64,
    Bool,
    Char,
    Str,
    Mut(Arc<ThrushType>),
    Ptr(Option<Arc<ThrushType>>),
    Struct(String, Vec<Arc<ThrushType>>),
    Me(Option<Arc<ThrushType>>),
    Address,
    Void,
}

/// A structure type taken apart: its name and the types of its fields.
pub type ThrushStructType = (String, Vec<Arc<ThrushType>>);

impl ThrushType {
    pub open spec fn spec_is_signed_integer(self) -> bool {
        self is S8 || self is S16 || self is S32 || self is S64
    }

    pub open spec fn spec_is_integer(self) -> bool {
        self.spec_is_signed_integer() || self is U8 || self is U16 || self is U32 || self is U64
            || self is Char
    }

    pub open spec fn spec_is_float(self) -> bool {
        self is F32 || self is F64
    }

    /// A structure whose fields name the structure itself.
    pub open spec fn spec_is_recursive(self) -> bool {
        match self {
            ThrushType::Struct(_, fields) => exists|i: int|
                0 <= i < fields.len() && *(#[trigger] fields[i]) is Me,
            _ => false,
        }
    }

    /// The type that an operation on a value of `self` and one of `other` is
    /// computed in: the widest signed integer that occurs, else the widest
    /// unsigned one, else the widest float; two mutable types are looked through;
    /// otherwise `self`.
    pub open spec fn spec_precompute(self, other: ThrushType) -> ThrushType
        decreases self,
    {
        if self is S64 || other is S64 {
            ThrushType::S64
        } else if self is S32 || other is S32 {
            ThrushType::S32
        } else if self is S16 || other is S16 {
            ThrushType::S16
        } else if self is S8 || other is S8 {
            ThrushType::S8
        } else if self is U64 || other is U64 {
            ThrushType::U64
        } else if self is U32 || other is U32 {
            ThrushType::U32
        } else if self is U16 || other is U16 {
            ThrushType::U16
        } else if self is U8 || other is U8 {
            ThrushType::U8
        } else if self is F64 || other is F64 {
            ThrushType::F64
        } else if self is F32 || other is F32 {
            ThrushType::F32
        } else {
            match (self, other) {
                (ThrushType::Mut(a), ThrushType::Mut(b)) => (*a).spec_precompute(*b),
                _ => self,
            }
        }
    }

    /// Equality of types as the type checker uses it: structures compare by their
    /// field types alone; `Address` equals nothing, itself included.
    pub open spec fn spec_eq(self, other: ThrushType) -> bool
        decreases self,
    {
        match (self, other) {
            (ThrushType::Struct(_, f1), ThrushType::Struct(_, f2)) => f1.len() == f2.len()
                && forall|i: int| 0 <= i < f1.len() ==> (*f1[i]).spec_eq(*#[trigger] f2[i]),
            (ThrushType::Mut(a), ThrushType::Mut(b)) => (*a).spec_eq(*b),
            (ThrushType::Ptr(Some(a)), ThrushType::Ptr(Some(b))) => (*a).spec_eq(*b),
            (ThrushType::Ptr(None), ThrushType::Ptr(None)) => true,
            (ThrushType::Me(Some(a)), ThrushType::Me(Some(b))) => (*a).spec_eq(*b),
            (ThrushType::Me(None), ThrushType::Me(None)) => true,
            (ThrushType::Char, ThrushType::Char) => true,
            (ThrushType::S8, ThrushType::S8) => true,
            (ThrushType::S16, ThrushType::S16) => true,
            (ThrushType::S32, ThrushType::S32) => true,
            (ThrushType::S64, ThrushType::S64) => true,
            (ThrushType::U8, ThrushType::U8) => true,
            (ThrushType::U16, ThrushType::U16) => true,
            (ThrushType::U32, ThrushType::U32) => true,
            (ThrushType::U64, ThrushType::U64) => true,
            (ThrushType::F32, ThrushType::F32) => true,
            (ThrushType::F64, ThrushType::F64) => true,
            (ThrushType::Void, ThrushType::Void) => true,
            (ThrushType::Str, ThrushType::Str) => true,
            (ThrushType::Bool, ThrushType::Bool) => true,
            _ => false,
        }
    }

    /// The same type: the same variant, the same structure name and the same
    /// parts, compared all the way down.
    pub open spec fn spec_same(self, other: ThrushType) -> bool
        decreases self,
    {
        match (self, other) {
            (ThrushType::Struct(n1, f1), ThrushType::Struct(n2, f2)) => n1@ == n2@ && f1.len()
                == f2.len() && forall|i: int|
                0 <= i < f1.len() ==> (*f1[i]).spec_same(*#[trigger] f2[i]),
            (ThrushType::Mut(a), ThrushType::Mut(b)) => (*a).spec_same(*b),
            (ThrushType::Ptr(Some(a)), ThrushType::Ptr(Some(b))) => (*a).spec_same(*b),
            (ThrushType::Ptr(None), ThrushType::Ptr(None)) => true,
            (ThrushType::Me(Some(a)), ThrushType::Me(Some(b))) => (*a).spec_same(*b),
            (ThrushType::Me(None), ThrushType::Me(None)) => true,
            (ThrushType::Struct(..), _) | (ThrushType::Mut(..), _) | (ThrushType::Ptr(..), _) | (
                ThrushType::Me(..),
                _,
            ) => false,
            _ => self == other,
        }
    }

    /// The signed counterpart of an unsigned integer type; any other type as it is.
    pub open spec fn spec_narrowing_cast(self) -> ThrushType {
        match self {
            ThrushType::U8 => ThrushType::S8,
            ThrushType::U16 => ThrushType::S16,
            ThrushType::U32 => ThrushType::S32,
            ThrushType::U64 => ThrushType::S64,
            _ => self,
        }
    }

    /// A copy of the type, field by field.
    #[verifier::loop_isolation(false)]
    pub fn duplicate(&self) -> (r: ThrushType)
        ensures
            r.spec_same(*self),
        decreases self,
    {
        match self {
            ThrushType::S8 => ThrushType::S8,
            ThrushType::S16 => ThrushType::S16,
            ThrushType::S32 => ThrushType::S32,
            ThrushType::S64 => ThrushType::S64,
            ThrushType::U8 => ThrushType::U8,
            ThrushType::U16 => ThrushType::U16,
            ThrushType::U32 => ThrushType::U32,
            ThrushType::U64 => ThrushType::U64,
            ThrushType::F32 => ThrushType::F32,
            ThrushType::F64 => ThrushType::F64,
            ThrushType::Bool => ThrushType::Bool,
            ThrushType::Char => ThrushType::Char,
            ThrushType::Str => ThrushType::Str,
            ThrushType::Address => ThrushType::Address,
            ThrushType::Void => ThrushType::Void,
            ThrushType::Mut(inner) => ThrushType::Mut(Arc::new((**inner).duplicate())),
            ThrushType::Ptr(None) => ThrushType::Ptr(None),
            ThrushType::Ptr(Some(inner)) => ThrushType::Ptr(Some(Arc::new((**inner).duplicate()))),
            ThrushType::Me(None) => ThrushType::Me(None),
            ThrushType::Me(Some(inner)) => ThrushType::Me(Some(Arc::new((**inner).duplicate()))),
            ThrushType::Struct(name, fields) => {
                let mut copied: Vec<Arc<ThrushType>> = Vec::new();
                let mut i: usize = 0;
                while i < fields.len()
                    invariant
                        0 <= i <= fields.len(),
                        copied.len() == i,
                        forall|j: int| 0 <= j < i ==> (*#[trigger] copied[j]).spec_same(*fields[j]),
                    decreases fields.len() - i,
                {
                    proof {
                        assert(decreases_to!(*self => *fields));
                        assert(decreases_to!(*fields => fields@));
                        assert(decreases_to!(fields@ => fields@[i as int]));
                    }
                    let field: ThrushType = (*fields[i]).duplicate();
                    copied.push(Arc::new(field));
                    i = i + 1;
                }
                ThrushType::Struct(name.clone(), copied)
            },
        }
    }

    pub fn precompute_type<'a>(&'a self, other: &'a ThrushType) -> (r: &'a ThrushType)
        ensures
            *r == self.spec_precompute(*other),
        decreases self,
    {
        match (self, other) {
            (ThrushType::S64, _) | (_, ThrushType::S64) => &ThrushType::S64,
            (ThrushType::S32, _) | (_, ThrushType::S32) => &ThrushType::S32,
            (ThrushType::S16, _) | (_, ThrushType::S16) => &ThrushType::S16,
            (ThrushType::S8, _) | (_, ThrushType::S8) => &ThrushType::S8,
            (ThrushType::U64, _) | (_, ThrushType::U64) => &ThrushType::U64,
            (ThrushType::U32, _) | (_, ThrushType::U32) => &ThrushType::U32,
            (ThrushType::U16, _) | (_, ThrushType::U16) => &ThrushType::U16,
            (ThrushType::U8, _) | (_, ThrushType::U8) => &ThrushType::U8,
            (ThrushType::F64, _) | (_, ThrushType::F64) => &ThrushType::F64,
            (ThrushType::F32, _) | (_, ThrushType::F32) => &ThrushType::F32,
            (ThrushType::Mut(a_subtype), ThrushType::Mut(b_subtype)) => {
                (**a_subtype).precompute_type(&**b_subtype)
            },
            _ => self,
        }
    }

    /// Whether a value of this type is placed on the heap, given the ABI size (in
    /// bytes) that the target assigns to its lowered form: from 128 bytes on, or
    /// when the type is a recursive structure.
    pub fn is_heap_allocated(&self, abi_size: u64) -> (r: bool)
        ensures
            r == (abi_size >= 128 || self.spec_is_recursive()),
    {
        abi_size >= 128 || self.is_recursive_type()
    }

    pub fn is_mut_ptr_type(&self) -> (r: bool)
        ensures
            r == (*self matches ThrushType::Mut(inner) && *inner is Ptr),
    {
        if let ThrushType::Mut(subtype) = self {
            if let ThrushType::Ptr(_) = &**subtype {
                return true;
            }
        }
        false
    }

    pub fn is_mut_numeric_type(&self) -> (r: bool)
        ensures
            r == (*self matches ThrushType::Mut(inner) && ((*inner).spec_is_integer()
                || (*inner).spec_is_float())),
    {
        if let ThrushType::Mut(subtype) = self {
            return subtype.is_integer_type() || subtype.is_float_type();
        }
        false
    }

    /// The name and field types of a structure type.
    pub fn into_structure_type(self) -> (r: ThrushStructType)
        requires
            self is Struct,
        ensures
            self == ThrushType::Struct(r.0, r.1),
    {
        match self {
            ThrushType::Struct(name, types) => (name, types),
            _ => (String::new(), Vec::new()),
        }
    }

    pub fn is_char_type(&self) -> (r: bool)
        ensures
            r == (*self is Char),
    {
        matches!(self, ThrushType::Char)
    }

    pub fn is_void_type(&self) -> (r: bool)
        ensures
            r == (*self is Void),
    {
        matches!(self, ThrushType::Void)
    }

    pub fn is_bool_type(&self) -> (r: bool)
        ensures
            r == (*self is Bool),
    {
        matches!(self, ThrushType::Bool)
    }

    pub fn is_struct_type(&self) -> (r: bool)
        ensures
            r == (*self is Struct),
    {
        matches!(self, ThrushType::Struct(..))
    }

    pub fn is_float_type(&self) -> (r: bool)
        ensures
            r == self.spec_is_float(),
    {
        matches!(self, ThrushType::F32 | ThrushType::F64)
    }

    pub fn is_ptr_type(&self) -> (r: bool)
        ensures
            r == (*self is Ptr),
    {
        matches!(self, ThrushType::Ptr(_))
    }

    pub fn is_address_type(&self) -> (r: bool)
        ensures
            r == (*self is Address),
    {
        matches!(self, ThrushType::Address)
    }

    pub fn is_mut_type(&self) -> (r: bool)
        ensures
            r == (*self is Mut),
    {
        matches!(self, ThrushType::Mut(_))
    }

    pub fn is_str_type(&self) -> (r: bool)
        ensures
            r == (*self is Str),
    {
        matches!(self, ThrushType::Str)
    }

    pub fn is_me_type(&self) -> (r: bool)
        ensures
            r == (*self is Me),
    {
        matches!(self, ThrushType::Me(_))
    }

    pub fn is_signed_integer_type(&self) -> (r: bool)
        ensures
            r == self.spec_is_signed_integer(),
    {
        matches!(self, ThrushType::S8 | ThrushType::S16 | ThrushType::S32 | ThrushType::S64)
    }

    /// Integer types, `char` among them.
    pub fn is_integer_type(&self) -> (r: bool)
        ensures
            r == self.spec_is_integer(),
    {
        matches!(
            self,
            ThrushType::S8 | ThrushType::S16 | ThrushType::S32 | ThrushType::S64 | ThrushType::U8
                | ThrushType::U16 | ThrushType::U32 | ThrushType::U64 | ThrushType::Char
        )
    }

    pub fn narrowing_cast(&self) -> (r: ThrushType)
        ensures
            r.spec_same(self.spec_narrowing_cast()),
    {
        match self {
            ThrushType::U8 => ThrushType::S8,
            ThrushType::U16 => ThrushType::S16,
            ThrushType::U32 => ThrushType::S32,
            ThrushType::U64 => ThrushType::S64,
            _ => self.duplicate(),
        }
    }

    #[verifier::loop_isolation(false)]
    pub fn is_recursive_type(&self) -> (r: bool)
        ensures
            r == self.spec_is_recursive(),
    {
        if let ThrushType::Struct(_, fields) = self {
            let mut i: usize = 0;
            while i < fields.len()
                invariant
                    0 <= i <= fields.len(),
                    forall|j: int| 0 <= j < i ==> !(*(#[trigger] fields[j]) is Me),
                decreases fields.len() - i,
            {
                if fields[i].is_me_type() {
                    assert(*fields[i as int] is Me);
                    return true;
                }
                i = i + 1;
            }
            false
        } else {
            false
        }
    }

    /// A structure type of the given name whose fields have the given types.
    pub fn create_structure_type(name: String, fields: &[ThrushType]) -> (r: ThrushType)
        ensures
            r matches ThrushType::Struct(n, fs) && n == name && fs.len() == fields@.len()
                && forall|i: int| 0 <= i < fields@.len() ==> (*#[trigger] fs[i]).spec_same(fields@[i]),
    {
        let mut types: Vec<Arc<ThrushType>> = Vec::new();
        let mut i: usize = 0;
        while i < fields.len()
            invariant
                0 <= i <= fields@.len(),
                types.len() == i,
                forall|j: int| 0 <= j < i ==> (*#[trigger] types[j]).spec_same(fields@[j]),
            decreases fields.len() - i,
        {
            types.push(Arc::new(fields[i].duplicate()));
            i = i + 1;
        }
        ThrushType::Struct(name, types)
    }

    /// Whether two types are equal as the type checker sees them.
    #[verifier::loop_isolation(false)]
    pub fn equals(&self, other: &ThrushType) -> (r: bool)
        ensures
            r == self.spec_eq(*other),
        decreases self,
    {
        match (self, other) {
            (ThrushType::Struct(_, fields1), ThrushType::Struct(_, fields2)) => {
                if fields1.len() != fields2.len() {
                    return false;
                }
                let mut i: usize = 0;
                while i < fields1.len()
                    invariant
                        0 <= i <= fields1.len(),
                        fields1.len() == fields2.len(),
                        forall|j: int|
                            0 <= j < i ==> (*fields1[j]).spec_eq(*#[trigger] fields2[j]),
                    decreases fields1.len() - i,
                {
                    proof {
                        assert(decreases_to!(*self => *fields1));
                        assert(decreases_to!(*fields1 => fields1@));
                        assert(decreases_to!(fields1@ => fields1@[i as int]));
                    }
                    if !(*fields1[i]).equals(&*fields2[i]) {
                        return false;
                    }
                    i = i + 1;
                }
                true
            },
            (ThrushType::Mut(target), ThrushType::Mut(from)) => (**target).equals(&**from),
            (ThrushType::Ptr(Some(target)), ThrushType::Ptr(Some(from))) => (**target).equals(
                &**from,
            ),
            (ThrushType::Ptr(None), ThrushType::Ptr(None)) => true,
            (ThrushType::Me(Some(target)), ThrushType::Me(Some(from))) => (**target).equals(
                &**from,
            ),
            (ThrushType::Me(None), ThrushType::Me(None)) => true,
            (ThrushType::Char, ThrushType::Char) => true,
            (ThrushType::S8, ThrushType::S8) => true,
            (ThrushType::S16, ThrushType::S16) => true,
            (ThrushType::S32, ThrushType::S32) => true,
            (ThrushType::S64, ThrushType::S64) => true,
            (ThrushType::U8, ThrushType::U8) => true,
            (ThrushType::U16, ThrushType::U16) => true,
            (ThrushType::U32, ThrushType::U32) => true,
            (ThrushType::U64, ThrushType::U64) => true,
            (ThrushType::F32, ThrushType::F32) => true,
            (ThrushType::F64, ThrushType::F64) => true,
            (ThrushType::Void, ThrushType::Void) => true,
            (ThrushType::Str, ThrushType::Str) => true,
            (ThrushType::Bool, ThrushType::Bool) => true,
            _ => false,
        }
    }
}

impl PartialEq for ThrushType {
    fn eq(&self, other: &Self) -> (r: bool) {
        self.equals(other)
    }
}

impl vstd::std_specs::cmp::PartialEqSpecImpl for ThrushType {
    open spec fn obeys_eq_spec() -> bool {
        true
    }

    open spec fn eq_spec(&self, other: &ThrushType) -> bool {
        self.spec_eq(*other)
    }
}

/// A declared binding: its name, its type and the types of its parameters.
pub struct Binding {
    pub name: String,
    pub kind: ThrushType,
    pub parameters: Vec<ThrushType>,
}

/// Bindings as the symbols table records them.
pub type Bindings = Vec<(String, ThrushType, Vec<ThrushType>)>;

pub open spec fn binding_entry(b: Binding) -> (String, ThrushType, Vec<ThrushType>) {
    (b.name, b.kind, b.parameters)
}

/// The bindings in the form the symbols table keeps, in their order.
pub fn generate_bindings(original_bindings: Vec<Binding>) -> (r: Bindings)
    ensures
        r@ == original_bindings@.map_values(|b: Binding| binding_entry(b)),
{
    let ghost given = original_bindings@;
    let mut rest: Vec<Binding> = original_bindings;
    let mut bindings: Bindings = Vec::new();
    while rest.len() > 0
        invariant
            bindings@ + rest@.map_values(|b: Binding| binding_entry(b)) == given.map_values(
                |b: Binding| binding_entry(b),
            ),
        decreases rest.len(),
    {
        let ghost before = rest@;
        let binding: Binding = rest.remove(0);
        bindings.push((binding.name, binding.kind, binding.parameters));
        assert(before.map_values(|b: Binding| binding_entry(b)) =~= seq![binding_entry(before[0])]
            + rest@.map_values(|b: Binding| binding_entry(b)));
    }
    assert(rest@.map_values(|b: Binding| binding_entry(b)) =~= Seq::empty());
    assert(bindings@ =~= given.map_values(|b: Binding| binding_entry(b)));
    bindings
}

/// The type that a shared pointer holds.
pub open spec fn pointee(a: Arc<ThrushType>) -> ThrushType {
    *a
}

/// A numeric type that takes part in promotion: an integer other than `char`, or
/// a float.
pub open spec fn is_promotable(t: ThrushType) -> bool {
    (t.spec_is_integer() && !(t is Char)) || t.spec_is_float()
}

/// Every type is the same as itself.
pub proof fn lemma_same_reflexive(t: ThrushType)
    ensures
        t.spec_same(t),
    decreases t,
{
    match t {
        ThrushType::Struct(_, f) => {
            assert forall|i: int| 0 <= i < f.len() implies (*f[i]).spec_same(*f[i]) by {
                assert(decreases_to!(t => f));
                assert(decreases_to!(f => f@));
                assert(decreases_to!(f@ => f@[i]));
                lemma_same_reflexive(*f[i]);
            }
        },
        ThrushType::Mut(x) => lemma_same_reflexive(pointee(x)),
        ThrushType::Ptr(Some(x)) => lemma_same_reflexive(pointee(x)),
        ThrushType::Me(Some(x)) => lemma_same_reflexive(pointee(x)),
        _ => {},
    }
}

/// Type equality is symmetric.
pub proof fn lemma_eq_symmetric(a: ThrushType, b: ThrushType)
    ensures
        a.spec_eq(b) == b.spec_eq(a),
    decreases a,
{
    match (a, b) {
        (ThrushType::Struct(_, f1), ThrushType::Struct(_, f2)) => {
            if f1.len() == f2.len() {
                assert forall|i: int| 0 <= i < f1.len() implies (*f1[i]).spec_eq(*f2[i]) == (
                *f2[i]).spec_eq(*f1[i]) by {
                    assert(decreases_to!(a => f1));
                    assert(decreases_to!(f1 => f1@));
                    assert(decreases_to!(f1@ => f1@[i]));
                    lemma_eq_symmetric(*f1[i], *f2[i]);
                }
            }
        },
        (ThrushType::Mut(x), ThrushType::Mut(y)) => lemma_eq_symmetric(pointee(x), pointee(y)),
        (ThrushType::Ptr(Some(x)), ThrushType::Ptr(Some(y))) => lemma_eq_symmetric(pointee(x), pointee(y)),
        (ThrushType::Me(Some(x)), ThrushType::Me(Some(y))) => lemma_eq_symmetric(pointee(x), pointee(y)),
        _ => {},
    }
}

/// Type equality is transitive.
pub proof fn lemma_eq_transitive(a: ThrushType, b: ThrushType, c: ThrushType)
    requires
        a.spec_eq(b),
        b.spec_eq(c),
    ensures
        a.spec_eq(c),
    decreases a,
{
    match (a, b, c) {
        (ThrushType::Struct(_, f1), ThrushType::Struct(_, f2), ThrushType::Struct(_, f3)) => {
            assert forall|i: int| 0 <= i < f1.len() implies (*f1[i]).spec_eq(*f3[i]) by {
                assert(decreases_to!(a => f1));
                assert(decreases_to!(f1 => f1@));
                assert(decreases_to!(f1@ => f1@[i]));
                lemma_eq_transitive(*f1[i], *f2[i], *f3[i]);
            }
        },
        (ThrushType::Mut(x), ThrushType::Mut(y), ThrushType::Mut(z)) => lemma_eq_transitive(pointee(x), pointee(y), pointee(z)),
        (ThrushType::Ptr(Some(x)), ThrushType::Ptr(Some(y)), ThrushType::Ptr(Some(z))) =>
            lemma_eq_transitive(pointee(x), pointee(y), pointee(z)),
        (ThrushType::Me(Some(x)), ThrushType::Me(Some(y)), ThrushType::Me(Some(z))) =>
            lemma_eq_transitive(pointee(x), pointee(y), pointee(z)),
        _ => {},
    }
}

/// When either operand is a promotable numeric type, the type an operation is
/// computed in does not depend on the order of the operands, and it is itself
/// promotable.
pub proof fn lemma_precompute_commutes(a: ThrushType, b: ThrushType)
    requires
        is_promotable(a) || is_promotable(b),
    ensures
        a.spec_precompute(b) == b.spec_precompute(a),
        is_promotable(a.spec_precompute(b)),
{
}

/// Narrowing never yields an unsigned type, and narrowing twice is narrowing once.
pub proof fn lemma_narrowing_idempotent(t: ThrushType)
    ensures
        t.spec_narrowing_cast().spec_narrowing_cast() == t.spec_narrowing_cast(),
        !(t.spec_narrowing_cast() is U8 || t.spec_narrowing_cast() is U16
            || t.spec_narrowing_cast() is U32 || t.spec_narrowing_cast() is U64),
{
}

} // verus!
