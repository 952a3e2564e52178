use ahash::AHashMap;
use vstd::prelude::*;

use crate::issue::{concat3, ThrushError};
use crate::tokens::Type;

verus! {

broadcast use vstd::seq_lib::group_seq_properties;

#[verifier::external_type_specification]
#[verifier::external_body]
#[verifier::reject_recursive_types(K)]
#[verifier::reject_recursive_types(V)]
#[verifier::reject_recursive_types(S)]
pub struct ExAHashMap<K, V, S>(AHashMap<K, V, S>);

#[verifier::external_type_specification]
#[verifier::external_body]
pub struct ExRandomState(ahash::RandomState);

/// The data type of a value in the older front end.
pub type DataTypes = Type;

/// A local as the parser records it: its type, whether it is null, whether it has
/// been freed, whether it is only to be freed (not dropped), how many times it has
/// been referenced, and the name of its structure type (empty when none).
pub type LocalObject = (DataTypes, bool, bool, bool, usize, String);

/// The fields of a structure, by name.
pub type StructFieldsMap = AHashMap<String, DataTypes>;

/// The structures of a program, by name.
pub type Structs = AHashMap<String, StructFieldsMap>;

/// For each parameter of a function that takes a structure: its structure type and
/// its position.
pub type StructTypesParameters = Vec<(String, usize)>;

/// A global: its type, its parameter types, its structure-typed parameters,
/// whether it is a function and whether its parameters are not checked.
pub type Global = (DataTypes, Vec<DataTypes>, Vec<(String, usize)>, bool, bool);

/// The globals of a program, by name.
pub type Globals = AHashMap<String, Global>;

/// What looking a name up gives: its type, whether it is null, whether it has been
/// freed, whether it is a function, whether its parameters are not checked, its
/// parameter types, its structure-typed parameters, its structure type and how
/// many times it has been referenced.
pub type FoundObject = (
    DataTypes,
    bool,
    bool,
    bool,
    bool,
    Vec<DataTypes>,
    StructTypesParameters,
    String,
    usize,
);

/// A deallocation the parser adds at the end of a scope: the local to free, and
/// whether it is only freed.
#[derive(Debug)]
pub struct Deallocation {
    pub name: String,
    pub free_only: bool,
}

// The contents of the maps, by the view of their keys.

/// The entries of one scope of locals.
pub uninterp spec fn local_scope(m: AHashMap<String, LocalObject>) -> Map<Seq<char>, LocalObject>;

/// The entries of a table of globals.
pub uninterp spec fn global_table(m: Globals) -> Map<Seq<char>, Global>;

/// The fields of one structure.
pub uninterp spec fn struct_fields(m: StructFieldsMap) -> Map<Seq<char>, DataTypes>;

/// The structures of a program.
pub uninterp spec fn struct_table(m: Structs) -> Map<Seq<char>, StructFieldsMap>;

/// A scope with no locals.
pub open spec fn no_locals() -> Map<Seq<char>, LocalObject> {
    Map::empty()
}

/// A table with no globals.
pub open spec fn no_globals() -> Map<Seq<char>, Global> {
    Map::empty()
}

/// A structure with no fields.
pub open spec fn no_fields() -> Map<Seq<char>, DataTypes> {
    Map::empty()
}

/// A table with no structures.
pub open spec fn no_structs() -> Map<Seq<char>, StructFieldsMap> {
    Map::empty()
}

/// A local with its reference count lowered by one, if it was referenced.
pub open spec fn decreased(obj: LocalObject) -> LocalObject {
    if obj.4 > 0 {
        (obj.0, obj.1, obj.2, obj.3, (obj.4 - 1) as usize, obj.5)
    } else {
        obj
    }
}

/// What a global holds, its lists taken by their contents.
pub open spec fn global_model(g: Global) -> (DataTypes, Seq<DataTypes>, Seq<(Seq<char>, usize)>, bool, bool) {
    (g.0, g.1@, g.2@.map_values(|p: (String, usize)| (p.0@, p.1)), g.3, g.4)
}

/// `ahash::AHashMap::new`: a map with no entries.
#[verifier::external_body]
fn new_local_scope() -> (r: AHashMap<String, LocalObject>)
    ensures
        local_scope(r) == no_locals(),
{
    AHashMap::new()
}

/// `ahash::AHashMap::insert`: the entry for `k` becomes `v`, the others stay.
#[verifier::external_body]
fn local_scope_insert(m: &mut AHashMap<String, LocalObject>, k: String, v: LocalObject)
    ensures
        local_scope(*final(m)) == local_scope(*old(m)).insert(k@, v),
{
    m.insert(k, v);
}

/// `ahash::AHashMap::get`, the entry cloned: the entry for `k`, if there is one.
#[verifier::external_body]
fn local_scope_get(m: &AHashMap<String, LocalObject>, k: &str) -> (r: Option<LocalObject>)
    ensures
        local_scope(*m).dom().contains(k@) ==> r == Some(local_scope(*m)[k@]),
        !local_scope(*m).dom().contains(k@) ==> r is None,
{
    m.get(k).cloned()
}

/// `HashMap::keys` (through `AHashMap`'s deref), collected: each key once, in an
/// order that the map's hashing decides.
#[verifier::external_body]
fn local_scope_keys(m: &AHashMap<String, LocalObject>) -> (r: Vec<String>)
    ensures
        r@.map_values(|k: String| k@).no_duplicates(),
        r@.map_values(|k: String| k@).to_set() == local_scope(*m).dom(),
{
    m.keys().cloned().collect()
}

/// `ahash::AHashMap::insert`: the entry for `k` becomes `v`, the others stay.
#[verifier::external_body]
fn global_insert(m: &mut Globals, k: String, v: Global)
    ensures
        global_table(*final(m)) == global_table(*old(m)).insert(k@, v),
{
    m.insert(k, v);
}

/// `ahash::AHashMap::get`, the entry cloned: the entry for `k`, if there is one.
#[verifier::external_body]
fn global_get(m: &Globals, k: &str) -> (r: Option<Global>)
    ensures
        r is Some == global_table(*m).dom().contains(k@),
        r is Some ==> global_model(r->Some_0) == global_model(global_table(*m)[k@]),
{
    m.get(k).cloned()
}

/// `Extend::extend` of `ahash::AHashMap` with another map: each entry of `other`
/// is inserted, replacing an entry with the same key.
#[verifier::external_body]
fn global_extend(m: &mut Globals, other: Globals)
    ensures
        global_table(*final(m)) == global_table(*old(m)).union_prefer_right(global_table(other)),
{
    m.extend(other);
}

/// `ahash::AHashMap::new`: a map with no entries.
#[verifier::external_body]
pub(crate) fn new_global_table() -> (r: Globals)
    ensures
        global_table(r) == no_globals(),
{
    AHashMap::new()
}

/// `ahash::AHashMap::new`: a map with no entries.
#[verifier::external_body]
pub(crate) fn new_struct_fields() -> (r: StructFieldsMap)
    ensures
        struct_fields(r) == no_fields(),
{
    AHashMap::new()
}

/// `ahash::AHashMap::insert`: the entry for `k` becomes `v`, the others stay.
#[verifier::external_body]
pub(crate) fn struct_fields_insert(m: &mut StructFieldsMap, k: String, v: DataTypes)
    ensures
        struct_fields(*final(m)) == struct_fields(*old(m)).insert(k@, v),
{
    m.insert(k, v);
}

/// `ahash::AHashMap::new`: a map with no entries.
#[verifier::external_body]
fn new_struct_table() -> (r: Structs)
    ensures
        struct_table(r) == no_structs(),
{
    AHashMap::new()
}

/// `ahash::AHashMap::insert`: the entry for `k` becomes `v`, the others stay.
#[verifier::external_body]
fn struct_table_insert(m: &mut Structs, k: String, v: StructFieldsMap)
    ensures
        struct_table(*final(m)) == struct_table(*old(m)).insert(k@, v),
{
    m.insert(k, v);
}

/// `ahash::AHashMap::get`, the entry cloned: the fields recorded for `k`, if any.
#[verifier::external_body]
fn struct_table_get(m: &Structs, k: &str) -> (r: Option<StructFieldsMap>)
    ensures
        r is Some == struct_table(*m).dom().contains(k@),
        r is Some ==> struct_fields(r->Some_0) == struct_fields(struct_table(*m)[k@]),
{
    m.get(k).cloned()
}

/// `Extend::extend` of `ahash::AHashMap` with another map: each entry of `other`
/// is inserted, replacing an entry with the same key.
#[verifier::external_body]
fn struct_table_extend(m: &mut Structs, other: Structs)
    ensures
        struct_table(*final(m)) == struct_table(*old(m)).union_prefer_right(struct_table(other)),
{
    m.extend(other);
}

/// The parser's tables: a stack of scopes of locals (innermost last), the
/// globals, and the structures.
pub struct ParserObjects {
    pub locals: Vec<AHashMap<String, LocalObject>>,
    pub globals: Globals,
    pub structs: Structs,
}

/// The innermost scope among `scopes[..upto]` that holds `name`.
pub open spec fn find_scope(scopes: Seq<Map<Seq<char>, LocalObject>>, name: Seq<char>, upto: int) -> Option<int>
    decreases upto,
{
    if upto <= 0 || upto > scopes.len() {
        None
    } else if scopes[upto - 1].dom().contains(name) {
        Some(upto - 1)
    } else {
        find_scope(scopes, name, upto - 1)
    }
}

/// A reference count one higher, kept at the largest value a count can hold.
pub open spec fn bumped(n: usize) -> usize {
    if n < usize::MAX { (n + 1) as usize } else { n }
}

/// What a found object holds, its lists and texts taken by their contents.
pub open spec fn found_model(f: FoundObject) -> (
    DataTypes,
    bool,
    bool,
    bool,
    bool,
    Seq<DataTypes>,
    Seq<(Seq<char>, usize)>,
    Seq<char>,
    usize,
) {
    (f.0, f.1, f.2, f.3, f.4, f.5@, f.6@.map_values(|p: (String, usize)| (p.0@, p.1)), f.7@, f.8)
}

/// A local that is freed at the end of its scope: a structure that is not null,
/// not freed yet, and referenced fewer than ten times.
pub open spec fn is_deallocated(obj: LocalObject) -> bool {
    obj.0 == Type::Struct && !obj.1 && !obj.2 && obj.4 < 10
}

impl ParserObjects {
    /// The scopes of locals, innermost last.
    pub open spec fn scopes(&self) -> Seq<Map<Seq<char>, LocalObject>> {
        self.locals@.map_values(|m: AHashMap<String, LocalObject>| local_scope(m))
    }

    /// Tables with one empty scope of locals, the given globals and no structures.
    pub fn new(globals: Globals) -> (r: ParserObjects)
        ensures
            r.scopes() == seq![Map::<Seq<char>, LocalObject>::empty()],
            r.globals == globals,
            struct_table(r.structs) == Map::<Seq<char>, StructFieldsMap>::empty(),
    {
        let mut locals: Vec<AHashMap<String, LocalObject>> = Vec::new();
        locals.push(new_local_scope());
        let r = ParserObjects { locals, globals, structs: new_struct_table() };
        assert(r.scopes() =~= seq![Map::<Seq<char>, LocalObject>::empty()]);
        r
    }

    /// Looks `name` up: in the innermost scope of locals that holds it (whose
    /// reference count goes up by one), else among the globals.
    pub fn get_object(&mut self, name: &str, line: usize) -> (r: Result<FoundObject, ThrushError>)
        ensures
            match find_scope(old(self).scopes(), name@, old(self).scopes().len() as int) {
                Some(s) => {
                    let obj = old(self).scopes()[s][name@];
                    let updated = (obj.0, obj.1, obj.2, obj.3, bumped(obj.4), obj.5);
                    &&& final(self).scopes() == old(self).scopes().update(
                        s,
                        old(self).scopes()[s].insert(name@, updated),
                    )
                    &&& r matches Ok(f)
                    &&& found_model(f) == (
                        obj.0,
                        obj.1,
                        obj.2,
                        false,
                        false,
                        Seq::<DataTypes>::empty(),
                        Seq::<(Seq<char>, usize)>::empty(),
                        obj.5@,
                        bumped(obj.4),
                    )
                },
                None => {
                    &&& final(self).scopes() == old(self).scopes()
                    &&& if global_table(old(self).globals).dom().contains(name@) {
                        let g = global_model(global_table(old(self).globals)[name@]);
                        r matches Ok(f) && found_model(f) == (
                            g.0,
                            false,
                            false,
                            g.3,
                            g.4,
                            g.1,
                            g.2,
                            Seq::<char>::empty(),
                            0usize,
                        )
                    } else {
                        r matches Err(ThrushError::Error(title, help, l, extra)) && title@
                            == "Object don't Found"@ && help@ == "Object \""@ + name@
                            + "\" is don't in declared."@ && l == line && extra@ == Seq::<char>::empty()
                    }
                },
            },
            final(self).globals == old(self).globals,
            final(self).structs == old(self).structs,
    {
        let ghost old_scopes = self.scopes();
        let mut i: usize = self.locals.len();
        while i > 0
            invariant
                0 <= i <= self.locals@.len(),
                old_scopes == old(self).scopes(),
                self.scopes() == old_scopes,
                find_scope(old_scopes, name@, old_scopes.len() as int) == find_scope(
                    old_scopes,
                    name@,
                    i as int,
                ),
                self.globals == old(self).globals,
                self.structs == old(self).structs,
            decreases i,
        {
            let found: Option<LocalObject> = local_scope_get(&self.locals[i - 1], name);
            if let Some(var) = found {
                assert(old_scopes[i - 1] == local_scope(self.locals@[i - 1]));
                assert(find_scope(old_scopes, name@, i as int) == Some((i - 1) as int));
                assert(var == old_scopes[i - 1][name@]);
                let references: usize = if var.4 < usize::MAX {
                    var.4 + 1
                } else {
                    var.4
                };
                let updated: LocalObject = (var.0, var.1, var.2, var.3, references, var.5);
                let struct_type: String = updated.5.clone();
                let mut scope: AHashMap<String, LocalObject> = new_local_scope();
                std::mem::swap(&mut scope, &mut self.locals[i - 1]);
                local_scope_insert(&mut scope, String::from_str(name), updated);
                std::mem::swap(&mut scope, &mut self.locals[i - 1]);
                assert(self.scopes() =~= old_scopes.update(
                    i - 1,
                    old_scopes[i - 1].insert(name@, (var.0, var.1, var.2, var.3, references, var.5)),
                ));
                let r: FoundObject = (
                    var.0,
                    var.1,
                    var.2,
                    false,
                    false,
                    Vec::new(),
                    Vec::new(),
                    struct_type,
                    references,
                );
                assert(found_model(r).6 =~= Seq::<(Seq<char>, usize)>::empty());
                return Ok(r);
            }
            i = i - 1;
        }
        match global_get(&self.globals, name) {
            Some(global) => {
                let r: FoundObject = (
                    global.0,
                    false,
                    false,
                    global.3,
                    global.4,
                    global.1,
                    global.2,
                    String::new(),
                    0,
                );
                Ok(r)
            },
            None => {
                proof {
                    reveal_strlit("Object don't Found");
                    reveal_strlit("Object \"");
                    reveal_strlit("\" is don't in declared.");
                }
                Err(
                    ThrushError::Error(
                        String::from_str("Object don't Found"),
                        concat3("Object \"", name, "\" is don't in declared."),
                        line,
                        String::new(),
                    ),
                )
            },
        }
    }

    /// A copy of the fields of the structure `name`.
    pub fn get_struct(&self, name: &str, line: usize) -> (r: Result<StructFieldsMap, ThrushError>)
        ensures
            struct_table(self.structs).dom().contains(name@) ==> (r matches Ok(fields) && struct_fields(
                fields,
            ) == struct_fields(struct_table(self.structs)[name@])),
            !struct_table(self.structs).dom().contains(name@) ==> (r matches Err(
                ThrushError::Error(title, help, l, extra),
            ) && title@ == "Struct don't found"@ && help@ == "Struct with name \""@ + name@
                + "\" not found."@ && l == line && extra@ == Seq::<char>::empty()),
    {
        match struct_table_get(&self.structs, name) {
            Some(fields) => Ok(fields),
            None => {
                proof {
                    reveal_strlit("Struct don't found");
                    reveal_strlit("Struct with name \"");
                    reveal_strlit("\" not found.");
                }
                Err(
                    ThrushError::Error(
                        String::from_str("Struct don't found"),
                        concat3("Struct with name \"", name, "\" not found."),
                        line,
                        String::new(),
                    ),
                )
            },
        }
    }

    /// Opens a new innermost scope of locals.
    pub fn begin_local_scope(&mut self)
        ensures
            final(self).scopes() == old(self).scopes().push(Map::empty()),
            final(self).globals == old(self).globals,
            final(self).structs == old(self).structs,
    {
        self.locals.push(new_local_scope());
        assert(self.scopes() =~= old(self).scopes().push(Map::empty()));
    }

    /// Closes the innermost scope of locals, if there is one.
    pub fn end_local_scope(&mut self)
        ensures
            old(self).scopes().len() > 0 ==> final(self).scopes() == old(self).scopes().drop_last(),
            old(self).scopes().len() == 0 ==> final(self).scopes() == old(self).scopes(),
            final(self).globals == old(self).globals,
            final(self).structs == old(self).structs,
    {
        self.locals.pop();
        assert(self.scopes() =~= if old(self).scopes().len() > 0 {
            old(self).scopes().drop_last()
        } else {
            old(self).scopes()
        });
    }

    /// Records the local `name` in the scope at `scope_pos`.
    pub fn insert_new_local(&mut self, scope_pos: usize, name: &str, value: LocalObject)
        requires
            scope_pos < old(self).scopes().len(),
        ensures
            final(self).scopes() == old(self).scopes().update(
                scope_pos as int,
                old(self).scopes()[scope_pos as int].insert(name@, value),
            ),
            final(self).globals == old(self).globals,
            final(self).structs == old(self).structs,
    {
        let mut scope: AHashMap<String, LocalObject> = new_local_scope();
        std::mem::swap(&mut scope, &mut self.locals[scope_pos]);
        local_scope_insert(&mut scope, String::from_str(name), value);
        std::mem::swap(&mut scope, &mut self.locals[scope_pos]);
        assert(self.scopes() =~= old(self).scopes().update(
            scope_pos as int,
            old(self).scopes()[scope_pos as int].insert(name@, value),
        ));
    }

    /// Records the structure `name` with the given fields.
    pub fn insert_new_struct(&mut self, name: String, value: StructFieldsMap)
        ensures
            struct_table(final(self).structs) == struct_table(old(self).structs).insert(name@, value),
            final(self).locals == old(self).locals,
            final(self).globals == old(self).globals,
    {
        struct_table_insert(&mut self.structs, name, value);
    }

    /// Records the global `name`.
    pub fn insert_new_global(&mut self, name: String, value: Global)
        ensures
            global_table(final(self).globals) == global_table(old(self).globals).insert(name@, value),
            final(self).locals == old(self).locals,
            final(self).structs == old(self).structs,
    {
        global_insert(&mut self.globals, name, value);
    }

    /// Frees, at the end of the scope at `at_scope_pos`, each of its locals that
    /// `is_deallocated` describes: each is marked freed, and one deallocation per
    /// such local is returned, in the order the scope's hashing gives.
    pub fn create_deallocators(&mut self, at_scope_pos: usize) -> (r: Vec<Deallocation>)
        requires
            at_scope_pos < old(self).scopes().len(),
        ensures
            ({
                let before = old(self).scopes()[at_scope_pos as int];
                let names = r@.map_values(|d: Deallocation| d.name@);
                &&& names.no_duplicates()
                &&& names.to_set() == before.dom().filter(|k: Seq<char>| is_deallocated(before[k]))
                &&& forall|i: int| 0 <= i < r@.len() ==> (#[trigger] r@[i]).free_only == before[r@[i].name@].3
                &&& final(self).scopes() == old(self).scopes().update(
                    at_scope_pos as int,
                    Map::new(
                        |k: Seq<char>| before.dom().contains(k),
                        |k: Seq<char>| if is_deallocated(before[k]) {
                            (before[k].0, before[k].1, true, before[k].3, before[k].4, before[k].5)
                        } else {
                            before[k]
                        },
                    ),
                )
            }),
            final(self).globals == old(self).globals,
            final(self).structs == old(self).structs,
    {
        let ghost before = self.scopes()[at_scope_pos as int];
        let ghost old_scopes = self.scopes();
        let keys: Vec<String> = local_scope_keys(&self.locals[at_scope_pos]);
        let ghost key_views = keys@.map_values(|k: String| k@);
        let mut scope: AHashMap<String, LocalObject> = new_local_scope();
        std::mem::swap(&mut scope, &mut self.locals[at_scope_pos]);
        let ghost rest_locals = self.locals@;
        let mut frees: Vec<Deallocation> = Vec::new();
        let mut i: usize = 0;
        while i < keys.len()
            invariant
                0 <= i <= keys@.len(),
                old_scopes == old(self).scopes(),
                before == old_scopes[at_scope_pos as int],
                at_scope_pos < old_scopes.len(),
                rest_locals.len() == old_scopes.len(),
                forall|j: int| 0 <= j < old_scopes.len() && j != at_scope_pos ==> local_scope(#[trigger] rest_locals[j]) == old_scopes[j],
                key_views == keys@.map_values(|k: String| k@),
                key_views.no_duplicates(),
                key_views.to_set() == before.dom(),
                self.locals@ == rest_locals,
                local_scope(scope).dom() == before.dom(),
                forall|j: int| 0 <= j < i ==> {
                    let k = #[trigger] key_views[j];
                    local_scope(scope)[k] == if is_deallocated(before[k]) {
                        (before[k].0, before[k].1, true, before[k].3, before[k].4, before[k].5)
                    } else {
                        before[k]
                    }
                },
                forall|j: int| i <= j < key_views.len() ==> local_scope(scope)[#[trigger] key_views[j]] == before[key_views[j]],
                frees@.map_values(|d: Deallocation| d.name@).no_duplicates(),
                frees@.map_values(|d: Deallocation| d.name@).to_set() == key_views.take(i as int).to_set().filter(
                    |k: Seq<char>| is_deallocated(before[k]),
                ),
                forall|j: int| 0 <= j < frees@.len() ==> (#[trigger] frees@[j]).free_only == before[frees@[j].name@].3,
            decreases keys.len() - i,
        {
            let ghost frees_before = frees@.map_values(|d: Deallocation| d.name@);
            let key: &String = &keys[i];
            assert(key_views[i as int] == key@);
            assert(before.dom().contains(key@)) by {
                assert(key_views.contains(key@));
            }
            let found: Option<LocalObject> = local_scope_get(&scope, key.as_str());
            if let Some(entry) = found {
                let qualifies: bool = entry.0 == Type::Struct && !entry.1 && !entry.2 && entry.4 < 10;
                if qualifies {
                    frees.push(Deallocation { name: key.clone(), free_only: entry.3 });
                    local_scope_insert(
                        &mut scope,
                        key.clone(),
                        (entry.0, entry.1, true, entry.3, entry.4, entry.5),
                    );
                }
                proof {
                    let names = frees@.map_values(|d: Deallocation| d.name@);
                    assert(key_views.take(i + 1) =~= key_views.take(i as int).push(key@));
                    assert(key_views.take(i + 1).to_set() =~= key_views.take(i as int).to_set().insert(key@));
                    assert(!key_views.take(i as int).contains(key@)) by {
                        if key_views.take(i as int).contains(key@) {
                            let j: int = choose|j: int| 0 <= j < i && key_views.take(i as int)[j] == key@;
                            assert(key_views[j] == key_views[i as int]);
                        }
                    }
                    if qualifies {
                        assert(names =~= frees_before.push(key@));
                        assert(!frees_before.contains(key@)) by {
                            if frees_before.contains(key@) {
                                assert(frees_before.to_set().contains(key@));
                            }
                        }
                        assert(names.to_set() =~= frees_before.to_set().insert(key@));
                    } else {
                        assert(names =~= frees_before);
                    }
                    assert(names.to_set() =~= key_views.take(i + 1).to_set().filter(
                        |k: Seq<char>| is_deallocated(before[k]),
                    ));
                    assert forall|j: int| 0 <= j < i + 1 implies {
                        let k = #[trigger] key_views[j];
                        local_scope(scope)[k] == if is_deallocated(before[k]) {
                            (before[k].0, before[k].1, true, before[k].3, before[k].4, before[k].5)
                        } else {
                            before[k]
                        }
                    } by {
                        if j < i {
                            assert(key_views[j] != key@);
                        }
                    }
                    assert forall|j: int| i + 1 <= j < key_views.len() implies local_scope(scope)[#[trigger] key_views[j]]
                        == before[key_views[j]] by {
                        assert(key_views[j] != key@);
                    }
                }
            }
            i = i + 1;
        }
        let ghost final_scope = local_scope(scope);
        std::mem::swap(&mut scope, &mut self.locals[at_scope_pos]);
        proof {
            assert(key_views.take(key_views.len() as int) =~= key_views);
            let target = Map::new(
                |k: Seq<char>| before.dom().contains(k),
                |k: Seq<char>| if is_deallocated(before[k]) {
                    (before[k].0, before[k].1, true, before[k].3, before[k].4, before[k].5)
                } else {
                    before[k]
                },
            );
            assert forall|k: Seq<char>| #[trigger] target.dom().contains(k) implies final_scope[k] == target[k] by {
                assert(key_views.to_set().contains(k));
                let j: int = choose|j: int| 0 <= j < key_views.len() && key_views[j] == k;
                assert(key_views[j] == k);
            }
            assert(final_scope =~= target);
            assert(self.scopes() =~= old_scopes.update(at_scope_pos as int, target));
        }
        frees
    }

    /// Takes over the globals and structures of `other_objects`; where both have an
    /// entry of the same name, the one of `other_objects` stays.
    pub fn merge_globals(&mut self, other_objects: ParserObjects)
        ensures
            global_table(final(self).globals) == global_table(old(self).globals).union_prefer_right(
                global_table(other_objects.globals),
            ),
            struct_table(final(self).structs) == struct_table(old(self).structs).union_prefer_right(
                struct_table(other_objects.structs),
            ),
            final(self).locals == old(self).locals,
    {
        let ParserObjects { locals: _, globals, structs } = other_objects;
        global_extend(&mut self.globals, globals);
        struct_table_extend(&mut self.structs, structs);
    }

    /// Lowers by one the reference count of each local in the scope at
    /// `at_scope_pos` that has been referenced.
    pub fn decrease_local_references(&mut self, at_scope_pos: usize)
        requires
            at_scope_pos < old(self).scopes().len(),
        ensures
            ({
                let before = old(self).scopes()[at_scope_pos as int];
                final(self).scopes() == old(self).scopes().update(
                    at_scope_pos as int,
                    Map::new(
                        |k: Seq<char>| before.dom().contains(k),
                        |k: Seq<char>| decreased(before[k]),
                    ),
                )
            }),
            final(self).globals == old(self).globals,
            final(self).structs == old(self).structs,
    {
        let ghost before = self.scopes()[at_scope_pos as int];
        let ghost old_scopes = self.scopes();
        let keys: Vec<String> = local_scope_keys(&self.locals[at_scope_pos]);
        let ghost key_views = keys@.map_values(|k: String| k@);
        let mut scope: AHashMap<String, LocalObject> = new_local_scope();
        std::mem::swap(&mut scope, &mut self.locals[at_scope_pos]);
        let ghost rest_locals = self.locals@;
        let mut i: usize = 0;
        while i < keys.len()
            invariant
                0 <= i <= keys@.len(),
                old_scopes == old(self).scopes(),
                before == old_scopes[at_scope_pos as int],
                at_scope_pos < old_scopes.len(),
                rest_locals.len() == old_scopes.len(),
                forall|j: int| 0 <= j < old_scopes.len() && j != at_scope_pos ==> local_scope(#[trigger] rest_locals[j]) == old_scopes[j],
                key_views == keys@.map_values(|k: String| k@),
                key_views.no_duplicates(),
                key_views.to_set() == before.dom(),
                self.locals@ == rest_locals,
                local_scope(scope).dom() == before.dom(),
                forall|j: int| 0 <= j < i ==> local_scope(scope)[#[trigger] key_views[j]] == decreased(before[key_views[j]]),
                forall|j: int| i <= j < key_views.len() ==> local_scope(scope)[#[trigger] key_views[j]] == before[key_views[j]],
            decreases keys.len() - i,
        {
            let key: &String = &keys[i];
            assert(key_views[i as int] == key@);
            assert(before.dom().contains(key@)) by {
                assert(key_views.contains(key@));
            }
            let found: Option<LocalObject> = local_scope_get(&scope, key.as_str());
            if let Some(entry) = found {
                if entry.4 > 0 {
                    local_scope_insert(
                        &mut scope,
                        key.clone(),
                        (entry.0, entry.1, entry.2, entry.3, entry.4 - 1, entry.5),
                    );
                }
                proof {
                    assert forall|j: int| 0 <= j < i + 1 implies local_scope(scope)[#[trigger] key_views[j]]
                        == decreased(before[key_views[j]]) by {
                        if j < i {
                            assert(key_views[j] != key@);
                        }
                    }
                    assert forall|j: int| i + 1 <= j < key_views.len() implies local_scope(scope)[#[trigger] key_views[j]]
                        == before[key_views[j]] by {
                        assert(key_views[j] != key@);
                    }
                }
            }
            i = i + 1;
        }
        let ghost final_scope = local_scope(scope);
        std::mem::swap(&mut scope, &mut self.locals[at_scope_pos]);
        proof {
            let target = Map::new(
                |k: Seq<char>| before.dom().contains(k),
                |k: Seq<char>| decreased(before[k]),
            );
            assert forall|k: Seq<char>| #[trigger] target.dom().contains(k) implies final_scope[k] == target[k] by {
                assert(key_views.to_set().contains(k));
                let j: int = choose|j: int| 0 <= j < key_views.len() && key_views[j] == k;
                assert(key_views[j] == k);
            }
            assert(final_scope =~= target);
            assert(self.scopes() =~= old_scopes.update(at_scope_pos as int, target));
        }
    }
}

/// A local recorded in a scope is found there, with what was recorded, as long as
/// no scope inside it holds the same name.
pub proof fn lemma_recorded_local_found(
    scopes: Seq<Map<Seq<char>, LocalObject>>,
    at: int,
    name: Seq<char>,
    value: LocalObject,
)
    requires
        0 <= at < scopes.len(),
        forall|j: int| at < j < scopes.len() ==> !(#[trigger] scopes[j]).dom().contains(name),
    ensures
        ({
            let updated = scopes.update(at, scopes[at].insert(name, value));
            &&& find_scope(updated, name, scopes.len() as int) == Some(at)
            &&& updated[at][name] == value
        }),
{
    let updated = scopes.update(at, scopes[at].insert(name, value));
    lemma_find_scope_skips(updated, name, scopes.len() as int, at);
}

/// Searching from `upto` finds the innermost scope below it that holds `name`:
/// where none of the scopes from `at + 1` up to `upto` holds it and scope `at`
/// does, the search stops at `at`.
proof fn lemma_find_scope_skips(scopes: Seq<Map<Seq<char>, LocalObject>>, name: Seq<char>, upto: int, at: int)
    requires
        0 <= at < upto <= scopes.len(),
        scopes[at].dom().contains(name),
        forall|j: int| at < j < upto ==> !(#[trigger] scopes[j]).dom().contains(name),
    ensures
        find_scope(scopes, name, upto) == Some(at),
    decreases upto - at,
{
    if upto - 1 != at {
        lemma_find_scope_skips(scopes, name, upto - 1, at);
    }
}

/// A new innermost scope with no locals changes what any name is found as.
pub proof fn lemma_empty_scope_transparent(scopes: Seq<Map<Seq<char>, LocalObject>>, name: Seq<char>)
    ensures
        find_scope(scopes.push(Map::empty()), name, scopes.len() + 1int) == find_scope(scopes, name, scopes.len() as int),
{
    let pushed = scopes.push(Map::empty());
    lemma_find_scope_prefix(pushed, scopes, name, scopes.len() as int);
}

/// The search below `upto` only looks at the first `upto` scopes.
proof fn lemma_find_scope_prefix(
    longer: Seq<Map<Seq<char>, LocalObject>>,
    shorter: Seq<Map<Seq<char>, LocalObject>>,
    name: Seq<char>,
    upto: int,
)
    requires
        0 <= upto <= shorter.len() <= longer.len(),
        forall|j: int| 0 <= j < shorter.len() ==> longer[j] == shorter[j],
    ensures
        find_scope(longer, name, upto) == find_scope(shorter, name, upto),
    decreases upto,
{
    if upto > 0 {
        lemma_find_scope_prefix(longer, shorter, name, upto - 1);
    }
}

/// Opening a scope of locals and closing it again leaves the scopes as they were.
pub proof fn lemma_local_scope_round_trip(scopes: Seq<Map<Seq<char>, LocalObject>>)
    ensures
        scopes.push(Map::empty()).drop_last() == scopes,
{
    assert(scopes.push(Map::empty()).drop_last() =~= scopes);
}

} // verus!
