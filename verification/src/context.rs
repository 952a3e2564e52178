use ahash::AHashMap;
use vstd::prelude::*;

use crate::position::LLVMCodeGenContextPosition;

verus! {

/// Names mapped to the handles of what the code generator made for them; a
/// handle indexes the values that the code generator keeps itself.
pub type SymbolHandles = AHashMap<String, u64>;

/// The entries of a map of handles, by the view of their keys.
pub uninterp spec fn handles(m: SymbolHandles) -> Map<Seq<char>, u64>;

/// A map with no handles.
pub open spec fn no_handles() -> Map<Seq<char>, u64> {
    Map::empty()
}

/// `ahash::AHashMap::new`: a map with no entries.
#[verifier::external_body]
fn new_handles() -> (r: SymbolHandles)
    ensures
        handles(r) == no_handles(),
{
    AHashMap::new()
}

/// `ahash::AHashMap::insert`: the entry for `k` becomes `v`, the others stay.
#[verifier::external_body]
fn handles_insert(m: &mut SymbolHandles, k: String, v: u64)
    ensures
        handles(*final(m)) == handles(*old(m)).insert(k@, v),
{
    m.insert(k, v);
}

/// `ahash::AHashMap::get`, the entry copied: the handle for `k`, if there is one.
#[verifier::external_body]
fn handles_get(m: &SymbolHandles, k: &str) -> (r: Option<u64>)
    ensures
        r is Some == handles(*m).dom().contains(k@),
        r is Some ==> r->Some_0 == handles(*m)[k@],
{
    m.get(k).copied()
}

/// `Clone::clone` of `ahash::AHashMap`: a map with the same entries.
#[verifier::external_body]
fn handles_clone(m: &SymbolHandles) -> (r: SymbolHandles)
    ensures
        handles(r) == handles(*m),
{
    m.clone()
}

/// `Extend::extend` of `ahash::AHashMap` with another map: each entry of `other`
/// is inserted, replacing an entry with the same key.
#[verifier::external_body]
fn handles_extend(m: &mut SymbolHandles, other: SymbolHandles)
    ensures
        handles(*final(m)) == handles(*old(m)).union_prefer_right(handles(other)),
{
    m.extend(other);
}

/// `HashMap::clear` (through `AHashMap`'s deref): no entry is left.
#[verifier::external_body]
fn handles_clear(m: &mut SymbolHandles)
    ensures
        handles(*final(m)) == no_handles(),
{
    m.clear();
}

/// The handle that the innermost of `frames` holding `name` gives it, if any.
pub open spec fn frames_lookup(frames: Seq<Map<Seq<char>, u64>>, name: Seq<char>) -> Option<u64>
    decreases frames.len(),
{
    if frames.len() == 0 {
        None
    } else if frames.last().dom().contains(name) {
        Some(frames.last()[name])
    } else {
        frames_lookup(frames.drop_last(), name)
    }
}

/// The symbols of the code generator: constants and functions by name, a stack
/// of scopes of locals (innermost last), the parameters waiting for the next
/// scope, the calls made in the current scope, and what is being generated.
pub struct LLVMCodeGenContext {
    pub position: LLVMCodeGenContextPosition,
    pub constants: SymbolHandles,
    pub functions: SymbolHandles,
    pub blocks: Vec<SymbolHandles>,
    pub llvm_calls: Vec<u64>,
    pub lift_instructions: SymbolHandles,
    pub scope: usize,
}

impl LLVMCodeGenContext {
    /// The scopes of locals, innermost last.
    pub open spec fn frames(&self) -> Seq<Map<Seq<char>, u64>> {
        self.blocks@.map_values(|m: SymbolHandles| handles(m))
    }

    /// The depth counts the scopes.
    pub open spec fn wf(&self) -> bool {
        self.scope == self.blocks@.len()
    }

    /// What a name stands for: a constant of that name, else the innermost local
    /// of that name.
    pub open spec fn lookup(&self, name: Seq<char>) -> Option<u64> {
        if handles(self.constants).dom().contains(name) {
            Some(handles(self.constants)[name])
        } else {
            frames_lookup(self.frames(), name)
        }
    }

    /// Everything but the scopes of locals is as in `other`.
    pub open spec fn same_but_frames(&self, other: &Self) -> bool {
        &&& self.position == other.position
        &&& self.constants == other.constants
        &&& self.functions == other.functions
        &&& self.llvm_calls == other.llvm_calls
        &&& self.lift_instructions == other.lift_instructions
        &&& self.scope == other.scope
    }

    /// No symbols, no scope, and nothing relevant being generated.
    pub fn new() -> (r: Self)
        ensures
            r.wf(),
            r.position == LLVMCodeGenContextPosition::NoRelevant,
            handles(r.constants) == no_handles(),
            handles(r.functions) == no_handles(),
            r.frames() == Seq::<Map<Seq<char>, u64>>::empty(),
            r.llvm_calls@ == Seq::<u64>::empty(),
            handles(r.lift_instructions) == no_handles(),
            r.scope == 0,
    {
        let r = LLVMCodeGenContext {
            position: LLVMCodeGenContextPosition::NoRelevant,
            constants: new_handles(),
            functions: new_handles(),
            blocks: Vec::new(),
            llvm_calls: Vec::new(),
            lift_instructions: new_handles(),
            scope: 0,
        };
        assert(r.frames() =~= Seq::<Map<Seq<char>, u64>>::empty());
        r
    }

    /// Records the local `name` in the innermost scope.
    pub fn alloc_local(&mut self, name: String, symbol: u64)
        requires
            old(self).blocks@.len() > 0,
        ensures
            final(self).same_but_frames(old(self)),
            final(self).frames() == old(self).frames().update(
                old(self).frames().len() - 1,
                old(self).frames().last().insert(name@, symbol),
            ),
    {
        let last: usize = self.blocks.len() - 1;
        let mut block = new_handles();
        std::mem::swap(&mut block, &mut self.blocks[last]);
        handles_insert(&mut block, name, symbol);
        self.blocks.set(last, block);
        assert(self.frames() =~= old(self).frames().update(
            old(self).frames().len() - 1,
            old(self).frames().last().insert(name@, symbol),
        ));
    }

    /// Records the constant `name`.
    pub fn alloc_constant(&mut self, name: String, symbol: u64)
        ensures
            handles(final(self).constants) == handles(old(self).constants).insert(name@, symbol),
            final(self).position == old(self).position,
            final(self).functions == old(self).functions,
            final(self).blocks == old(self).blocks,
            final(self).llvm_calls == old(self).llvm_calls,
            final(self).lift_instructions == old(self).lift_instructions,
            final(self).scope == old(self).scope,
    {
        handles_insert(&mut self.constants, name, symbol);
    }

    /// Records the parameter `name`, to be seen from the next scope opened.
    pub fn alloc_function_parameter(&mut self, name: String, symbol: u64)
        ensures
            handles(final(self).lift_instructions) == handles(old(self).lift_instructions).insert(name@, symbol),
            final(self).position == old(self).position,
            final(self).constants == old(self).constants,
            final(self).functions == old(self).functions,
            final(self).blocks == old(self).blocks,
            final(self).llvm_calls == old(self).llvm_calls,
            final(self).scope == old(self).scope,
    {
        handles_insert(&mut self.lift_instructions, name, symbol);
    }

    /// Records the function `name`.
    pub fn insert_function(&mut self, name: String, function: u64)
        ensures
            handles(final(self).functions) == handles(old(self).functions).insert(name@, function),
            final(self).position == old(self).position,
            final(self).constants == old(self).constants,
            final(self).blocks == old(self).blocks,
            final(self).llvm_calls == old(self).llvm_calls,
            final(self).lift_instructions == old(self).lift_instructions,
            final(self).scope == old(self).scope,
    {
        handles_insert(&mut self.functions, name, function);
    }

    /// The locals of the innermost scope.
    pub fn get_allocated_symbols(&self) -> (r: &SymbolHandles)
        requires
            self.blocks@.len() > 0,
        ensures
            handles(*r) == self.frames().last(),
    {
        let last: usize = self.blocks.len() - 1;
        &self.blocks[last]
    }

    /// What `name` stands for, if anything: a constant of that name, else the
    /// innermost local of that name.
    pub fn find_allocated_symbol(&self, name: &str) -> (r: Option<u64>)
        requires
            self.wf(),
        ensures
            r == self.lookup(name@),
    {
        let constant = handles_get(&self.constants, name);
        if constant.is_some() {
            return constant;
        }
        let mut position: usize = self.scope;
        assert(self.frames().take(position as int) =~= self.frames());
        while position > 0
            invariant
                self.wf(),
                position <= self.blocks@.len(),
                !handles(self.constants).dom().contains(name@),
                frames_lookup(self.frames(), name@) == frames_lookup(self.frames().take(position as int), name@),
            decreases position,
        {
            let ghost prefix = self.frames().take(position as int);
            assert(prefix.drop_last() =~= self.frames().take(position - 1));
            assert(prefix.last() == handles(self.blocks@[position - 1]));
            let found = handles_get(&self.blocks[position - 1], name);
            if found.is_some() {
                return found;
            }
            position = position - 1;
        }
        assert(self.frames().take(0) =~= Seq::<Map<Seq<char>, u64>>::empty());
        None
    }

    /// What `name` stands for, where it stands for something.
    pub fn get_allocated_symbol(&self, name: &str) -> (r: u64)
        requires
            self.wf(),
            self.lookup(name@) is Some,
        ensures
            self.lookup(name@) == Some(r),
    {
        match self.find_allocated_symbol(name) {
            Some(symbol) => symbol,
            None => 0,
        }
    }

    /// The function `name`, if one was recorded.
    pub fn find_function(&self, name: &str) -> (r: Option<u64>)
        ensures
            r is Some == handles(self.functions).dom().contains(name@),
            r is Some ==> r->Some_0 == handles(self.functions)[name@],
    {
        handles_get(&self.functions, name)
    }

    /// The function `name`, where one was recorded.
    pub fn get_function(&self, name: &str) -> (r: u64)
        requires
            handles(self.functions).dom().contains(name@),
        ensures
            r == handles(self.functions)[name@],
    {
        match handles_get(&self.functions, name) {
            Some(function) => function,
            None => 0,
        }
    }

    pub fn set_position(&mut self, new_position: LLVMCodeGenContextPosition)
        ensures
            *final(self) == (LLVMCodeGenContext { position: new_position, ..*old(self) }),
    {
        self.position = new_position;
    }

    pub fn get_position(&self) -> (r: LLVMCodeGenContextPosition)
        ensures
            r == self.position,
    {
        self.position
    }

    pub fn set_position_irrelevant(&mut self)
        ensures
            *final(self) == (LLVMCodeGenContext { position: LLVMCodeGenContextPosition::NoRelevant, ..*old(self) }),
    {
        self.position = LLVMCodeGenContextPosition::NoRelevant;
    }

    /// The calls made in the current scope, in order.
    pub fn get_llvm_calls(&self) -> (r: &Vec<u64>)
        ensures
            r@ == self.llvm_calls@,
    {
        &self.llvm_calls
    }

    pub fn add_scope_call(&mut self, call: u64)
        ensures
            final(self).llvm_calls@ == old(self).llvm_calls@.push(call),
            final(self).position == old(self).position,
            final(self).constants == old(self).constants,
            final(self).functions == old(self).functions,
            final(self).blocks == old(self).blocks,
            final(self).lift_instructions == old(self).lift_instructions,
            final(self).scope == old(self).scope,
    {
        self.llvm_calls.push(call);
    }

    /// Opens a scope that starts with the parameters waiting for it.
    pub fn begin_scope(&mut self)
        requires
            old(self).wf(),
            old(self).scope < usize::MAX,
        ensures
            final(self).wf(),
            final(self).frames() == old(self).frames().push(handles(old(self).lift_instructions)),
            final(self).scope == old(self).scope + 1,
            final(self).position == old(self).position,
            final(self).constants == old(self).constants,
            final(self).functions == old(self).functions,
            final(self).llvm_calls == old(self).llvm_calls,
            final(self).lift_instructions == old(self).lift_instructions,
    {
        let mut block = new_handles();
        handles_extend(&mut block, handles_clone(&self.lift_instructions));
        assert(handles(block) =~= handles(self.lift_instructions));
        self.blocks.push(block);
        self.scope = self.scope + 1;
        assert(self.frames() =~= old(self).frames().push(handles(old(self).lift_instructions)));
    }

    /// Closes the innermost scope, forgetting the waiting parameters and the calls
    /// of the scope.
    pub fn end_scope(&mut self)
        requires
            old(self).wf(),
            old(self).scope > 0,
        ensures
            final(self).wf(),
            final(self).frames() == old(self).frames().drop_last(),
            final(self).scope == old(self).scope - 1,
            handles(final(self).lift_instructions) == no_handles(),
            final(self).llvm_calls@ == Seq::<u64>::empty(),
            final(self).position == old(self).position,
            final(self).constants == old(self).constants,
            final(self).functions == old(self).functions,
    {
        let _ = self.blocks.pop();
        handles_clear(&mut self.lift_instructions);
        self.llvm_calls.clear();
        self.scope = self.scope - 1;
        assert(self.frames() =~= old(self).frames().drop_last());
    }
}

/// The symbols of the older code generator: functions and structures by name,
/// and a stack of scopes of locals, innermost last.
pub struct CompilerObjects {
    pub functions: SymbolHandles,
    pub structs: SymbolHandles,
    pub blocks: Vec<SymbolHandles>,
    pub scope_position: usize,
}

impl CompilerObjects {
    /// The scopes of locals, innermost last.
    pub open spec fn frames(&self) -> Seq<Map<Seq<char>, u64>> {
        self.blocks@.map_values(|m: SymbolHandles| handles(m))
    }

    /// The depth counts the scopes.
    pub open spec fn wf(&self) -> bool {
        self.scope_position == self.blocks@.len()
    }

    pub fn new() -> (r: Self)
        ensures
            r.wf(),
            handles(r.functions) == no_handles(),
            handles(r.structs) == no_handles(),
            r.frames() == Seq::<Map<Seq<char>, u64>>::empty(),
    {
        let r = CompilerObjects { functions: new_handles(), structs: new_handles(), blocks: Vec::new(), scope_position: 0 };
        assert(r.frames() =~= Seq::<Map<Seq<char>, u64>>::empty());
        r
    }

    /// Opens an empty scope.
    pub fn begin_scope(&mut self)
        requires
            old(self).wf(),
            old(self).scope_position < usize::MAX,
        ensures
            final(self).wf(),
            final(self).frames() == old(self).frames().push(no_handles()),
            final(self).functions == old(self).functions,
            final(self).structs == old(self).structs,
    {
        self.blocks.push(new_handles());
        self.scope_position = self.scope_position + 1;
        assert(self.frames() =~= old(self).frames().push(no_handles()));
    }

    /// Closes the innermost scope.
    pub fn end_scope(&mut self)
        requires
            old(self).wf(),
            old(self).scope_position > 0,
        ensures
            final(self).wf(),
            final(self).frames() == old(self).frames().drop_last(),
            final(self).functions == old(self).functions,
            final(self).structs == old(self).structs,
    {
        let _ = self.blocks.pop();
        self.scope_position = self.scope_position - 1;
        assert(self.frames() =~= old(self).frames().drop_last());
    }

    /// Records the local `name` in the innermost scope.
    pub fn alloc_local_object(&mut self, name: String, object: u64)
        requires
            old(self).wf(),
            old(self).scope_position > 0,
        ensures
            final(self).wf(),
            final(self).frames() == old(self).frames().update(
                old(self).frames().len() - 1,
                old(self).frames().last().insert(name@, object),
            ),
            final(self).functions == old(self).functions,
            final(self).structs == old(self).structs,
    {
        let last: usize = self.scope_position - 1;
        let mut block = new_handles();
        std::mem::swap(&mut block, &mut self.blocks[last]);
        handles_insert(&mut block, name, object);
        self.blocks.set(last, block);
        assert(self.frames() =~= old(self).frames().update(
            old(self).frames().len() - 1,
            old(self).frames().last().insert(name@, object),
        ));
    }

    pub fn insert_function(&mut self, name: String, function: u64)
        ensures
            handles(final(self).functions) == handles(old(self).functions).insert(name@, function),
            final(self).structs == old(self).structs,
            final(self).blocks == old(self).blocks,
            final(self).scope_position == old(self).scope_position,
    {
        handles_insert(&mut self.functions, name, function);
    }

    pub fn insert_struct(&mut self, name: String, fields_types: u64)
        ensures
            handles(final(self).structs) == handles(old(self).structs).insert(name@, fields_types),
            final(self).functions == old(self).functions,
            final(self).blocks == old(self).blocks,
            final(self).scope_position == old(self).scope_position,
    {
        handles_insert(&mut self.structs, name, fields_types);
    }

    /// The structure `name`, if one was recorded.
    pub fn get_struct(&self, name: &str) -> (r: Option<u64>)
        ensures
            r is Some == handles(self.structs).dom().contains(name@),
            r is Some ==> r->Some_0 == handles(self.structs)[name@],
    {
        handles_get(&self.structs, name)
    }

    /// The innermost local `name`, if there is one.
    pub fn find_allocated_object(&self, name: &str) -> (r: Option<u64>)
        requires
            self.wf(),
        ensures
            r == frames_lookup(self.frames(), name@),
    {
        let mut position: usize = self.scope_position;
        assert(self.frames().take(position as int) =~= self.frames());
        while position > 0
            invariant
                self.wf(),
                position <= self.blocks@.len(),
                frames_lookup(self.frames(), name@) == frames_lookup(self.frames().take(position as int), name@),
            decreases position,
        {
            let ghost prefix = self.frames().take(position as int);
            assert(prefix.drop_last() =~= self.frames().take(position - 1));
            assert(prefix.last() == handles(self.blocks@[position - 1]));
            let found = handles_get(&self.blocks[position - 1], name);
            if found.is_some() {
                return found;
            }
            position = position - 1;
        }
        assert(self.frames().take(0) =~= Seq::<Map<Seq<char>, u64>>::empty());
        None
    }

    /// The innermost local `name`, where there is one.
    pub fn get_allocated_object(&self, name: &str) -> (r: u64)
        requires
            self.wf(),
            frames_lookup(self.frames(), name@) is Some,
        ensures
            frames_lookup(self.frames(), name@) == Some(r),
    {
        match self.find_allocated_object(name) {
            Some(object) => object,
            None => 0,
        }
    }

    /// The function `name`, where one was recorded.
    pub fn get_function(&self, name: &str) -> (r: u64)
        requires
            handles(self.functions).dom().contains(name@),
        ensures
            r == handles(self.functions)[name@],
    {
        match handles_get(&self.functions, name) {
            Some(function) => function,
            None => 0,
        }
    }
}

/// A local recorded in the innermost scope is what its name stands for there,
/// whatever the outer scopes hold.
pub proof fn lemma_recorded_local_is_found(frames: Seq<Map<Seq<char>, u64>>, name: Seq<char>, symbol: u64)
    requires
        frames.len() > 0,
    ensures
        frames_lookup(frames.update(frames.len() - 1, frames.last().insert(name, symbol)), name) == Some(symbol),
{
}

/// Recording a local leaves every other name standing for what it stood for.
pub proof fn lemma_recording_keeps_other_names(
    frames: Seq<Map<Seq<char>, u64>>,
    name: Seq<char>,
    other: Seq<char>,
    symbol: u64,
)
    requires
        frames.len() > 0,
        name != other,
    ensures
        frames_lookup(frames.update(frames.len() - 1, frames.last().insert(name, symbol)), other) == frames_lookup(
            frames,
            other,
        ),
{
    let updated = frames.update(frames.len() - 1, frames.last().insert(name, symbol));
    assert(updated.drop_last() =~= frames.drop_last());
}

/// Opening a scope and closing it again leaves every name standing for what it
/// stood for.
pub proof fn lemma_scope_round_trip(frames: Seq<Map<Seq<char>, u64>>, opened: Map<Seq<char>, u64>, name: Seq<char>)
    ensures
        frames_lookup(frames.push(opened).drop_last(), name) == frames_lookup(frames, name),
{
    assert(frames.push(opened).drop_last() =~= frames);
}

/// A name that the newest scope does not hold stands for what it stood for in the
/// scopes around it.
pub proof fn lemma_outer_scopes_seen_through(frames: Seq<Map<Seq<char>, u64>>, opened: Map<Seq<char>, u64>, name: Seq<char>)
    requires
        !opened.dom().contains(name),
    ensures
        frames_lookup(frames.push(opened), name) == frames_lookup(frames, name),
{
    assert(frames.push(opened).drop_last() =~= frames);
}

/// A parameter recorded before a scope opens is what its name stands for among
/// the locals of that scope.
pub proof fn lemma_waiting_parameter_seen(
    frames: Seq<Map<Seq<char>, u64>>,
    waiting: Map<Seq<char>, u64>,
    name: Seq<char>,
    symbol: u64,
)
    ensures
        frames_lookup(frames.push(waiting.insert(name, symbol)), name) == Some(symbol),
{
}

} // verus!
