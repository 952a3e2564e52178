use vstd::prelude::*;

use crate::issue::{concat3, Span, ThrushCompilerIssue};
use crate::parser::{spec_stmt_span, ThrushStatement};
use crate::types::ThrushType;

verus! {

/// Where a symbol was declared and whether it has been used.
pub type UsageInfo = (Span, bool);

/// Where a symbol was declared, whether it has been used, and whether its
/// mutability has been used (true for symbols that are not mutable).
pub type TrackedInfo = (Span, bool, bool);

/// A declaration with fields: its fields, where it was declared, and whether it
/// has been used.
pub type GroupInfo = (Vec<(String, UsageInfo)>, Span, bool);

/// The symbols the linter keeps track of, each in the order it was declared.
pub struct LinterSymbolsTable {
    pub constants: Vec<(String, UsageInfo)>,
    pub functions: Vec<(String, UsageInfo)>,
    pub asm_functions: Vec<(String, UsageInfo)>,
    pub enums: Vec<(String, GroupInfo)>,
    pub structs: Vec<(String, GroupInfo)>,
    pub parameters: Vec<(String, TrackedInfo)>,
    pub locals: Vec<Vec<(String, TrackedInfo)>>,
    pub llis: Vec<Vec<(String, UsageInfo)>>,
}

/// An issue as plain values: whether it is a warning (else an error), its title,
/// its description, its note (warnings have none) and where it points.
pub type IssueModel = (bool, Seq<char>, Seq<char>, Option<Seq<char>>, Span);

/// The warning that the symbol `name` at `span` is not used.
pub open spec fn unused(title: Seq<char>, name: Seq<char>, span: Span) -> IssueModel {
    (true, title, "'"@ + name + "' not used."@, None, span)
}

/// What an issue holds, as plain values.
pub open spec fn issue_model(i: ThrushCompilerIssue) -> IssueModel {
    match i {
        ThrushCompilerIssue::Warning(title, desc, span) => (true, title@, desc@, None, span),
        ThrushCompilerIssue::Error(title, desc, note, span) => (
            false,
            title@,
            desc@,
            match note {
                Some(n) => Some(n@),
                None => None,
            },
            span,
        ),
    }
}

pub open spec fn issues_model(v: Seq<ThrushCompilerIssue>) -> Seq<IssueModel> {
    v.map_values(|i: ThrushCompilerIssue| issue_model(i))
}

/// One warning per entry not used, in order.
pub open spec fn unused_warnings(entries: Seq<(String, UsageInfo)>, title: Seq<char>) -> Seq<IssueModel>
    decreases entries.len(),
{
    if entries.len() == 0 {
        Seq::empty()
    } else {
        let e = entries.last();
        unused_warnings(entries.drop_last(), title) + if !e.1.1 {
            seq![unused(title, e.0@, e.1.0)]
        } else {
            Seq::empty()
        }
    }
}

/// For each entry in order: a warning if it is not used, then one if its
/// mutability is not used.
pub open spec fn tracked_warnings(
    entries: Seq<(String, TrackedInfo)>,
    title: Seq<char>,
    mutable_title: Seq<char>,
) -> Seq<IssueModel>
    decreases entries.len(),
{
    if entries.len() == 0 {
        Seq::empty()
    } else {
        let e = entries.last();
        tracked_warnings(entries.drop_last(), title, mutable_title) + (if !e.1.1 {
            seq![unused(title, e.0@, e.1.0)]
        } else {
            Seq::empty()
        }) + (if !e.1.2 {
            seq![unused(mutable_title, e.0@, e.1.0)]
        } else {
            Seq::empty()
        })
    }
}

/// For each declaration in order: a warning if it is not used, then one per field
/// not used.
pub open spec fn grouped_warnings(
    groups: Seq<(String, GroupInfo)>,
    title: Seq<char>,
    field_title: Seq<char>,
) -> Seq<IssueModel>
    decreases groups.len(),
{
    if groups.len() == 0 {
        Seq::empty()
    } else {
        let g = groups.last();
        grouped_warnings(groups.drop_last(), title, field_title) + (if !g.1.2 {
            seq![unused(title, g.0@, g.1.1)]
        } else {
            Seq::empty()
        }) + unused_warnings(g.1.0@, field_title)
    }
}

/// A prefix of a prefix is a prefix.
proof fn lemma_prefix_of_prefix(a: Seq<ThrushCompilerIssue>, b: Seq<ThrushCompilerIssue>, c: Seq<ThrushCompilerIssue>)
    requires
        a.len() <= b.len() <= c.len(),
        b.take(a.len() as int) == a,
        c.take(b.len() as int) == b,
    ensures
        c.take(a.len() as int) == a,
{
    assert(c.take(a.len() as int) =~= a) by {
        assert forall|i: int| 0 <= i < a.len() implies c.take(a.len() as int)[i] == a[i] by {
            assert(c.take(b.len() as int)[i] == b[i]);
            assert(b.take(a.len() as int)[i] == a[i]);
        }
    }
}

fn push_unused(warnings: &mut Vec<ThrushCompilerIssue>, title: &str, name: &str, span: Span)
    ensures
        issues_model(final(warnings)@) == issues_model(old(warnings)@).push(unused(title@, name@, span)),
        old(warnings)@.len() <= final(warnings)@.len(),
        final(warnings)@.take(old(warnings)@.len() as int) == old(warnings)@,
{
    proof {
        reveal_strlit("'");
        reveal_strlit("' not used.");
    }
    warnings.push(
        ThrushCompilerIssue::Warning(String::from_str(title), concat3("'", name, "' not used."), span),
    );
    assert(issues_model(warnings@) =~= issues_model(old(warnings)@).push(unused(title@, name@, span)));
}

fn warn_unused(warnings: &mut Vec<ThrushCompilerIssue>, entries: &Vec<(String, UsageInfo)>, title: &str)
    ensures
        issues_model(final(warnings)@) == issues_model(old(warnings)@) + unused_warnings(entries@, title@),
        old(warnings)@.len() <= final(warnings)@.len(),
        final(warnings)@.take(old(warnings)@.len() as int) == old(warnings)@,
{
    let mut i: usize = 0;
    while i < entries.len()
        invariant
            0 <= i <= entries@.len(),
            old(warnings)@.len() <= warnings@.len(),
            warnings@.take(old(warnings)@.len() as int) == old(warnings)@,
            issues_model(warnings@) == issues_model(old(warnings)@) + unused_warnings(entries@.take(i as int), title@),
        decreases entries.len() - i,
    {
        assert(entries@.take(i + 1).drop_last() =~= entries@.take(i as int));
        if !entries[i].1.1 {
            push_unused(warnings, title, entries[i].0.as_str(), entries[i].1.0);
        }
        assert(issues_model(warnings@) =~= issues_model(old(warnings)@) + unused_warnings(entries@.take(i + 1), title@));
        i = i + 1;
    }
    assert(entries@.take(entries@.len() as int) =~= entries@);
}

fn warn_tracked(
    warnings: &mut Vec<ThrushCompilerIssue>,
    entries: &Vec<(String, TrackedInfo)>,
    title: &str,
    mutable_title: &str,
)
    ensures
        issues_model(final(warnings)@) == issues_model(old(warnings)@) + tracked_warnings(entries@, title@, mutable_title@),
        old(warnings)@.len() <= final(warnings)@.len(),
        final(warnings)@.take(old(warnings)@.len() as int) == old(warnings)@,
{
    let mut i: usize = 0;
    while i < entries.len()
        invariant
            0 <= i <= entries@.len(),
            old(warnings)@.len() <= warnings@.len(),
            warnings@.take(old(warnings)@.len() as int) == old(warnings)@,
            issues_model(warnings@) == issues_model(old(warnings)@) + tracked_warnings(
                entries@.take(i as int),
                title@,
                mutable_title@,
            ),
        decreases entries.len() - i,
    {
        assert(entries@.take(i + 1).drop_last() =~= entries@.take(i as int));
        if !entries[i].1.1 {
            push_unused(warnings, title, entries[i].0.as_str(), entries[i].1.0);
        }
        if !entries[i].1.2 {
            push_unused(warnings, mutable_title, entries[i].0.as_str(), entries[i].1.0);
        }
        assert(issues_model(warnings@) =~= issues_model(old(warnings)@) + tracked_warnings(
            entries@.take(i + 1),
            title@,
            mutable_title@,
        ));
        i = i + 1;
    }
    assert(entries@.take(entries@.len() as int) =~= entries@);
}

fn warn_grouped(
    warnings: &mut Vec<ThrushCompilerIssue>,
    groups: &Vec<(String, GroupInfo)>,
    title: &str,
    field_title: &str,
)
    ensures
        issues_model(final(warnings)@) == issues_model(old(warnings)@) + grouped_warnings(groups@, title@, field_title@),
        old(warnings)@.len() <= final(warnings)@.len(),
        final(warnings)@.take(old(warnings)@.len() as int) == old(warnings)@,
{
    let mut i: usize = 0;
    while i < groups.len()
        invariant
            0 <= i <= groups@.len(),
            old(warnings)@.len() <= warnings@.len(),
            warnings@.take(old(warnings)@.len() as int) == old(warnings)@,
            issues_model(warnings@) == issues_model(old(warnings)@) + grouped_warnings(
                groups@.take(i as int),
                title@,
                field_title@,
            ),
        decreases groups.len() - i,
    {
        assert(groups@.take(i + 1).drop_last() =~= groups@.take(i as int));
        if !groups[i].1.2 {
            push_unused(warnings, title, groups[i].0.as_str(), groups[i].1.1);
        }
        warn_unused(warnings, &groups[i].1.0, field_title);
        assert(issues_model(warnings@) =~= issues_model(old(warnings)@) + grouped_warnings(
            groups@.take(i + 1),
            title@,
            field_title@,
        ));
        i = i + 1;
    }
    assert(groups@.take(groups@.len() as int) =~= groups@);
}

/// The warnings that analysing `s` adds, where `params` are the parameters in
/// scope: each block, once all it holds has been analysed, reports its unused
/// parameters.
pub open spec fn stmt_warnings(params: Seq<(String, TrackedInfo)>, s: ThrushStatement) -> Seq<IssueModel>
    decreases s,
{
    match s {
        ThrushStatement::Block { stmts, .. } => {
            stmts_warnings(params, stmts@) + tracked_warnings(params, "Parameter not used"@, "Mutable parameter not used"@)
        },
        _ => Seq::empty(),
    }
}

/// The warnings that analysing each of `stmts` in order adds.
pub open spec fn stmts_warnings(params: Seq<(String, TrackedInfo)>, stmts: Seq<ThrushStatement>) -> Seq<IssueModel>
    decreases stmts,
{
    if stmts.len() == 0 {
        Seq::empty()
    } else {
        stmts_warnings(params, stmts.drop_last()) + stmt_warnings(params, stmts.last())
    }
}

/// A list of symbols by name, as plain values.
pub open spec fn usage_view(v: Seq<(String, UsageInfo)>) -> Seq<(Seq<char>, UsageInfo)> {
    v.map_values(|e: (String, UsageInfo)| (e.0@, e.1))
}

/// A list of declarations with fields, as plain values.
pub open spec fn group_view(v: Seq<(String, GroupInfo)>) -> Seq<(Seq<char>, Seq<(Seq<char>, UsageInfo)>, Span, bool)> {
    v.map_values(|e: (String, GroupInfo)| (e.0@, usage_view(e.1.0@), e.1.1, e.1.2))
}

/// A list of scoped symbols, as plain values.
pub open spec fn tracked_view(v: Seq<(String, TrackedInfo)>) -> Seq<(Seq<char>, TrackedInfo)> {
    v.map_values(|e: (String, TrackedInfo)| (e.0@, e.1))
}

impl LinterSymbolsTable {
    /// No symbol of any kind and no scope.
    pub open spec fn is_empty(&self) -> bool {
        &&& self.constants@.len() == 0
        &&& self.functions@.len() == 0
        &&& self.asm_functions@.len() == 0
        &&& self.enums@.len() == 0
        &&& self.structs@.len() == 0
        &&& self.parameters@.len() == 0
        &&& self.locals@.len() == 0
        &&& self.llis@.len() == 0
    }

    /// The global symbols of `self` and `other` are the same.
    pub open spec fn same_globals(&self, other: &Self) -> bool {
        &&& self.constants == other.constants
        &&& self.functions == other.functions
        &&& self.asm_functions == other.asm_functions
        &&& self.enums == other.enums
        &&& self.structs == other.structs
        &&& self.parameters == other.parameters
    }

    pub fn new() -> (t: Self)
        ensures
            t.is_empty(),
    {
        LinterSymbolsTable {
            constants: Vec::new(),
            functions: Vec::new(),
            asm_functions: Vec::new(),
            enums: Vec::new(),
            structs: Vec::new(),
            parameters: Vec::new(),
            locals: Vec::new(),
            llis: Vec::new(),
        }
    }

    /// Opens a scope for locals and low-level instructions.
    pub fn begin_scope(&mut self)
        ensures
            final(self).same_globals(old(self)),
            final(self).locals@.len() == old(self).locals@.len() + 1,
            final(self).locals@.drop_last() == old(self).locals@,
            final(self).locals@.last()@.len() == 0,
            final(self).llis@.len() == old(self).llis@.len() + 1,
            final(self).llis@.drop_last() == old(self).llis@,
            final(self).llis@.last()@.len() == 0,
    {
        self.locals.push(Vec::new());
        self.llis.push(Vec::new());
    }

    /// Closes the innermost scope, if there is one.
    pub fn end_scope(&mut self)
        ensures
            final(self).same_globals(old(self)),
            final(self).locals@ == if old(self).locals@.len() > 0 {
                old(self).locals@.drop_last()
            } else {
                old(self).locals@
            },
            final(self).llis@ == if old(self).llis@.len() > 0 {
                old(self).llis@.drop_last()
            } else {
                old(self).llis@
            },
    {
        let _ = self.locals.pop();
        let _ = self.llis.pop();
    }

    pub fn new_constant(&mut self, name: String, info: UsageInfo)
        ensures
            usage_view(final(self).constants@) == usage_view(old(self).constants@).push((name@, info)),
            final(self).functions == old(self).functions,
            final(self).asm_functions == old(self).asm_functions,
            final(self).enums == old(self).enums,
            final(self).structs == old(self).structs,
            final(self).parameters == old(self).parameters,
            final(self).locals@ == old(self).locals@,
            final(self).llis@ == old(self).llis@,
    {
        self.constants.push((name, info));
        assert(usage_view(self.constants@) =~= usage_view(old(self).constants@).push((name@, info)));
    }

    pub fn new_function(&mut self, name: String, info: UsageInfo)
        ensures
            final(self).constants == old(self).constants,
            usage_view(final(self).functions@) == usage_view(old(self).functions@).push((name@, info)),
            final(self).asm_functions == old(self).asm_functions,
            final(self).enums == old(self).enums,
            final(self).structs == old(self).structs,
            final(self).parameters == old(self).parameters,
            final(self).locals@ == old(self).locals@,
            final(self).llis@ == old(self).llis@,
    {
        self.functions.push((name, info));
        assert(usage_view(self.functions@) =~= usage_view(old(self).functions@).push((name@, info)));
    }

    pub fn new_asm_function(&mut self, name: String, info: UsageInfo)
        ensures
            final(self).constants == old(self).constants,
            final(self).functions == old(self).functions,
            usage_view(final(self).asm_functions@) == usage_view(old(self).asm_functions@).push((name@, info)),
            final(self).enums == old(self).enums,
            final(self).structs == old(self).structs,
            final(self).parameters == old(self).parameters,
            final(self).locals@ == old(self).locals@,
            final(self).llis@ == old(self).llis@,
    {
        self.asm_functions.push((name, info));
        assert(usage_view(self.asm_functions@) =~= usage_view(old(self).asm_functions@).push((name@, info)));
    }

    pub fn new_enum(&mut self, name: String, info: GroupInfo)
        ensures
            final(self).constants == old(self).constants,
            final(self).functions == old(self).functions,
            final(self).asm_functions == old(self).asm_functions,
            group_view(final(self).enums@) == group_view(old(self).enums@).push(
                (name@, usage_view(info.0@), info.1, info.2),
            ),
            final(self).structs == old(self).structs,
            final(self).parameters == old(self).parameters,
            final(self).locals@ == old(self).locals@,
            final(self).llis@ == old(self).llis@,
    {
        let ghost g = (name@, usage_view(info.0@), info.1, info.2);
        self.enums.push((name, info));
        assert(group_view(self.enums@) =~= group_view(old(self).enums@).push(g));
    }

    pub fn new_struct(&mut self, name: String, info: GroupInfo)
        ensures
            final(self).constants == old(self).constants,
            final(self).functions == old(self).functions,
            final(self).asm_functions == old(self).asm_functions,
            final(self).enums == old(self).enums,
            group_view(final(self).structs@) == group_view(old(self).structs@).push(
                (name@, usage_view(info.0@), info.1, info.2),
            ),
            final(self).parameters == old(self).parameters,
            final(self).locals@ == old(self).locals@,
            final(self).llis@ == old(self).llis@,
    {
        let ghost g = (name@, usage_view(info.0@), info.1, info.2);
        self.structs.push((name, info));
        assert(group_view(self.structs@) =~= group_view(old(self).structs@).push(g));
    }
}

/// The constants that `stmts` declare, in order, each used if it is public.
pub open spec fn declared_constants(stmts: Seq<ThrushStatement>) -> Seq<(Seq<char>, UsageInfo)>
    decreases stmts.len(),
{
    if stmts.len() == 0 {
        Seq::empty()
    } else {
        declared_constants(stmts.drop_last()) + match stmts.last() {
            ThrushStatement::Const { name, is_public, span } => seq![(name@, (span, is_public))],
            _ => Seq::empty(),
        }
    }
}

/// The functions that `stmts` declare, in order, each used if it is public.
pub open spec fn declared_functions(stmts: Seq<ThrushStatement>) -> Seq<(Seq<char>, UsageInfo)>
    decreases stmts.len(),
{
    if stmts.len() == 0 {
        Seq::empty()
    } else {
        declared_functions(stmts.drop_last()) + match stmts.last() {
            ThrushStatement::Function { name, is_public, span } => seq![(name@, (span, is_public))],
            _ => Seq::empty(),
        }
    }
}

/// The assembler functions that `stmts` declare, in order, each used if it is
/// public.
pub open spec fn declared_asm_functions(stmts: Seq<ThrushStatement>) -> Seq<(Seq<char>, UsageInfo)>
    decreases stmts.len(),
{
    if stmts.len() == 0 {
        Seq::empty()
    } else {
        declared_asm_functions(stmts.drop_last()) + match stmts.last() {
            ThrushStatement::AssemblerFunction { name, is_public, span } => seq![(name@, (span, is_public))],
            _ => Seq::empty(),
        }
    }
}

/// No two entries share a name.
pub open spec fn distinct_names(entries: Seq<(Seq<char>, UsageInfo)>) -> bool {
    forall|a: int, b: int| 0 <= a < b < entries.len() ==> entries[a].0 != entries[b].0
}

/// `entries` with `e` recorded under its name: it replaces the entry of that name
/// where there is one, and is added at the end otherwise.
pub open spec fn upsert(entries: Seq<(Seq<char>, UsageInfo)>, e: (Seq<char>, UsageInfo)) -> Seq<(Seq<char>, UsageInfo)> {
    if exists|i: int| 0 <= i < entries.len() && entries[i].0 == e.0 {
        let i = choose|i: int| 0 <= i < entries.len() && entries[i].0 == e.0;
        entries.update(i, e)
    } else {
        entries.push(e)
    }
}

/// The entries recorded one after the other by name, as a map keeps them: one per
/// name, in the order names first appear, each with the last value given.
pub open spec fn recorded(entries: Seq<(Seq<char>, UsageInfo)>) -> Seq<(Seq<char>, UsageInfo)>
    decreases entries.len(),
{
    if entries.len() == 0 {
        Seq::empty()
    } else {
        upsert(recorded(entries.drop_last()), entries.last())
    }
}

/// The fields of a structure by name, none used yet, each at its own place.
pub open spec fn struct_field_usage(fields: Seq<(String, ThrushType, u32, Span)>) -> Seq<(Seq<char>, UsageInfo)> {
    recorded(fields.map_values(|f: (String, ThrushType, u32, Span)| (f.0@, (f.3, false))))
}

/// The fields of an enumeration by name, none used yet, each at the place of its
/// value.
pub open spec fn enum_field_usage(fields: Seq<(String, ThrushStatement)>) -> Seq<(Seq<char>, UsageInfo)> {
    recorded(fields.map_values(|f: (String, ThrushStatement)| (f.0@, (spec_stmt_span(f.1), false))))
}

/// The structures that `stmts` declare, in order, each used if it is public.
pub open spec fn declared_structs(stmts: Seq<ThrushStatement>) -> Seq<(Seq<char>, Seq<(Seq<char>, UsageInfo)>, Span, bool)>
    decreases stmts.len(),
{
    if stmts.len() == 0 {
        Seq::empty()
    } else {
        declared_structs(stmts.drop_last()) + match stmts.last() {
            ThrushStatement::Struct { name, fields, is_public, span } => seq![
                (name@, struct_field_usage(fields@), span, is_public),
            ],
            _ => Seq::empty(),
        }
    }
}

/// The enumerations that `stmts` declare, in order, none used yet.
pub open spec fn declared_enums(stmts: Seq<ThrushStatement>) -> Seq<(Seq<char>, Seq<(Seq<char>, UsageInfo)>, Span, bool)>
    decreases stmts.len(),
{
    if stmts.len() == 0 {
        Seq::empty()
    } else {
        declared_enums(stmts.drop_last()) + match stmts.last() {
            ThrushStatement::Enum { name, fields, span } => seq![(name@, enum_field_usage(fields@), span, false)],
            _ => Seq::empty(),
        }
    }
}

/// `after` is `before` with the global declarations of `stmts` added.
pub open spec fn initialized(before: LinterSymbolsTable, after: LinterSymbolsTable, stmts: Seq<ThrushStatement>) -> bool {
    &&& usage_view(after.constants@) == usage_view(before.constants@) + declared_constants(stmts)
    &&& usage_view(after.functions@) == usage_view(before.functions@) + declared_functions(stmts)
    &&& usage_view(after.asm_functions@) == usage_view(before.asm_functions@) + declared_asm_functions(stmts)
    &&& group_view(after.enums@) == group_view(before.enums@) + declared_enums(stmts)
    &&& group_view(after.structs@) == group_view(before.structs@) + declared_structs(stmts)
    &&& after.parameters == before.parameters
    &&& after.locals@ == before.locals@
    &&& after.llis@ == before.llis@
}

/// The warnings about global symbols, in the order they are reported: constants,
/// functions, assembler functions, enumerations with their fields, structures
/// with their fields.
pub open spec fn global_warnings(t: LinterSymbolsTable) -> Seq<IssueModel> {
    unused_warnings(t.constants@, "Constant not used"@) + unused_warnings(t.functions@, "Function not used"@)
        + unused_warnings(t.asm_functions@, "Assembler function not used"@) + grouped_warnings(
        t.enums@,
        "Enum not used"@,
        "Enum field not used"@,
    ) + grouped_warnings(t.structs@, "Structure not used"@, "Structure field not used"@)
}

/// The warnings about the symbols of the innermost scope: the parameters, then
/// the locals and the low-level instructions of the innermost scope, if any.
pub open spec fn scoped_warnings(t: LinterSymbolsTable) -> Seq<IssueModel> {
    tracked_warnings(t.parameters@, "Parameter not used"@, "Mutable parameter not used"@) + (if t.locals@.len()
        > 0 {
        tracked_warnings(t.locals@.last()@, "Local not used"@, "Mutable local not used"@)
    } else {
        Seq::empty()
    }) + (if t.llis@.len() > 0 {
        unused_warnings(t.llis@.last()@, "Low Level Instruction not used"@)
    } else {
        Seq::empty()
    })
}

fn record_one(r: &mut Vec<(String, UsageInfo)>, name: String, info: UsageInfo)
    requires
        distinct_names(usage_view(old(r)@)),
    ensures
        distinct_names(usage_view(final(r)@)),
        usage_view(final(r)@) == upsert(usage_view(old(r)@), (name@, info)),
{
    let ghost before = usage_view(r@);
    let mut j: usize = 0;
    while j < r.len()
        invariant
            0 <= j <= r@.len(),
            usage_view(r@) == before,
            before == usage_view(old(r)@),
            distinct_names(before),
            forall|a: int| 0 <= a < j ==> before[a].0 != name@,
        decreases r.len() - j,
    {
        if r[j].0 == name {
            assert(before[j as int].0 == name@);
            assert forall|a: int| 0 <= a < before.len() && before[a].0 == name@ implies a == j by {
                if a != j as int {
                    assert(before[a].0 != before[j as int].0);
                }
            }
            let ghost chosen = choose|i: int| 0 <= i < before.len() && before[i].0 == name@;
            assert(chosen == j as int);
            assert(upsert(before, (name@, info)) == before.update(j as int, (name@, info)));
            r.set(j, (name, info));
            assert(usage_view(r@) =~= before.update(j as int, (name@, info)));
            assert(distinct_names(usage_view(r@))) by {
                assert forall|a: int, b: int| 0 <= a < b < usage_view(r@).len() implies usage_view(r@)[a].0
                    != usage_view(r@)[b].0 by {
                    assert(usage_view(r@)[a].0 == before[a].0);
                    assert(usage_view(r@)[b].0 == before[b].0);
                }
            }
            return;
        }
        j = j + 1;
    }
    r.push((name, info));
    assert(usage_view(r@) =~= before.push((name@, info)));
    assert(upsert(before, (name@, info)) == before.push((name@, info)));
}

fn record_all(all: &Vec<(String, UsageInfo)>) -> (r: Vec<(String, UsageInfo)>)
    ensures
        usage_view(r@) == recorded(usage_view(all@)),
{
    let mut r: Vec<(String, UsageInfo)> = Vec::new();
    let mut i: usize = 0;
    assert(usage_view(r@) =~= recorded(usage_view(all@).take(0)));
    while i < all.len()
        invariant
            0 <= i <= all@.len(),
            distinct_names(usage_view(r@)),
            usage_view(r@) == recorded(usage_view(all@).take(i as int)),
        decreases all.len() - i,
    {
        let ghost prefix = usage_view(all@).take(i + 1);
        assert(prefix.drop_last() =~= usage_view(all@).take(i as int));
        let name: String = all[i].0.clone();
        record_one(&mut r, name, all[i].1);
        i = i + 1;
    }
    assert(usage_view(all@).take(all@.len() as int) =~= usage_view(all@));
    r
}

fn struct_fields_usage(fields: &Vec<(String, ThrushType, u32, Span)>) -> (r: Vec<(String, UsageInfo)>)
    ensures
        usage_view(r@) == struct_field_usage(fields@),
{
    let mut all: Vec<(String, UsageInfo)> = Vec::new();
    let mut i: usize = 0;
    while i < fields.len()
        invariant
            0 <= i <= fields@.len(),
            all@.len() == i,
            forall|j: int| 0 <= j < i ==> #[trigger] all@[j].0@ == fields@[j].0@ && all@[j].1 == (fields@[j].3, false),
        decreases fields.len() - i,
    {
        let name = fields[i].0.clone();
        all.push((name, (fields[i].3, false)));
        i = i + 1;
    }
    assert(usage_view(all@) =~= fields@.map_values(|f: (String, ThrushType, u32, Span)| (f.0@, (f.3, false))));
    record_all(&all)
}

fn enum_fields_usage(fields: &Vec<(String, ThrushStatement)>) -> (r: Vec<(String, UsageInfo)>)
    ensures
        usage_view(r@) == enum_field_usage(fields@),
{
    let mut all: Vec<(String, UsageInfo)> = Vec::new();
    let mut i: usize = 0;
    while i < fields.len()
        invariant
            0 <= i <= fields@.len(),
            all@.len() == i,
            forall|j: int|
                0 <= j < i ==> #[trigger] all@[j].0@ == fields@[j].0@ && all@[j].1 == (spec_stmt_span(fields@[j].1), false),
        decreases fields.len() - i,
    {
        let name = fields[i].0.clone();
        all.push((name, (fields[i].1.get_span(), false)));
        i = i + 1;
    }
    assert(usage_view(all@) =~= fields@.map_values(
        |f: (String, ThrushStatement)| (f.0@, (spec_stmt_span(f.1), false)),
    ));
    record_all(&all)
}

/// Walks the statements of a program and collects a warning for each symbol that
/// was declared and never used, and the bugs it finds on the way.
pub struct Linter<'a> {
    pub stmts: &'a [ThrushStatement],
    pub current: usize,
    pub warnings: Vec<ThrushCompilerIssue>,
    pub bugs: Vec<ThrushCompilerIssue>,
    pub symbols: LinterSymbolsTable,
}

impl<'a> Linter<'a> {
    /// The statements the linter walks.
    pub open spec fn statements(&self) -> Seq<ThrushStatement> {
        self.stmts@
    }

    /// The index of the next statement to analyse.
    pub open spec fn position(&self) -> int {
        self.current as int
    }

    /// The position never passes the end of the statements.
    pub open spec fn wf(&self) -> bool {
        0 <= self.position() <= self.statements().len()
    }

    pub fn new(stmts: &'a [ThrushStatement]) -> (l: Self)
        ensures
            l.statements() == stmts@,
            l.position() == 0,
            l.wf(),
            l.warnings@.len() == 0,
            l.bugs@.len() == 0,
            l.symbols.is_empty(),
    {
        Linter { stmts, current: 0, warnings: Vec::new(), bugs: Vec::new(), symbols: LinterSymbolsTable::new() }
    }

    /// Whether every statement has been analysed.
    pub fn is_eof(&self) -> (r: bool)
        ensures
            r == (self.position() >= self.statements().len()),
    {
        self.current >= self.stmts.len()
    }

    /// The next statement to analyse.
    pub fn peek(&self) -> (r: &'a ThrushStatement)
        requires
            self.position() < self.statements().len(),
        ensures
            *r == self.statements()[self.position()],
    {
        &self.stmts[self.current]
    }

    /// Moves to the next statement, unless all have been analysed.
    pub fn advance(&mut self)
        ensures
            final(self).statements() == old(self).statements(),
            final(self).position() == if old(self).position() < old(self).statements().len() {
                old(self).position() + 1
            } else {
                old(self).position()
            },
            final(self).warnings == old(self).warnings,
            final(self).bugs == old(self).bugs,
            final(self).symbols == old(self).symbols,
    {
        if self.current < self.stmts.len() {
            self.current = self.current + 1;
        }
    }

    pub fn add_bug(&mut self, bug: ThrushCompilerIssue)
        ensures
            final(self).statements() == old(self).statements(),
            final(self).position() == old(self).position(),
            final(self).warnings == old(self).warnings,
            final(self).bugs@ == old(self).bugs@.push(bug),
            final(self).symbols == old(self).symbols,
    {
        self.bugs.push(bug);
    }

    /// Opens a scope for locals and low-level instructions.
    pub fn begin_scope(&mut self)
        ensures
            final(self).statements() == old(self).statements(),
            final(self).position() == old(self).position(),
            final(self).warnings == old(self).warnings,
            final(self).bugs == old(self).bugs,
            final(self).symbols.same_globals(&old(self).symbols),
            final(self).symbols.locals@.len() == old(self).symbols.locals@.len() + 1,
            final(self).symbols.locals@.drop_last() == old(self).symbols.locals@,
            final(self).symbols.locals@.last()@.len() == 0,
            final(self).symbols.llis@.len() == old(self).symbols.llis@.len() + 1,
            final(self).symbols.llis@.drop_last() == old(self).symbols.llis@,
            final(self).symbols.llis@.last()@.len() == 0,
    {
        self.symbols.begin_scope();
    }

    /// Closes the innermost scope, if there is one.
    pub fn end_scope(&mut self)
        ensures
            final(self).statements() == old(self).statements(),
            final(self).position() == old(self).position(),
            final(self).warnings == old(self).warnings,
            final(self).bugs == old(self).bugs,
            final(self).symbols.same_globals(&old(self).symbols),
            final(self).symbols.locals@ == if old(self).symbols.locals@.len() > 0 {
                old(self).symbols.locals@.drop_last()
            } else {
                old(self).symbols.locals@
            },
            final(self).symbols.llis@ == if old(self).symbols.llis@.len() > 0 {
                old(self).symbols.llis@.drop_last()
            } else {
                old(self).symbols.llis@
            },
    {
        self.symbols.end_scope();
    }

    /// Records every global declaration among the statements: constants,
    /// structures and their fields, enumerations and their fields, functions and
    /// assembler functions.
    pub fn init(&mut self)
        ensures
            final(self).statements() == old(self).statements(),
            final(self).position() == old(self).position(),
            final(self).warnings == old(self).warnings,
            final(self).bugs == old(self).bugs,
            initialized(old(self).symbols, final(self).symbols, old(self).statements()),
    {
        let stmts: &'a [ThrushStatement] = self.stmts;
        let mut i: usize = 0;
        while i < stmts.len()
            invariant
                0 <= i <= stmts@.len(),
                stmts@ == old(self).statements(),
                self.statements() == old(self).statements(),
                self.position() == old(self).position(),
                self.warnings == old(self).warnings,
                self.bugs == old(self).bugs,
                initialized(old(self).symbols, self.symbols, stmts@.take(i as int)),
            decreases stmts.len() - i,
        {
            assert(stmts@.take(i + 1).drop_last() =~= stmts@.take(i as int));
            assert(stmts@.take(i + 1).last() == stmts@[i as int]);
            match &stmts[i] {
                ThrushStatement::Const { name, is_public, span } => {
                    let n = name.clone();
                    self.symbols.new_constant(n, (*span, *is_public));
                },
                ThrushStatement::Struct { name, fields, is_public, span } => {
                    let converted = struct_fields_usage(fields);
                    let n = name.clone();
                    self.symbols.new_struct(n, (converted, *span, *is_public));
                },
                ThrushStatement::Enum { name, fields, span } => {
                    let converted = enum_fields_usage(fields);
                    let n = name.clone();
                    self.symbols.new_enum(n, (converted, *span, false));
                },
                ThrushStatement::Function { name, is_public, span } => {
                    let n = name.clone();
                    self.symbols.new_function(n, (*span, *is_public));
                },
                ThrushStatement::AssemblerFunction { name, is_public, span } => {
                    let n = name.clone();
                    self.symbols.new_asm_function(n, (*span, *is_public));
                },
                _ => {},
            }
            proof {
                let next = stmts@.take(i + 1);
                assert(usage_view(self.symbols.constants@) == usage_view(old(self).symbols.constants@)
                    + declared_constants(next));
                assert(usage_view(self.symbols.functions@) == usage_view(old(self).symbols.functions@)
                    + declared_functions(next));
                assert(usage_view(self.symbols.asm_functions@) == usage_view(old(self).symbols.asm_functions@)
                    + declared_asm_functions(next));
                assert(group_view(self.symbols.enums@) == group_view(old(self).symbols.enums@) + declared_enums(next));
                assert(group_view(self.symbols.structs@) == group_view(old(self).symbols.structs@) + declared_structs(
                    next,
                ));
            }
            i = i + 1;
        }
        assert(stmts@.take(stmts@.len() as int) =~= stmts@);
    }

    /// Reports the global symbols never used.
    pub fn generate_warnings(&mut self)
        ensures
            final(self).statements() == old(self).statements(),
            final(self).position() == old(self).position(),
            final(self).bugs == old(self).bugs,
            final(self).symbols == old(self).symbols,
            old(self).warnings@.len() <= final(self).warnings@.len(),
            final(self).warnings@.take(old(self).warnings@.len() as int) == old(self).warnings@,
            issues_model(final(self).warnings@) == issues_model(old(self).warnings@) + global_warnings(
                old(self).symbols,
            ),
    {
        warn_unused(&mut self.warnings, &self.symbols.constants, "Constant not used");
        warn_unused(&mut self.warnings, &self.symbols.functions, "Function not used");
        warn_unused(&mut self.warnings, &self.symbols.asm_functions, "Assembler function not used");
        warn_grouped(&mut self.warnings, &self.symbols.enums, "Enum not used", "Enum field not used");
        warn_grouped(&mut self.warnings, &self.symbols.structs, "Structure not used", "Structure field not used");
        assert(issues_model(self.warnings@) =~= issues_model(old(self).warnings@) + global_warnings(
            old(self).symbols,
        ));
    }

    /// Reports the parameters never used, then the locals and the low-level
    /// instructions of the innermost scope never used.
    pub fn generate_scoped_warnings(&mut self)
        ensures
            final(self).statements() == old(self).statements(),
            final(self).position() == old(self).position(),
            final(self).bugs == old(self).bugs,
            final(self).symbols == old(self).symbols,
            old(self).warnings@.len() <= final(self).warnings@.len(),
            final(self).warnings@.take(old(self).warnings@.len() as int) == old(self).warnings@,
            issues_model(final(self).warnings@) == issues_model(old(self).warnings@) + scoped_warnings(
                old(self).symbols,
            ),
    {
        warn_tracked(&mut self.warnings, &self.symbols.parameters, "Parameter not used", "Mutable parameter not used");
        let n: usize = self.symbols.locals.len();
        if n > 0 {
            warn_tracked(&mut self.warnings, &self.symbols.locals[n - 1], "Local not used", "Mutable local not used");
        }
        let m: usize = self.symbols.llis.len();
        if m > 0 {
            warn_unused(&mut self.warnings, &self.symbols.llis[m - 1], "Low Level Instruction not used");
        }
        assert(issues_model(self.warnings@) =~= issues_model(old(self).warnings@) + scoped_warnings(
            old(self).symbols,
        ));
    }

    /// Analyses one statement: a block opens a scope, has each of its statements
    /// analysed, reports what its scope left unused and closes the scope.
    pub fn analyze_stmt(&mut self, stmt: &ThrushStatement)
        ensures
            final(self).statements() == old(self).statements(),
            final(self).position() == old(self).position(),
            final(self).bugs == old(self).bugs,
            final(self).symbols.same_globals(&old(self).symbols),
            final(self).symbols.locals@ == old(self).symbols.locals@,
            final(self).symbols.llis@ == old(self).symbols.llis@,
            old(self).warnings@.len() <= final(self).warnings@.len(),
            final(self).warnings@.take(old(self).warnings@.len() as int) == old(self).warnings@,
            issues_model(final(self).warnings@) == issues_model(old(self).warnings@) + stmt_warnings(
                old(self).symbols.parameters@,
                *stmt,
            ),
        decreases stmt,
    {
        match stmt {
            ThrushStatement::Block { stmts, .. } => {
                self.begin_scope();
                let ghost opened = self.symbols;
                let mut i: usize = 0;
                while i < stmts.len()
                    invariant
                        0 <= i <= stmts@.len(),
                        *stmt is Block,
                        *stmts == stmt->stmts,
                        self.statements() == old(self).statements(),
                        self.position() == old(self).position(),
                        self.bugs == old(self).bugs,
                        self.symbols.same_globals(&old(self).symbols),
                        self.symbols.locals@ == opened.locals@,
                        self.symbols.llis@ == opened.llis@,
                        opened.locals@.len() == old(self).symbols.locals@.len() + 1,
                        opened.locals@.drop_last() == old(self).symbols.locals@,
                        opened.locals@.last()@.len() == 0,
                        opened.llis@.len() == old(self).symbols.llis@.len() + 1,
                        opened.llis@.drop_last() == old(self).symbols.llis@,
                        opened.llis@.last()@.len() == 0,
                        old(self).warnings@.len() <= self.warnings@.len(),
                        self.warnings@.take(old(self).warnings@.len() as int) == old(self).warnings@,
                        issues_model(self.warnings@) == issues_model(old(self).warnings@) + stmts_warnings(
                            old(self).symbols.parameters@,
                            stmts@.take(i as int),
                        ),
                    decreases stmts.len() - i,
                {
                    assert(stmts@.take(i + 1).drop_last() =~= stmts@.take(i as int));
                    assert(stmts@.take(i + 1).last() == stmts@[i as int]);
                    proof {
                        assert(*stmts == stmt->stmts);
                        assert(decreases_to!(*stmt => stmt->stmts));
                        vstd::std_specs::vec::axiom_vec_index_decreases(*stmts, i as int);
                        assert(decreases_to!(*stmts => stmts[i as int]));
                        assert(decreases_to!(*stmt => stmts[i as int]));
                    }
                    let ghost before = self.warnings@;
                    self.analyze_stmt(&stmts[i]);
                    proof {
                        lemma_prefix_of_prefix(old(self).warnings@, before, self.warnings@);
                    }
                    assert(issues_model(self.warnings@) =~= issues_model(old(self).warnings@) + stmts_warnings(
                        old(self).symbols.parameters@,
                        stmts@.take(i + 1),
                    ));
                    i = i + 1;
                }
                assert(stmts@.take(stmts@.len() as int) =~= stmts@);
                let ghost before_scope = self.warnings@;
                self.generate_scoped_warnings();
                proof {
                    lemma_prefix_of_prefix(old(self).warnings@, before_scope, self.warnings@);
                }
                assert(tracked_warnings(self.symbols.locals@.last()@, "Local not used"@, "Mutable local not used"@)
                    =~= Seq::empty());
                assert(unused_warnings(self.symbols.llis@.last()@, "Low Level Instruction not used"@)
                    =~= Seq::empty());
                self.end_scope();
                assert(self.symbols.locals@ =~= old(self).symbols.locals@);
                assert(self.symbols.llis@ =~= old(self).symbols.llis@);
                assert(issues_model(self.warnings@) =~= issues_model(old(self).warnings@) + stmt_warnings(
                    old(self).symbols.parameters@,
                    *stmt,
                ));
            },
            _ => {
                assert(issues_model(self.warnings@) =~= issues_model(old(self).warnings@) + stmt_warnings(
                    old(self).symbols.parameters@,
                    *stmt,
                ));
            },
        }
    }

    /// Records the global declarations, analyses every statement from the current
    /// one to the last, then reports the global symbols never used. The bugs and
    /// warnings collected stay in `bugs` and `warnings`, in the order found.
    pub fn check(&mut self)
        requires
            old(self).wf(),
        ensures
            final(self).statements() == old(self).statements(),
            final(self).position() == old(self).statements().len(),
            final(self).bugs == old(self).bugs,
            initialized(old(self).symbols, final(self).symbols, old(self).statements()),
            old(self).warnings@.len() <= final(self).warnings@.len(),
            final(self).warnings@.take(old(self).warnings@.len() as int) == old(self).warnings@,
            issues_model(final(self).warnings@) == issues_model(old(self).warnings@) + stmts_warnings(
                old(self).symbols.parameters@,
                old(self).statements().subrange(old(self).position(), old(self).statements().len() as int),
            ) + global_warnings(final(self).symbols),
    {
        self.init();
        let ghost after_init = self.symbols;
        let ghost start = self.position();
        let ghost w0 = issues_model(self.warnings@);
        while !self.is_eof()
            invariant
                self.statements() == old(self).statements(),
                start == old(self).position(),
                start <= self.position() <= self.statements().len(),
                self.bugs == old(self).bugs,
                self.symbols.same_globals(&after_init),
                self.symbols.locals@ == after_init.locals@,
                self.symbols.llis@ == after_init.llis@,
                after_init.parameters == old(self).symbols.parameters,
                w0 == issues_model(old(self).warnings@),
                old(self).warnings@.len() <= self.warnings@.len(),
                self.warnings@.take(old(self).warnings@.len() as int) == old(self).warnings@,
                issues_model(self.warnings@) == w0 + stmts_warnings(
                    old(self).symbols.parameters@,
                    self.statements().subrange(start, self.position()),
                ),
            decreases self.statements().len() - self.position(),
        {
            let stmt = self.peek();
            let ghost p = self.position();
            assert(self.statements().subrange(start, p + 1).drop_last() =~= self.statements().subrange(start, p));
            assert(self.statements().subrange(start, p + 1).last() == self.statements()[p]);
            let ghost before = self.warnings@;
            self.analyze_stmt(stmt);
            proof {
                lemma_prefix_of_prefix(old(self).warnings@, before, self.warnings@);
            }
            self.advance();
        }
        let ghost before_globals = self.warnings@;
        self.generate_warnings();
        proof {
            lemma_prefix_of_prefix(old(self).warnings@, before_globals, self.warnings@);
        }
    }
}

/// The symbols among `entries` that were never used, in order.
pub open spec fn never_used(entries: Seq<(String, UsageInfo)>) -> Seq<(String, UsageInfo)> {
    entries.filter(|e: (String, UsageInfo)| !e.1.1)
}

/// The warnings about a list of symbols are one per symbol never used, in the
/// order the symbols were declared, and none about a used one.
pub proof fn lemma_one_warning_per_unused(entries: Seq<(String, UsageInfo)>, title: Seq<char>)
    ensures
        unused_warnings(entries, title) == never_used(entries).map_values(
            |e: (String, UsageInfo)| unused(title, e.0@, e.1.0),
        ),
    decreases entries.len(),
{
    reveal(Seq::filter);
    if entries.len() > 0 {
        lemma_one_warning_per_unused(entries.drop_last(), title);
        let f = |e: (String, UsageInfo)| unused(title, e.0@, e.1.0);
        let before = never_used(entries.drop_last());
        if !entries.last().1.1 {
            assert(never_used(entries) == before.push(entries.last()));
            assert(before.push(entries.last()).map_values(f) =~= before.map_values(f).push(f(entries.last())));
        } else {
            assert(never_used(entries) == before);
        }
        assert(unused_warnings(entries, title) =~= never_used(entries).map_values(f));
    } else {
        assert(never_used(entries) =~= Seq::empty());
    }
}

/// How many of the warnings `ws` carry the title `title`.
pub open spec fn titled(ws: Seq<IssueModel>, title: Seq<char>) -> nat {
    ws.filter(title_is(title)).len()
}

/// Whether a warning carries the title `title`.
pub open spec fn title_is(title: Seq<char>) -> spec_fn(IssueModel) -> bool {
    |w: IssueModel| w.1 == title
}

/// The scoped symbols whose use was never seen.
pub open spec fn unused_entries(entries: Seq<(String, TrackedInfo)>) -> Seq<(String, TrackedInfo)> {
    entries.filter(|e: (String, TrackedInfo)| !e.1.1)
}

/// The scoped symbols whose mutability was never used, whatever their use.
pub open spec fn mutability_unused_entries(entries: Seq<(String, TrackedInfo)>) -> Seq<(String, TrackedInfo)> {
    entries.filter(|e: (String, TrackedInfo)| !e.1.2)
}

proof fn lemma_titled_concat(a: Seq<IssueModel>, b: Seq<IssueModel>, title: Seq<char>)
    ensures
        titled(a + b, title) == titled(a, title) + titled(b, title),
{
    Seq::filter_distributes_over_add(a, b, title_is(title));
}

proof fn lemma_titled_single(w: IssueModel, title: Seq<char>)
    ensures
        titled(seq![w], title) == if w.1 == title { 1nat } else { 0nat },
{
    reveal(Seq::filter);
    let p = title_is(title);
    let one: Seq<IssueModel> = seq![w];
    assert(one.drop_last() =~= Seq::<IssueModel>::empty());
    assert(one.last() == w);
    assert(Seq::<IssueModel>::empty().filter(p).len() == 0);
    assert(one.filter(p) == if p(w) {
        one.drop_last().filter(p).push(w)
    } else {
        one.drop_last().filter(p)
    });
}

proof fn lemma_titled_empty(title: Seq<char>)
    ensures
        titled(Seq::<IssueModel>::empty(), title) == 0,
{
    reveal(Seq::filter);
}

/// Each scoped symbol is judged on two counts, apart from each other: there is one
/// warning under `title` per symbol never used, and one under `mutable_title` per
/// symbol whose mutability was never used, whether or not it was used; under any
/// other title there is none.
pub proof fn lemma_scoped_warning_counts(
    entries: Seq<(String, TrackedInfo)>,
    title: Seq<char>,
    mutable_title: Seq<char>,
    other: Seq<char>,
)
    requires
        title != mutable_title,
        other != title,
        other != mutable_title,
    ensures
        titled(tracked_warnings(entries, title, mutable_title), title) == unused_entries(entries).len(),
        titled(tracked_warnings(entries, title, mutable_title), mutable_title) == mutability_unused_entries(
            entries,
        ).len(),
        titled(tracked_warnings(entries, title, mutable_title), other) == 0,
    decreases entries.len(),
{
    reveal(Seq::filter);
    if entries.len() == 0 {
        lemma_titled_empty(title);
        lemma_titled_empty(mutable_title);
        lemma_titled_empty(other);
    } else {
        let e = entries.last();
        lemma_scoped_warning_counts(entries.drop_last(), title, mutable_title, other);
        let rest = tracked_warnings(entries.drop_last(), title, mutable_title);
        let first: Seq<IssueModel> = if !e.1.1 {
            seq![unused(title, e.0@, e.1.0)]
        } else {
            Seq::empty()
        };
        let second: Seq<IssueModel> = if !e.1.2 {
            seq![unused(mutable_title, e.0@, e.1.0)]
        } else {
            Seq::empty()
        };
        assert(tracked_warnings(entries, title, mutable_title) == rest + first + second);
        lemma_titled_concat(rest + first, second, title);
        lemma_titled_concat(rest, first, title);
        lemma_titled_concat(rest + first, second, mutable_title);
        lemma_titled_concat(rest, first, mutable_title);
        lemma_titled_concat(rest + first, second, other);
        lemma_titled_concat(rest, first, other);
        lemma_titled_empty(title);
        lemma_titled_empty(mutable_title);
        lemma_titled_empty(other);
        lemma_titled_single(unused(title, e.0@, e.1.0), title);
        lemma_titled_single(unused(title, e.0@, e.1.0), mutable_title);
        lemma_titled_single(unused(title, e.0@, e.1.0), other);
        lemma_titled_single(unused(mutable_title, e.0@, e.1.0), title);
        lemma_titled_single(unused(mutable_title, e.0@, e.1.0), mutable_title);
        lemma_titled_single(unused(mutable_title, e.0@, e.1.0), other);
    }
}

/// Warnings about plain symbols carry only their own title.
proof fn lemma_unused_titles(entries: Seq<(String, UsageInfo)>, title: Seq<char>, other: Seq<char>)
    requires
        other != title,
    ensures
        titled(unused_warnings(entries, title), other) == 0,
    decreases entries.len(),
{
    lemma_titled_empty(other);
    if entries.len() > 0 {
        let e = entries.last();
        lemma_unused_titles(entries.drop_last(), title, other);
        let last: Seq<IssueModel> = if !e.1.1 {
            seq![unused(title, e.0@, e.1.0)]
        } else {
            Seq::empty()
        };
        lemma_titled_concat(unused_warnings(entries.drop_last(), title), last, other);
        lemma_titled_single(unused(title, e.0@, e.1.0), other);
    }
}

/// At the end of a block, each parameter, and each local of the innermost scope,
/// whose mutability was never used is reported once as such, whether or not it
/// was used; and each one never used is reported once as unused.
pub proof fn lemma_scope_report_counts(t: LinterSymbolsTable)
    ensures
        titled(scoped_warnings(t), "Parameter not used"@) == unused_entries(t.parameters@).len(),
        titled(scoped_warnings(t), "Mutable parameter not used"@) == mutability_unused_entries(
            t.parameters@,
        ).len(),
        titled(scoped_warnings(t), "Local not used"@) == if t.locals@.len() > 0 {
            unused_entries(t.locals@.last()@).len()
        } else {
            0
        },
        titled(scoped_warnings(t), "Mutable local not used"@) == if t.locals@.len() > 0 {
            mutability_unused_entries(t.locals@.last()@).len()
        } else {
            0
        },
{
    reveal_strlit("Parameter not used");
    reveal_strlit("Mutable parameter not used");
    reveal_strlit("Local not used");
    reveal_strlit("Mutable local not used");
    reveal_strlit("Low Level Instruction not used");
    let p = "Parameter not used"@;
    let mp = "Mutable parameter not used"@;
    let l = "Local not used"@;
    let ml = "Mutable local not used"@;
    let lli = "Low Level Instruction not used"@;
    assert(p.len() != mp.len() && p.len() != l.len() && p.len() != ml.len() && p.len() != lli.len());
    assert(mp.len() != l.len() && mp.len() != ml.len() && mp.len() != lli.len());
    assert(l.len() != ml.len() && l.len() != lli.len() && ml.len() != lli.len());
    let params = tracked_warnings(t.parameters@, p, mp);
    let locals: Seq<IssueModel> = if t.locals@.len() > 0 {
        tracked_warnings(t.locals@.last()@, l, ml)
    } else {
        Seq::empty()
    };
    let llis: Seq<IssueModel> = if t.llis@.len() > 0 {
        unused_warnings(t.llis@.last()@, lli)
    } else {
        Seq::empty()
    };
    assert(scoped_warnings(t) == params + locals + llis);
    let titles = seq![p, mp, l, ml];
    assert forall|k: int| 0 <= k < 4 implies {
        let x = #[trigger] titles[k];
        titled(scoped_warnings(t), x) == titled(params, x) + titled(locals, x) + titled(llis, x)
    } by {
        let x = titles[k];
        lemma_titled_concat(params + locals, llis, x);
        lemma_titled_concat(params, locals, x);
    }
    assert(titles[0] == p && titles[1] == mp && titles[2] == l && titles[3] == ml);
    lemma_scoped_warning_counts(t.parameters@, p, mp, l);
    lemma_scoped_warning_counts(t.parameters@, p, mp, ml);
    lemma_titled_empty(p);
    lemma_titled_empty(mp);
    lemma_titled_empty(l);
    lemma_titled_empty(ml);
    if t.locals@.len() > 0 {
        lemma_scoped_warning_counts(t.locals@.last()@, l, ml, p);
        lemma_scoped_warning_counts(t.locals@.last()@, l, ml, mp);
    }
    if t.llis@.len() > 0 {
        lemma_unused_titles(t.llis@.last()@, lli, p);
        lemma_unused_titles(t.llis@.last()@, lli, mp);
        lemma_unused_titles(t.llis@.last()@, lli, l);
        lemma_unused_titles(t.llis@.last()@, lli, ml);
    }
}

} // verus!
