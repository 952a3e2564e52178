use thrushc::issue::{Span, ThrushCompilerIssue};
use thrushc::linter::{Linter, LinterSymbolsTable};
use thrushc::parser::ThrushStatement;
use thrushc::types::ThrushType;

fn at(line: usize) -> Span {
    Span { line, start: 0, end: 1 }
}

fn warning_texts(warnings: &[ThrushCompilerIssue]) -> Vec<(String, String, usize)> {
    warnings
        .iter()
        .map(|w| match w {
            ThrushCompilerIssue::Warning(title, desc, span) => (title.clone(), desc.clone(), span.line),
            ThrushCompilerIssue::Error(title, desc, _, span) => (title.clone(), desc.clone(), span.line),
        })
        .collect()
}

#[test]
fn private_declarations_are_reported_unused() {
    let stmts = vec![
        ThrushStatement::Const { name: String::from("LIMIT"), is_public: false, span: at(1) },
        ThrushStatement::Const { name: String::from("SHARED"), is_public: true, span: at(2) },
        ThrushStatement::Function { name: String::from("helper"), is_public: false, span: at(3) },
        ThrushStatement::AssemblerFunction { name: String::from("raw"), is_public: false, span: at(4) },
        ThrushStatement::Struct {
            name: String::from("Point"),
            fields: vec![(String::from("x"), ThrushType::S32, 0, at(6))],
            is_public: false,
            span: at(5),
        },
        ThrushStatement::Enum {
            name: String::from("Color"),
            fields: vec![(
                String::from("Red"),
                ThrushStatement::Integer { kind: ThrushType::U8, value: 0, signed: false, span: at(8) },
            )],
            span: at(7),
        },
    ];
    let mut linter = Linter::new(&stmts);
    linter.check();
    assert!(linter.bugs.is_empty());
    assert_eq!(
        warning_texts(&linter.warnings),
        vec![
            (String::from("Constant not used"), String::from("'LIMIT' not used."), 1),
            (String::from("Function not used"), String::from("'helper' not used."), 3),
            (String::from("Assembler function not used"), String::from("'raw' not used."), 4),
            (String::from("Enum not used"), String::from("'Color' not used."), 7),
            (String::from("Enum field not used"), String::from("'Red' not used."), 8),
            (String::from("Structure not used"), String::from("'Point' not used."), 5),
            (String::from("Structure field not used"), String::from("'x' not used."), 6),
        ]
    );
}

#[test]
fn public_declarations_are_not_reported() {
    let stmts = vec![
        ThrushStatement::Const { name: String::from("A"), is_public: true, span: at(1) },
        ThrushStatement::Function { name: String::from("main"), is_public: true, span: at(2) },
    ];
    let mut linter = Linter::new(&stmts);
    linter.check();
    assert!(linter.warnings.is_empty());
}

#[test]
fn blocks_report_unused_parameters() {
    let stmts = vec![ThrushStatement::Block {
        stmts: vec![ThrushStatement::Block { stmts: vec![], span: at(2) }],
        span: at(1),
    }];
    let mut linter = Linter::new(&stmts);
    linter.symbols.parameters.push((String::from("n"), (at(9), false, true)));
    linter.check();
    assert_eq!(
        warning_texts(&linter.warnings),
        vec![
            (String::from("Parameter not used"), String::from("'n' not used."), 9),
            (String::from("Parameter not used"), String::from("'n' not used."), 9),
        ]
    );
    assert!(linter.symbols.locals.is_empty());
    assert!(linter.is_eof());
}

#[test]
fn scoped_warnings_cover_innermost_locals() {
    let stmts: Vec<ThrushStatement> = vec![];
    let mut linter = Linter::new(&stmts);
    linter.begin_scope();
    linter.symbols.locals[0].push((String::from("tmp"), (at(3), false, false)));
    linter.symbols.llis[0].push((String::from("ll"), (at(4), false)));
    linter.generate_scoped_warnings();
    assert_eq!(
        warning_texts(&linter.warnings),
        vec![
            (String::from("Local not used"), String::from("'tmp' not used."), 3),
            (String::from("Mutable local not used"), String::from("'tmp' not used."), 3),
            (String::from("Low Level Instruction not used"), String::from("'ll' not used."), 4),
        ]
    );
    linter.end_scope();
    assert!(linter.symbols.locals.is_empty());
}

#[test]
fn linter_walks_statements_in_order() {
    let stmts = vec![ThrushStatement::Null { span: at(1) }, ThrushStatement::Null { span: at(2) }];
    let mut linter = Linter::new(&stmts);
    assert!(!linter.is_eof());
    assert_eq!(linter.peek().get_span(), at(1));
    linter.advance();
    assert_eq!(linter.peek().get_span(), at(2));
    linter.advance();
    assert!(linter.is_eof());
    linter.advance();
    assert!(linter.is_eof());
    linter.add_bug(ThrushCompilerIssue::Warning(String::from("t"), String::from("d"), at(1)));
    assert_eq!(linter.bugs.len(), 1);
}

#[test]
fn symbols_table_records_in_order() {
    let mut table = LinterSymbolsTable::new();
    table.new_constant(String::from("A"), (at(1), false));
    table.new_constant(String::from("B"), (at(2), true));
    table.new_function(String::from("f"), (at(3), true));
    table.new_enum(String::from("E"), (vec![], at(4), false));
    assert_eq!(table.constants.len(), 2);
    assert_eq!(table.constants[1].0, "B");
    assert_eq!(table.functions[0].1, (at(3), true));
    assert_eq!(table.enums[0].0, "E");
    table.begin_scope();
    assert_eq!(table.locals.len(), 1);
    assert_eq!(table.llis.len(), 1);
    table.end_scope();
    table.end_scope();
    assert!(table.locals.is_empty());
}

#[test]
fn repeated_field_names_are_reported_once() {
    let stmts = vec![ThrushStatement::Struct {
        name: String::from("Pair"),
        fields: vec![
            (String::from("a"), ThrushType::S32, 0, at(2)),
            (String::from("b"), ThrushType::S32, 1, at(3)),
            (String::from("a"), ThrushType::S32, 2, at(4)),
        ],
        is_public: true,
        span: at(1),
    }];
    let mut linter = Linter::new(&stmts);
    linter.check();
    assert_eq!(
        warning_texts(&linter.warnings),
        vec![
            (String::from("Structure field not used"), String::from("'a' not used."), 4),
            (String::from("Structure field not used"), String::from("'b' not used."), 3),
        ]
    );
    assert!(linter
        .warnings
        .iter()
        .all(|w| matches!(w, ThrushCompilerIssue::Warning(..))));
}
