use std::sync::Arc;
use thrushc::codegen::LLVMAttribute;
use thrushc::impls::{FoundObjectEither, FoundObjectExtensions, StructureExtensions, Struct, FoundObjectId};
use thrushc::issue::{Span, ThrushCompilerError, ThrushCompilerIssue, ThrushError};
use thrushc::logging::{log_plan, LogPiece, LoggingType, OutputIn, Style, TermColor};
use thrushc::objects::ParserObjects;
use thrushc::options::{CompilerOptions, Linking, Opt, OptimizationLevel};
use thrushc::parser::{
    build_enum, build_reference, EnumFieldSyntax, EnumSyntax, FoundSymbol, ReferenceIdentificator,
    ThrushStatement,
};
use thrushc::position::LLVMCodeGenContextPosition;
use thrushc::preprocessor::Import;
use thrushc::structs::{decompose_struct_property, StructDeclaration, SymbolsTable};
use thrushc::tokens::{Token, TokenKind, Type};
use thrushc::typecheck::{type_display, validate_unary};
use thrushc::types::{generate_bindings, Binding, ThrushType};

fn at(line: usize) -> Span {
    Span { line, start: 2, end: 5 }
}

#[test]
fn precompute_prefers_widest_signed() {
    assert!(matches!(ThrushType::U64.precompute_type(&ThrushType::S8), ThrushType::S8));
    assert!(matches!(ThrushType::S16.precompute_type(&ThrushType::S32), ThrushType::S32));
    assert!(matches!(ThrushType::U8.precompute_type(&ThrushType::U32), ThrushType::U32));
    assert!(matches!(ThrushType::F32.precompute_type(&ThrushType::F64), ThrushType::F64));
}

#[test]
fn narrowing_cast_maps_unsigned_to_signed() {
    assert!(matches!(ThrushType::U16.narrowing_cast(), ThrushType::S16));
    assert!(matches!(ThrushType::S64.narrowing_cast(), ThrushType::S64));
    assert!(matches!(ThrushType::Bool.narrowing_cast(), ThrushType::Bool));
}

#[test]
fn type_predicates() {
    assert!(ThrushType::Char.is_integer_type());
    assert!(!ThrushType::Char.is_signed_integer_type());
    assert!(ThrushType::S8.is_signed_integer_type());
    let mutable = ThrushType::Mut(Arc::new(ThrushType::F32));
    assert!(mutable.is_mut_numeric_type());
    let mut_ptr = ThrushType::Mut(Arc::new(ThrushType::Ptr(None)));
    assert!(mut_ptr.is_mut_ptr_type());
    assert!(!mutable.is_mut_ptr_type());
    assert!(ThrushType::Void.is_void_type());
    assert!(ThrushType::Address.is_address_type());
}

#[test]
fn structure_types() {
    let node = ThrushType::create_structure_type(
        String::from("Node"),
        &[ThrushType::S32, ThrushType::Me(None)],
    );
    assert!(node.is_struct_type());
    assert!(node.is_recursive_type());
    assert!(node.is_heap_allocated(8));
    let point = ThrushType::create_structure_type(String::from("Point"), &[ThrushType::S32]);
    assert!(!point.is_recursive_type());
    assert!(!point.is_heap_allocated(8));
    assert!(point.is_heap_allocated(128));
    let (name, fields) = point.into_structure_type();
    assert_eq!(name, "Point");
    assert_eq!(fields.len(), 1);
}

#[test]
fn type_equality() {
    let a = ThrushType::Ptr(Some(Arc::new(ThrushType::S32)));
    let b = ThrushType::Ptr(Some(Arc::new(ThrushType::S32)));
    let c = ThrushType::Ptr(Some(Arc::new(ThrushType::U32)));
    assert!(a == b);
    assert!(a != c);
    assert!(a.equals(&b));
    assert!(ThrushType::S8 != ThrushType::U8);
    let copy = c.duplicate();
    assert!(copy == c);
}

#[test]
fn bindings_keep_order() {
    let bindings = generate_bindings(vec![
        Binding { name: String::from("new"), kind: ThrushType::Void, parameters: vec![ThrushType::S32] },
        Binding { name: String::from("get"), kind: ThrushType::S32, parameters: vec![] },
    ]);
    assert_eq!(bindings.len(), 2);
    assert_eq!(bindings[0].0, "new");
    assert_eq!(bindings[1].0, "get");
    assert_eq!(bindings[0].2.len(), 1);
}

#[test]
fn type_names() {
    let t = ThrushType::Mut(Arc::new(ThrushType::Ptr(Some(Arc::new(ThrushType::U8)))));
    assert_eq!(type_display(&t), "mut ptr[u8]");
    assert_eq!(type_display(&ThrushType::Address), "addr");
}

#[test]
fn unary_validation() {
    assert!(validate_unary(&TokenKind::Minus, &ThrushType::S32, at(1)).is_ok());
    assert!(validate_unary(&TokenKind::Bang, &ThrushType::Bool, at(1)).is_ok());
    assert!(validate_unary(&TokenKind::Star, &ThrushType::Str, at(1)).is_ok());
    match validate_unary(&TokenKind::Bang, &ThrushType::S32, at(3)) {
        Err(ThrushCompilerIssue::Error(title, desc, note, span)) => {
            assert_eq!(title, "Mismatched Types");
            assert_eq!(desc, "Logical (!s32) isn't allowed.");
            assert!(note.is_none());
            assert_eq!(span, at(3));
        }
        _ => panic!("expected an error"),
    }
    match validate_unary(&TokenKind::PlusPlus, &ThrushType::Str, at(4)) {
        Err(ThrushCompilerIssue::Error(_, desc, _, _)) => {
            assert_eq!(desc, "Arithmetic '++' with 'str' isn't allowed.");
        }
        _ => panic!("expected an error"),
    }
}

#[test]
fn references_to_locals_take_postfix_steps() {
    let (stmt, consumed) = build_reference(
        FoundSymbol::Local(ThrushType::S32, true),
        "count",
        at(1),
        TokenKind::PlusPlus,
        at(2),
    );
    assert!(consumed);
    match stmt {
        ThrushStatement::UnaryOp { operator, expression, is_pre, span, .. } => {
            assert_eq!(operator, TokenKind::PlusPlus);
            assert!(!is_pre);
            assert_eq!(span, at(2));
            match *expression {
                ThrushStatement::Reference { name, identificator, is_mutable, is_allocated, .. } => {
                    assert_eq!(name, "count");
                    assert_eq!(identificator, ReferenceIdentificator::Local);
                    assert!(is_mutable);
                    assert!(is_allocated);
                }
                _ => panic!("expected a reference"),
            }
        }
        _ => panic!("expected a unary operation"),
    }
}

#[test]
fn references_to_parameters() {
    let (stmt, consumed) = build_reference(
        FoundSymbol::Parameter(ThrushType::S32, false),
        "n",
        at(1),
        TokenKind::PlusPlus,
        at(2),
    );
    assert!(!consumed);
    match stmt {
        ThrushStatement::Reference { identificator, is_allocated, .. } => {
            assert_eq!(identificator, ReferenceIdentificator::FunctionParameter);
            assert!(!is_allocated);
        }
        _ => panic!("expected a reference"),
    }
}

fn field(name: &str, kind: ThrushType, value: Option<ThrushStatement>) -> EnumFieldSyntax {
    EnumFieldSyntax { name: String::from(name), span: at(4), kind, value }
}

#[test]
fn enums_number_fields_without_values() {
    let syntax = EnumSyntax {
        keyword_span: at(1),
        name: String::from("Level"),
        span: at(2),
        attributes: vec![],
        fields: vec![
            field("Low", ThrushType::U8, None),
            field(
                "Mid",
                ThrushType::U8,
                Some(ThrushStatement::Integer { kind: ThrushType::U8, value: 10, signed: false, span: at(5) }),
            ),
            field("High", ThrushType::U8, None),
        ],
    };
    let mut declared = Vec::new();
    match build_enum(syntax, true, false, &mut declared) {
        Ok(ThrushStatement::Enum { name, fields, .. }) => {
            assert_eq!(name, "Level");
            assert_eq!(fields.len(), 3);
            assert!(matches!(fields[0].1, ThrushStatement::Integer { value: 0, .. }));
            assert!(matches!(fields[1].1, ThrushStatement::Integer { value: 10, .. }));
            assert!(matches!(fields[2].1, ThrushStatement::Integer { value: 1, .. }));
        }
        _ => panic!("expected an enum"),
    }
    assert!(declared.is_empty());
}

#[test]
fn enums_outside_global_scope_are_refused() {
    let syntax = EnumSyntax { keyword_span: at(7), name: String::from("E"), span: at(8), attributes: vec![], fields: vec![] };
    let mut declared = Vec::new();
    match build_enum(syntax, false, false, &mut declared) {
        Err(ThrushCompilerIssue::Error(title, desc, _, span)) => {
            assert_eq!(title, "Syntax error");
            assert_eq!(desc, "Enums are only defined globally.");
            assert_eq!(span, at(7));
        }
        _ => panic!("expected an error"),
    }
}

#[test]
fn enums_with_non_numeric_fields_are_refused() {
    let syntax = EnumSyntax {
        keyword_span: at(1),
        name: String::from("E"),
        span: at(2),
        attributes: vec![],
        fields: vec![field("S", ThrushType::Str, None)],
    };
    let mut declared = Vec::new();
    match build_enum(syntax, true, false, &mut declared) {
        Err(ThrushCompilerIssue::Error(_, desc, _, _)) => {
            assert_eq!(desc, "Expected integer, boolean, char or floating-point types.");
        }
        _ => panic!("expected an error"),
    }
}

#[test]
fn enums_declared_forward() {
    let syntax = EnumSyntax {
        keyword_span: at(1),
        name: String::from("Flag"),
        span: at(2),
        attributes: vec![LLVMAttribute::Public],
        fields: vec![field("On", ThrushType::Bool, None)],
    };
    let mut declared = Vec::new();
    let r = build_enum(syntax, true, true, &mut declared);
    assert!(matches!(r, Ok(ThrushStatement::Null { .. })));
    assert_eq!(declared.len(), 1);
    assert_eq!(declared[0].0, "Flag");
    assert!(matches!(declared[0].1.0[0].1, ThrushStatement::Boolean { value: 0, .. }));
    assert!(matches!(declared[0].1.1[..], [LLVMAttribute::Public]));
    assert_eq!(declared[0].2, at(2));
}

fn table() -> SymbolsTable {
    SymbolsTable {
        structs: vec![
            StructDeclaration {
                name: String::from("Inner"),
                fields: vec![(String::from("v"), ThrushType::U8, 0)],
            },
            StructDeclaration {
                name: String::from("Outer"),
                fields: vec![
                    (String::from("a"), ThrushType::S32, 0),
                    (
                        String::from("inner"),
                        ThrushType::create_structure_type(String::from("Inner"), &[ThrushType::U8]),
                        1,
                    ),
                ],
            },
        ],
    }
}

#[test]
fn struct_lookup() {
    let t = table();
    assert_eq!(t.get_struct("Inner", at(1)).map(|d| d.fields.len()).ok(), Some(1));
    match t.get_struct("Missing", at(2)) {
        Err(ThrushCompilerIssue::Error(title, desc, _, span)) => {
            assert_eq!(title, "Structure not found");
            assert_eq!(desc, "'Missing' structure not defined.");
            assert_eq!(span, at(2));
        }
        _ => panic!("expected an error"),
    }
}

#[test]
fn property_chains_resolve_through_structures() {
    let t = table();
    let outer = ThrushType::create_structure_type(String::from("Outer"), &[]);
    match decompose_struct_property(0, vec!["inner", "v"], outer, &t, at(1)) {
        Ok((kind, indices)) => {
            assert!(matches!(kind, ThrushType::U8));
            assert_eq!(indices.len(), 2);
            assert_eq!(indices[0].1, 1);
            assert_eq!(indices[1].1, 0);
        }
        Err(_) => panic!("expected the chain to resolve"),
    }
    let outer = ThrushType::create_structure_type(String::from("Outer"), &[]);
    assert!(decompose_struct_property(0, vec!["nothing"], outer, &t, at(1)).is_err());
}

#[test]
fn parser_objects_find_innermost_locals() {
    let mut objects = ParserObjects::new(ahash::AHashMap::new());
    objects.insert_new_local(0, "x", (Type::S32, false, false, false, 0, String::new()));
    objects.begin_local_scope();
    objects.insert_new_local(1, "x", (Type::U8, false, false, false, 0, String::new()));
    let found = objects.get_object("x", 3).ok().expect("x is declared");
    assert_eq!(found.0, Type::U8);
    assert_eq!(found.8, 1);
    let again = objects.get_object("x", 3).ok().expect("x is declared");
    assert_eq!(again.8, 2);
    objects.end_local_scope();
    let outer = objects.get_object("x", 3).ok().expect("x is declared");
    assert_eq!(outer.0, Type::S32);
    match objects.get_object("y", 9) {
        Err(ThrushError::Error(title, help, line, extra)) => {
            assert!(extra.is_empty());
            assert_eq!(title, "Object don't Found");
            assert_eq!(help, "Object \"y\" is don't in declared.");
            assert_eq!(line, 9);
        }
        Ok(_) => panic!("expected an error"),
    }
}

#[test]
fn parser_objects_globals_and_deallocators() {
    let mut objects = ParserObjects::new(ahash::AHashMap::new());
    objects.insert_new_global(String::from("main"), (Type::Void, vec![], vec![], true, false));
    let found = objects.get_object("main", 1).ok().expect("main is declared");
    assert!(found.3);
    objects.insert_new_local(0, "p", (Type::Struct, false, false, true, 0, String::from("Point")));
    objects.insert_new_local(0, "n", (Type::S32, false, false, false, 0, String::new()));
    let frees = objects.create_deallocators(0);
    assert_eq!(frees.len(), 1);
    assert_eq!(frees[0].name, "p");
    assert!(frees[0].free_only);
    assert!(objects.get_struct("Point", 4).is_err());
}

#[test]
fn imports_yield_nothing() {
    let tokens = vec![
        Token { kind: TokenKind::Identifier, lexeme: Some(String::from("a")), line: 1 },
        Token { kind: TokenKind::Eof, lexeme: None, line: 1 },
    ];
    match Import::generate(tokens) {
        Ok((stmts, _objects)) => assert!(stmts.is_empty()),
        Err(_) => panic!("expected no errors"),
    }
}

#[test]
fn structure_fields_by_name() {
    let fields: Struct = vec![("x", "", Type::S32), ("name", "Label", Type::Struct)];
    assert!(fields.contains_field("name"));
    assert!(!fields.contains_field("y"));
    assert_eq!(fields.get_field_type("name", (Type::Void, "")), (Type::Struct, "Label"));
    assert_eq!(fields.get_field_type("y", (Type::Void, "")), (Type::Void, ""));
}

#[test]
fn found_objects() {
    let local: FoundObjectId = (None, None, Some(("x", 2)));
    assert!(local.is_local());
    assert!(!local.is_function());
    assert_eq!(local.expected_local((4, (1, 2)))
        .ok(), Some(("x", 2)));
    match local.expected_function((4, (1, 2))) {
        Err(ThrushCompilerError::Error(title, desc, line, span)) => {
            assert_eq!(title, "Expected function reference");
            assert_eq!(desc, "Expected function but found something else.");
            assert_eq!(line, 4);
            assert_eq!(span, Some((1, 2)));
        }
        Ok(_) => panic!("expected an error"),
    }
}

fn texts(pieces: &[LogPiece]) -> Vec<String> {
    pieces
        .iter()
        .map(|p| match p {
            LogPiece::Plain(t) => t.clone(),
            LogPiece::Styled(s) => s.text.clone(),
        })
        .collect()
}

#[test]
fn log_plans() {
    let warn = log_plan(LoggingType::Warning, "careful");
    assert_eq!(warn.stream, OutputIn::Stderr);
    assert!(!warn.exits);
    assert_eq!(texts(&warn.pieces), vec![String::from("WARN"), String::from(" careful")]);
    let panic = log_plan(LoggingType::Panic, "stop");
    assert!(panic.exits);
    assert_eq!(texts(&panic.pieces), vec![String::from("PANIC"), String::from(" stop\n")]);
    let bug = log_plan(LoggingType::Bug, "odd");
    assert!(bug.exits);
    assert_eq!(bug.pieces.len(), 7);
    let err = log_plan(LoggingType::Error, "bad");
    assert!(!err.exits);
}

#[test]
fn log_labels_and_colors() {
    let label = LoggingType::Info.as_styled();
    assert_eq!(label.text, "INFO");
    assert_eq!(label.style, Style { color: TermColor::Rgb(141, 141, 142), bold: true, underline: false });
    let text = LoggingType::Panic.text_with_color("x");
    assert_eq!(text.style, Style { color: TermColor::BrightRed, bold: false, underline: true });
    assert!(LoggingType::BackendBug.is_backend_bug());
    assert!(!LoggingType::Warning.is_err());
}

#[test]
fn optimization_spellings() {
    assert_eq!(Opt::Mid.to_str(false, false), "O2");
    assert_eq!(Opt::Mcqueen.to_str(true, false), "-O3");
    assert_eq!(Opt::Low.to_str(false, true), "-O1");
    assert_eq!(Opt::Low.to_llvm_opt(), OptimizationLevel::Default);
    assert_eq!(Opt::Mid.to_llvm_opt(), OptimizationLevel::Less);
    assert_eq!(Linking::Static.to_str(), "--static");
    assert_eq!(Linking::Dynamic.to_str(), "-dynamic");
}

#[test]
fn compiler_options_defaults() {
    let options = CompilerOptions::with_target_triple(String::from("x86_64-unknown-linux-gnu"));
    assert_eq!(options.target_triple, "x86_64-unknown-linux-gnu");
    assert_eq!(options.optimization, Opt::default());
    assert_eq!(options.linking, Linking::default());
}

#[test]
fn token_texts() {
    assert_eq!(TokenKind::LessEq.to_text(), "<=");
    assert_eq!(Type::F64.to_text(), "f64");
}

#[test]
fn positions() {
    assert!(LLVMCodeGenContextPosition::Local.in_local());
    assert!(LLVMCodeGenContextPosition::Mutation.in_mutation());
    assert!(!LLVMCodeGenContextPosition::default().in_call());
}

#[test]
fn precompute_is_symmetric_on_numbers() {
    let pairs = [
        (ThrushType::S8, ThrushType::U64),
        (ThrushType::U16, ThrushType::U32),
        (ThrushType::F32, ThrushType::U8),
        (ThrushType::S64, ThrushType::F64),
    ];
    for (a, b) in pairs.iter() {
        assert!(a.precompute_type(b) == b.precompute_type(a));
    }
}

#[test]
fn narrowing_twice_is_narrowing_once() {
    for t in [ThrushType::U8, ThrushType::U64, ThrushType::S32, ThrushType::Char] {
        let once = t.narrowing_cast();
        assert!(once.narrowing_cast() == once);
    }
}

#[test]
fn parser_objects_structs_and_merging() {
    let mut objects = ParserObjects::new(ahash::AHashMap::new());
    let mut fields = ahash::AHashMap::new();
    fields.insert(String::from("x"), Type::S32);
    objects.insert_new_struct(String::from("Point"), fields);
    let found = objects.get_struct("Point", 1).ok().expect("Point is declared");
    assert_eq!(found.get("x"), Some(&Type::S32));
    match objects.get_struct("Line", 2) {
        Err(ThrushError::Error(title, help, line, extra)) => {
            assert!(extra.is_empty());
            assert_eq!(title, "Struct don't found");
            assert_eq!(help, "Struct with name \"Line\" not found.");
            assert_eq!(line, 2);
        }
        Ok(_) => panic!("expected an error"),
    }

    let mut other = ParserObjects::new(ahash::AHashMap::new());
    other.insert_new_global(String::from("f"), (Type::S32, vec![Type::U8], vec![], true, false));
    objects.merge_globals(other);
    let f = objects.get_object("f", 1).ok().expect("f was merged in");
    assert_eq!(f.0, Type::S32);
    assert_eq!(f.5, vec![Type::U8]);
}

#[test]
fn parser_objects_reference_counts_go_down() {
    let mut objects = ParserObjects::new(ahash::AHashMap::new());
    objects.insert_new_local(0, "v", (Type::S32, false, false, false, 2, String::new()));
    objects.insert_new_local(0, "w", (Type::S32, false, false, false, 0, String::new()));
    objects.decrease_local_references(0);
    assert_eq!(objects.get_object("v", 1).ok().expect("v is declared").8, 2);
    assert_eq!(objects.get_object("w", 1).ok().expect("w is declared").8, 1);
}
