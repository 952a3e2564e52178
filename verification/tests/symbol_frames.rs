use thrushc::context::{CompilerObjects, LLVMCodeGenContext};
use thrushc::position::LLVMCodeGenContextPosition;

#[test]
fn local_found_in_innermost_scope() {
    let mut context = LLVMCodeGenContext::new();
    context.begin_scope();
    context.alloc_local(String::from("a"), 1);
    context.begin_scope();
    context.alloc_local(String::from("a"), 2);
    assert_eq!(context.find_allocated_symbol("a"), Some(2));
    assert_eq!(context.get_allocated_symbol("a"), 2);
    context.end_scope();
    assert_eq!(context.find_allocated_symbol("a"), Some(1));
    assert_eq!(context.find_allocated_symbol("b"), None);
}

#[test]
fn constants_shadow_locals() {
    let mut context = LLVMCodeGenContext::new();
    context.begin_scope();
    context.alloc_local(String::from("limit"), 4);
    context.alloc_constant(String::from("limit"), 9);
    assert_eq!(context.find_allocated_symbol("limit"), Some(9));
}

#[test]
fn waiting_parameters_enter_the_next_scope() {
    let mut context = LLVMCodeGenContext::new();
    context.alloc_function_parameter(String::from("p"), 5);
    assert_eq!(context.find_allocated_symbol("p"), None);
    context.begin_scope();
    assert_eq!(context.find_allocated_symbol("p"), Some(5));
    assert_eq!(context.get_allocated_symbols().get("p"), Some(&5));
    context.end_scope();
    context.begin_scope();
    assert_eq!(context.find_allocated_symbol("p"), None);
}

#[test]
fn scope_calls_are_forgotten_when_the_scope_closes() {
    let mut context = LLVMCodeGenContext::new();
    context.begin_scope();
    context.add_scope_call(3);
    context.add_scope_call(4);
    assert_eq!(context.get_llvm_calls(), &vec![3, 4]);
    context.end_scope();
    assert!(context.get_llvm_calls().is_empty());
}

#[test]
fn functions_and_position() {
    let mut context = LLVMCodeGenContext::new();
    context.insert_function(String::from("main"), 0);
    assert_eq!(context.find_function("main"), Some(0));
    assert_eq!(context.get_function("main"), 0);
    assert_eq!(context.find_function("other"), None);
    assert_eq!(context.get_position(), LLVMCodeGenContextPosition::NoRelevant);
    context.set_position(LLVMCodeGenContextPosition::Call);
    assert!(context.get_position().in_call());
    context.set_position_irrelevant();
    assert_eq!(context.get_position(), LLVMCodeGenContextPosition::NoRelevant);
}

#[test]
fn compiler_objects_scopes() {
    let mut objects = CompilerObjects::new();
    objects.begin_scope();
    objects.alloc_local_object(String::from("x"), 10);
    objects.begin_scope();
    assert_eq!(objects.find_allocated_object("x"), Some(10));
    objects.alloc_local_object(String::from("x"), 11);
    assert_eq!(objects.get_allocated_object("x"), 11);
    objects.end_scope();
    assert_eq!(objects.get_allocated_object("x"), 10);
    assert_eq!(objects.find_allocated_object("y"), None);
}

#[test]
fn compiler_objects_functions_and_structs() {
    let mut objects = CompilerObjects::new();
    objects.insert_function(String::from("f"), 2);
    objects.insert_struct(String::from("Point"), 7);
    assert_eq!(objects.get_function("f"), 2);
    assert_eq!(objects.get_struct("Point"), Some(7));
    assert_eq!(objects.get_struct("Line"), None);
}
