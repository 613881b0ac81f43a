//! The shared-cell discipline, the variable environment, and the function
//! registry.

use lua_core::ast::lua_program::{Block, FunctionBody};
use lua_core::err_handle::RuntimeFailure;
use lua_core::frontend::data::{CellArena, Data, DataKind, NumberKind};
use lua_core::frontend::function::{FunctionKind, InternalFunctionTypes, OneStrFn};
use lua_core::frontend::function_map::FunctionMap;
use lua_core::frontend::variable_map::VariableMap;
use std::rc::Rc;

fn int_v(i: i64) -> DataKind {
    DataKind::Number(NumberKind::Integer(i))
}

fn empty_body() -> Rc<FunctionBody> {
    Rc::new(FunctionBody {
        parameters: None,
        block: Block { statements: Vec::new(), return_statement: None },
    })
}

#[test]
fn a_cell_reads_back_its_value() {
    let mut arena = CellArena::new();
    let d = Data::new(&mut arena, int_v(5));
    assert_eq!(d.borrow(&arena, 0), Ok(int_v(5)));
}

#[test]
fn a_write_access_blocks_reads_until_released() {
    let mut arena = CellArena::new();
    let d = Data::new(&mut arena, int_v(1));
    assert_eq!(d.acquire_write(&mut arena, 0), Ok(()));
    assert!(matches!(d.borrow(&arena, 0), Err(RuntimeFailure::BorrowError(_, 0))));
    assert!(matches!(d.acquire_read(&mut arena, 0), Err(RuntimeFailure::BorrowError(_, 0))));
    d.release_write(&mut arena, int_v(2));
    assert_eq!(d.borrow(&arena, 0), Ok(int_v(2)));
}

#[test]
fn a_read_access_blocks_writes_until_released() {
    let mut arena = CellArena::new();
    let d = Data::new(&mut arena, int_v(1));
    assert_eq!(d.acquire_read(&mut arena, 0), Ok(()));
    // A second reader is fine; a writer is not.
    assert_eq!(d.acquire_read(&mut arena, 0), Ok(()));
    assert!(matches!(d.borrow_mut(&mut arena, int_v(9), 0), Err(RuntimeFailure::BorrowError(_, 0))));
    assert!(matches!(d.acquire_write(&mut arena, 0), Err(RuntimeFailure::BorrowError(_, 0))));
    d.release_read(&mut arena);
    d.release_read(&mut arena);
    assert_eq!(d.borrow_mut(&mut arena, int_v(9), 0), Ok(()));
    assert_eq!(d.borrow(&arena, 0), Ok(int_v(9)));
}

#[test]
fn environment_lookup_insert_remove() {
    let mut arena = CellArena::new();
    let d1 = Data::new(&mut arena, int_v(1));
    let d2 = Data::new(&mut arena, int_v(2));
    let mut env = VariableMap::new();
    assert!(matches!(env.get("x", 4), Err(RuntimeFailure::VarNotFound(name, 4)) if name == "x"));
    env.insert("x".to_string(), d1);
    let got = env.get("x", 0).unwrap();
    assert_eq!(got.borrow(&arena, 0), Ok(int_v(1)));
    // Rebinding replaces the binding; the old cell itself is untouched.
    env.insert("x".to_string(), d2);
    assert_eq!(env.get("x", 0).unwrap().borrow(&arena, 0), Ok(int_v(2)));
    assert_eq!(d1.borrow(&arena, 0), Ok(int_v(1)));
    env.remove("x");
    assert!(env.get("x", 0).is_err());
    // get_mut performs the same lookup.
    env.insert("y".to_string(), d1);
    assert_eq!(env.get_mut("y", 0).unwrap().borrow(&arena, 0), Ok(int_v(1)));
}

#[test]
fn two_names_can_alias_one_cell() {
    let mut arena = CellArena::new();
    let cell = Data::new(&mut arena, int_v(1));
    let mut env = VariableMap::new();
    env.insert("a".to_string(), cell);
    env.insert("b".to_string(), cell);
    let through_a = env.get("a", 0).unwrap();
    assert_eq!(through_a.borrow_mut(&mut arena, int_v(42), 0), Ok(()));
    let through_b = env.get("b", 0).unwrap();
    assert_eq!(through_b.borrow(&arena, 0), Ok(int_v(42)));
}

#[test]
fn registration_is_first_come_first_kept() {
    let mut registry = FunctionMap::new();
    assert!(registry.get("f").is_none());
    assert_eq!(registry.register_function("f".to_string(), FunctionKind::External(empty_body())), Ok(()));
    let again = registry.register_function(
        "f".to_string(),
        FunctionKind::Internal(InternalFunctionTypes::TakesOneStr(OneStrFn::PrintLine)),
    );
    assert_eq!(again, Err(RuntimeFailure::DuplicateFunction("f".to_string())));
    // The first definition is still the registered one.
    match registry.get("f") {
        Some(FunctionKind::External(body)) => assert!(body.parameters.is_none()),
        _ => panic!("the first definition should remain registered"),
    }
}
