use ocaml_interop::caller::{
    allocate_alot, increment_bytes, increment_ints_list, make_error, make_ok, make_some,
    make_tuple, twice, verify_variant_test, Movement,
};
use ocaml_interop::conv::{FromOCaml, ToOCaml};
use ocaml_interop::error::CallError;
use ocaml_interop::memory::{alloc_closure, alloc_error, alloc_fields, alloc_ok, alloc_some, alloc_string};
use ocaml_interop::{OCaml, OCamlInt, OCamlList, OCamlRuntime, RawOCaml};

// The OCaml side of these calls: each function stands for the OCaml
// function registered under its name.

fn runtime_with_functions() -> OCamlRuntime {
    let mut cr = OCamlRuntime::new();
    for name in [
        "twice",
        "increment_bytes",
        "increment_ints_list",
        "make_tuple",
        "make_some",
        "make_ok",
        "make_error",
        "stringify_variant",
    ] {
        let c = alloc_closure(&mut cr, 2);
        cr.register_value(name, c);
    }
    cr
}

fn int_of(raw: RawOCaml) -> i64 {
    (raw >> 1) as i64
}

fn of_int(n: i64) -> RawOCaml {
    ((n << 1) | 1) as RawOCaml
}

fn string_of(rt: &OCamlRuntime, raw: RawOCaml) -> String {
    <String as FromOCaml<String>>::from_ocaml(rt, OCaml::new(rt, raw))
}

fn ocaml_twice(rt: OCamlRuntime, _c: RawOCaml, args: Vec<RawOCaml>) -> (OCamlRuntime, RawOCaml) {
    let r = of_int(2 * int_of(args[0]));
    (rt, r)
}

fn ocaml_increment_bytes(mut rt: OCamlRuntime, _c: RawOCaml, args: Vec<RawOCaml>) -> (OCamlRuntime, RawOCaml) {
    let mut bytes: Vec<u8> = <Vec<u8> as FromOCaml<String>>::from_ocaml(&rt, OCaml::new(&rt, args[0]));
    let first_n = int_of(args[1]) as usize;
    for i in 0..first_n.min(bytes.len()) {
        bytes[i] += 1;
    }
    let s = String::from_utf8(bytes).unwrap();
    let r: OCaml<String> = alloc_string(&mut rt, &s);
    (rt, r.raw())
}

fn ocaml_increment_ints_list(mut rt: OCamlRuntime, _c: RawOCaml, args: Vec<RawOCaml>) -> (OCamlRuntime, RawOCaml) {
    let ints: Vec<i64> = <Vec<i64> as FromOCaml<OCamlList<OCamlInt>>>::from_ocaml(&rt, OCaml::new(&rt, args[0]));
    let incremented: Vec<i64> = ints.iter().map(|x| x + 1).collect();
    let r: OCaml<OCamlList<OCamlInt>> = incremented.to_ocaml(&mut rt);
    (rt, r.raw())
}

fn ocaml_make_tuple(mut rt: OCamlRuntime, _c: RawOCaml, args: Vec<RawOCaml>) -> (OCamlRuntime, RawOCaml) {
    let r: OCaml<(String, OCamlInt)> = alloc_fields(&mut rt, 0, vec![args[0], args[1]]);
    (rt, r.raw())
}

fn ocaml_make_some(mut rt: OCamlRuntime, _c: RawOCaml, args: Vec<RawOCaml>) -> (OCamlRuntime, RawOCaml) {
    let v: OCaml<String> = OCaml::new(&rt, args[0]);
    let r = alloc_some(&mut rt, v);
    (rt, r.raw())
}

fn ocaml_make_ok(mut rt: OCamlRuntime, _c: RawOCaml, args: Vec<RawOCaml>) -> (OCamlRuntime, RawOCaml) {
    let v: OCaml<OCamlInt> = OCaml::new(&rt, args[0]);
    let r: OCaml<Result<OCamlInt, String>> = alloc_ok(&mut rt, v);
    (rt, r.raw())
}

fn ocaml_make_error(mut rt: OCamlRuntime, _c: RawOCaml, args: Vec<RawOCaml>) -> (OCamlRuntime, RawOCaml) {
    let v: OCaml<String> = OCaml::new(&rt, args[0]);
    let r: OCaml<Result<OCamlInt, String>> = alloc_error(&mut rt, v);
    (rt, r.raw())
}

fn ocaml_stringify_variant(mut rt: OCamlRuntime, _c: RawOCaml, args: Vec<RawOCaml>) -> (OCamlRuntime, RawOCaml) {
    let v = args[0];
    let text = if v == 1 {
        "RotateLeft".to_string()
    } else if v == 3 {
        "RotateRight".to_string()
    } else {
        let step: OCaml<Movement> = OCaml::new(&rt, v);
        let n: OCaml<OCamlInt> = step.field(&rt, 0);
        format!("Step({})", n.to_i64())
    };
    let r: OCaml<String> = alloc_string(&mut rt, &text);
    (rt, r.raw())
}

fn ocaml_raises(rt: OCamlRuntime, _c: RawOCaml, _args: Vec<RawOCaml>) -> (OCamlRuntime, RawOCaml) {
    (rt, 4 | 2)
}

#[test]
fn test_twice() {
    let mut cr = runtime_with_functions();
    assert_eq!(twice(&mut cr, 10, ocaml_twice), Ok(20));
}

#[test]
fn test_increment_bytes() {
    let mut cr = runtime_with_functions();
    assert_eq!(
        increment_bytes(&mut cr, "0000000000000000", 10, ocaml_increment_bytes),
        Ok("1111111111000000".to_string())
    );
}

#[test]
fn test_increment_ints_list() {
    let mut cr = runtime_with_functions();
    let ints = vec![0, 1, 2, 3, 4, 5, 6, 7, 8, 9];
    let expected = vec![1, 2, 3, 4, 5, 6, 7, 8, 9, 10];
    assert_eq!(increment_ints_list(&mut cr, &ints, ocaml_increment_ints_list), Ok(expected));
}

#[test]
fn test_make_tuple() {
    let mut cr = runtime_with_functions();
    assert_eq!(
        make_tuple(&mut cr, "fst".to_owned(), 9, ocaml_make_tuple),
        Ok(("fst".to_owned(), 9))
    );
}

#[test]
fn test_make_some() {
    let mut cr = runtime_with_functions();
    assert_eq!(
        make_some(&mut cr, "some".to_owned(), ocaml_make_some),
        Ok(Some("some".to_owned()))
    );
}

#[test]
fn test_make_result() {
    let mut cr = runtime_with_functions();
    assert_eq!(make_ok(&mut cr, 10, ocaml_make_ok), Ok(Ok(10)));
    assert_eq!(
        make_error(&mut cr, "error".to_owned(), ocaml_make_error),
        Ok(Err("error".to_owned()))
    );
}

#[test]
fn test_frame_management() {
    let mut cr = runtime_with_functions();
    assert!(allocate_alot(&mut cr));
}

#[test]
fn test_variant_conversion() {
    let mut cr = runtime_with_functions();
    assert_eq!(
        verify_variant_test(&mut cr, Movement::RotateLeft, ocaml_stringify_variant),
        Ok("RotateLeft".to_owned())
    );
    assert_eq!(
        verify_variant_test(&mut cr, Movement::RotateRight, ocaml_stringify_variant),
        Ok("RotateRight".to_owned())
    );
    assert_eq!(
        verify_variant_test(&mut cr, Movement::Step(10), ocaml_stringify_variant),
        Ok("Step(10)".to_owned())
    );
}

#[test]
fn test_flexible_parameters_rust_values() {
    let mut cr = runtime_with_functions();
    assert_eq!(twice(&mut cr, 42, ocaml_twice), Ok(84));
    let (s, n): (String, i64) = make_tuple(&mut cr, "hello".to_string(), 123, ocaml_make_tuple).unwrap();
    assert_eq!(s, "hello");
    assert_eq!(n, 123);
    assert_eq!(increment_bytes(&mut cr, "0000", 3, ocaml_increment_bytes), Ok("1110".to_string()));
    let ints = vec![5, 10, 15];
    let expected = vec![6, 11, 16];
    assert_eq!(increment_ints_list(&mut cr, &ints, ocaml_increment_ints_list), Ok(expected));
}

#[test]
fn test_flexible_parameters_complex_types() {
    let mut cr = runtime_with_functions();
    let numbers = vec![100i64, 200, 300];
    let result_vec = increment_ints_list(&mut cr, &numbers, ocaml_increment_ints_list).unwrap();
    assert_eq!(result_vec, vec![101, 201, 301]);
    let numbers_owned = vec![1000i64, 2000, 3000];
    let result_vec = increment_ints_list(&mut cr, &numbers_owned, ocaml_increment_ints_list).unwrap();
    assert_eq!(result_vec, vec![1001, 2001, 3001]);
}

#[test]
fn test_flexible_parameters_option_result() {
    let mut cr = runtime_with_functions();
    let result_opt: Option<String> = make_some(&mut cr, "option_test".to_string(), ocaml_make_some).unwrap();
    assert_eq!(result_opt, Some("option_test".to_string()));
    let result_res: Result<i64, String> = make_ok(&mut cr, 999, ocaml_make_ok).unwrap();
    assert_eq!(result_res, Ok(999));
    let result_res: Result<i64, String> = make_error(&mut cr, "error_test".to_string(), ocaml_make_error).unwrap();
    assert_eq!(result_res, Err("error_test".to_string()));
}

#[test]
fn calling_an_unregistered_function_fails() {
    let mut cr = OCamlRuntime::new();
    assert_eq!(twice(&mut cr, 1, ocaml_twice), Err(CallError::NotRegistered));
}

#[test]
fn an_exception_is_reported() {
    let mut cr = runtime_with_functions();
    assert_eq!(twice(&mut cr, 1, ocaml_raises), Err(CallError::Exception(4)));
}

#[test]
fn an_unreadable_result_is_reported() {
    let mut cr = runtime_with_functions();
    let bad = |rt: OCamlRuntime, _c: RawOCaml, _a: Vec<RawOCaml>| (rt, 1000);
    assert_eq!(make_some(&mut cr, "x".to_string(), bad), Err(CallError::Unreadable));
    let not_a_string = |rt: OCamlRuntime, _c: RawOCaml, _a: Vec<RawOCaml>| (rt, 5);
    assert_eq!(increment_bytes(&mut cr, "ab", 1, not_a_string), Err(CallError::Unreadable));
}

#[test]
fn a_name_holding_something_else_is_not_a_closure() {
    let mut cr = OCamlRuntime::new();
    cr.register_value("twice", of_int(3));
    assert_eq!(twice(&mut cr, 1, ocaml_twice), Err(CallError::NotRegistered));
}
