use ocaml_interop::derive::attrs::{AttrModel, MetaItem, MetaValue, OCamlAttributes};
use ocaml_interop::derive::definition::{export_internal_logic, FnArgModel, FnSignatureModel};
use ocaml_interop::derive::export::{FirstArg, RuntimeArgType};
use ocaml_interop::derive::input::{parse_input, DataModel, DeriveInputModel};
use ocaml_interop::derive::parsing::validate_type_rep;
use ocaml_interop::derive::types::{GenericArgs, TypeModel};
use ocaml_interop::describe::{applied_type_name_of, ocaml_type_name_of};

fn runtime_arg(mutable: bool) -> Option<FirstArg> {
    Some(FirstArg::Typed(RuntimeArgType::Reference { path: Some("OCamlRuntime".to_string()), mutable }))
}

fn ocaml_unit() -> FnArgModel {
    typed_arg(TypeModel::Path {
        qself: false,
        last: Some(("OCaml".to_string(), GenericArgs::Angle(Some(Box::new(TypeModel::Tuple { len: 0 }))))),
    })
}

fn public_fn(runtime_arg: Option<FirstArg>, args: Vec<FnArgModel>) -> FnSignatureModel {
    FnSignatureModel {
        name: "exported".to_string(),
        is_public: true,
        is_async: false,
        has_generics: false,
        is_variadic: false,
        abi: None,
        runtime_arg,
        args,
        output: None,
    }
}

fn flag(name: &str) -> MetaItem {
    MetaItem::Path { name: Some(name.to_string()) }
}

#[test]
fn test_error_no_args_other_than_runtime() {
    // pub fn only_runtime_arg_fn(cr: &mut OCamlRuntime) { ... }
    let result = export_internal_logic(&vec![], public_fn(runtime_arg(true), vec![]));
    assert!(result.is_err(), "a function with only a runtime argument is refused");
    let error_message = result.err().unwrap().message;
    assert!(error_message.contains("OCaml functions must take at least one argument in addition to the OCamlRuntime"));
}

#[test]
fn test_error_noalloc_with_mutable_runtime() {
    // #[export(noalloc)] pub fn noalloc_mutable_fail(cr: &mut OCamlRuntime, _unused: OCaml<()>)
    let result = export_internal_logic(&vec![flag("noalloc")], public_fn(runtime_arg(true), vec![ocaml_unit()]));
    assert!(result.is_err());
    let error_message = result.err().unwrap().message;
    assert!(error_message.contains(
        "When `noalloc` is used, OCaml runtime argument must be an immutable reference (e.g., &OCamlRuntime)"
    ));
}

#[test]
fn test_error_alloc_with_immutable_runtime() {
    // pub fn alloc_immutable_fail(cr: &OCamlRuntime, _unused: OCaml<()>)
    let result = export_internal_logic(&vec![], public_fn(runtime_arg(false), vec![ocaml_unit()]));
    assert!(result.is_err());
    let error_message = result.err().unwrap().message;
    assert!(error_message.contains(
        "OCaml runtime argument must be a mutable reference (e.g., &mut OCamlRuntime). Use `#[export(noalloc)]` for an immutable reference."
    ));
}

#[test]
fn test_empty_enum_is_rejected() {
    // enum EmptyEnum {}
    let input = DeriveInputModel { ident: "EmptyEnum".to_string(), attrs: vec![], data: DataModel::Enum(vec![]) };
    let type_rep = parse_input(&input).ok().unwrap();
    let result = validate_type_rep(&type_rep);
    assert!(result.is_err(), "Empty enum should be rejected");
    let err_msg = result.err().unwrap().to_string();
    assert!(err_msg.contains("Empty enums are not supported"));
}

#[test]
fn test_ocaml_describer_simple_struct_default_name() {
    // struct MySimpleStruct;
    let attrs: OCamlAttributes = Default::default();
    let name = ocaml_type_name_of(&attrs, "MySimpleStruct");
    assert_eq!(applied_type_name_of(&name, &vec![]), "my_simple_struct");
}

#[test]
fn test_ocaml_describer_simple_struct_custom_name() {
    // #[ocaml(name = "custom_name_for_struct")] struct MyRenamedStruct;
    let attrs = OCamlAttributes::from_attrs(&vec![AttrModel {
        is_ocaml: true,
        items: vec![MetaItem::NameValue {
            name: Some("name".to_string()),
            value: MetaValue::Str("custom_name_for_struct".to_string()),
        }],
    }])
    .unwrap();
    let name = ocaml_type_name_of(&attrs, "MyRenamedStruct");
    assert_eq!(applied_type_name_of(&name, &vec![]), "custom_name_for_struct");
}

#[test]
fn test_ocaml_describer_generic_struct_one_param() {
    // struct MyGenericStruct<A>; with A named `int`
    let attrs: OCamlAttributes = Default::default();
    let name = ocaml_type_name_of(&attrs, "MyGenericStruct");
    assert_eq!(name, "my_generic_struct");
    assert_eq!(applied_type_name_of(&name, &vec!["int".to_string()]), "int my_generic_struct");
}

#[test]
fn test_ocaml_describer_generic_struct_multiple_params() {
    // struct MyMultiGeneric<A, B>; with A named `int` and B named `string`
    let attrs: OCamlAttributes = Default::default();
    let name = ocaml_type_name_of(&attrs, "MyMultiGeneric");
    assert_eq!(name, "my_multi_generic");
    assert_eq!(
        applied_type_name_of(&name, &vec!["int".to_string(), "string".to_string()]),
        "(int, string) my_multi_generic"
    );
}

#[test]
fn test_ocaml_describer_generic_struct_existing_where_clause() {
    // struct MyComplexGeneric<T> where T: Clone; with T named `bool`
    let attrs: OCamlAttributes = Default::default();
    let name = ocaml_type_name_of(&attrs, "MyComplexGeneric");
    assert_eq!(applied_type_name_of(&name, &vec!["bool".to_string()]), "bool my_complex_generic");
}

#[test]
fn test_ocaml_describer_lifetime_and_type_param() {
    // struct MyLifetimeStruct<'a, T> { data: &'a T } -- lifetimes are not type parameters
    let attrs: OCamlAttributes = Default::default();
    let name = ocaml_type_name_of(&attrs, "MyLifetimeStruct");
    assert_eq!(applied_type_name_of(&name, &vec!["int".to_string()]), "int my_lifetime_struct");
}

fn typed_arg(ty: TypeModel) -> FnArgModel {
    FnArgModel::Typed { pattern: "x".to_string(), ty }
}
