use ocaml_interop::closure::{handle_result, OCamlClosure};
use ocaml_interop::conv::{FromOCaml, ToOCaml};
use ocaml_interop::derive::attrs::{AttrModel, MetaItem, MetaValue, OCamlAttributes};
use ocaml_interop::derive::error::OCamlInteropError;
use ocaml_interop::derive::input::{parse_field, parse_input, DataModel, DeriveInputModel, FieldModel, FieldsModel, VariantModel};
use ocaml_interop::derive::export::{
    export_plan, validate_parsed_data, validate_runtime_argument, ExportError, ExportedFnData, FirstArg,
    InteropKind, ProcessedArg, RuntimeArgType,
};
use ocaml_interop::derive::layout::{
    decode_regular_variant, polymorphic_decoder, polytag_hash, read_polymorphic_variant, regular_enum_layout, PolyArm, PolyVariantError, VariantEncoding,
};
use ocaml_interop::derive::parsing::{
    format_type, validate_type_rep, EnumKind, FieldRep, TypeRep, TypeRepData, VariantKind,
    VariantRep,
};
use ocaml_interop::derive::definition::{
    export_internal_logic, parse_export_attributes, parse_export_definition, FnArgModel, FnSignatureModel,
};
use ocaml_interop::derive::types::{
    extract_inner_type_from_path, get_interop_type_detail, get_primitive_type, GenericArgs, InteropTypeDetail, PrimitiveInteropType, TypeModel,
};
use ocaml_interop::describe::{applied_type_name_of, ocaml_type_name_of, OCamlDescriber};
use ocaml_interop::dune::{dir_relative_to_dune_project, find_dune_project_location, DuneBuilder, DuneInvocation};
use ocaml_interop::error::OCamlError;
use ocaml_interop::exports::{
    rust_increment_bytes, rust_increment_ints_list, rust_increment_ints_uniform_array,
    rust_make_error, rust_make_ok, rust_make_some, rust_make_tuple, rust_rust_add_7ints,
    rust_should_panic_with_message, rust_string_of_movement,
    rust_string_of_polymorphic_movement, rust_twice, rust_twice_boxed_i32, rust_twice_boxed_i64,
    Movement, PolymorphicMovement,
};
use ocaml_interop::memory::{alloc_bytes, alloc_closure, alloc_fields, alloc_string, alloc_tuple};
use ocaml_interop::mlvalues::bigarray::BigarrayElt;
use ocaml_interop::polyvar::hash_variant;
use ocaml_interop::{OCaml, OCamlBytes, OCamlInt, OCamlInt32, OCamlInt64, OCamlList, OCamlRuntime, OCamlUniformArray};

fn ocaml_int(n: i64) -> isize {
    ((n << 1) | 1) as isize
}

fn imm<T>(raw: isize) -> OCaml<T> {
    OCaml::new(&OCamlRuntime::new(), raw)
}

#[test]
fn exported_arithmetic() {
    let mut cr = OCamlRuntime::new();
    let r = rust_twice(&mut cr, imm(ocaml_int(21)));
    assert_eq!(r.to_i64(), 42);
    let sum = rust_rust_add_7ints(
        &mut cr,
        imm(ocaml_int(1)),
        imm(ocaml_int(2)),
        imm(ocaml_int(3)),
        imm(ocaml_int(4)),
        imm(ocaml_int(5)),
        imm(ocaml_int(6)),
        imm(ocaml_int(7)),
    );
    assert_eq!(sum.to_i64(), 28);
    let b64: OCaml<OCamlInt64> = 21i64.to_ocaml(&mut cr);
    let r64: i64 = rust_twice_boxed_i64(&mut cr, b64).to_rust(&cr);
    assert_eq!(r64, 42);
    let b32: OCaml<OCamlInt32> = (-4i32).to_ocaml(&mut cr);
    let r32: i32 = rust_twice_boxed_i32(&mut cr, b32).to_rust(&cr);
    assert_eq!(r32, -8);
}

#[test]
fn exported_collections() {
    let mut cr = OCamlRuntime::new();
    let bytes: OCaml<OCamlBytes> = alloc_bytes(&mut cr, b"0000");
    let r = rust_increment_bytes(&mut cr, bytes, imm(ocaml_int(2)));
    let rb: Vec<u8> = r.to_rust(&cr);
    assert_eq!(rb, b"1100".to_vec());
    let l: OCaml<OCamlList<OCamlInt>> = vec![1i64, 2, 3].to_ocaml(&mut cr);
    let rl: Vec<i64> = rust_increment_ints_list(&mut cr, l).to_rust(&cr);
    assert_eq!(rl, vec![2, 3, 4]);
    let a: OCaml<OCamlUniformArray<OCamlInt>> = vec![10i64, 20].to_ocaml(&mut cr);
    let ra: Vec<i64> = rust_increment_ints_uniform_array(&mut cr, a).to_rust(&cr);
    assert_eq!(ra, vec![11, 21]);
}

#[test]
fn exported_constructors() {
    let mut cr = OCamlRuntime::new();
    let s: OCaml<String> = alloc_string(&mut cr, "v");
    let t: (String, i64) = rust_make_tuple(&mut cr, s, imm(ocaml_int(8))).to_rust(&cr);
    assert_eq!(t, ("v".to_string(), 8));
    let o: Option<String> = rust_make_some(&mut cr, s).to_rust(&cr);
    assert_eq!(o, Some("v".to_string()));
    let ok: Result<i64, String> = rust_make_ok(&mut cr, imm(ocaml_int(3))).to_rust(&cr);
    assert_eq!(ok, Ok(3));
    let err: Result<i64, String> = rust_make_error(&mut cr, s).to_rust(&cr);
    assert_eq!(err, Err("v".to_string()));
    let m: OCaml<String> = alloc_string(&mut cr, "boom");
    let yes = rust_should_panic_with_message(&mut cr, m, OCaml::of_bool(true));
    assert_eq!(yes, Err("boom".to_string()));
    let no = rust_should_panic_with_message(&mut cr, m, OCaml::of_bool(false));
    assert_eq!(no, Ok(()));
}

#[test]
fn exported_movements() {
    let mut cr = OCamlRuntime::new();
    let left: OCaml<Movement> = imm(ocaml_int(0));
    let s = rust_string_of_movement(&mut cr, left);
    assert_eq!(s.as_str(&cr), "RotateLeft");
    let step: OCaml<Movement> = alloc_fields(&mut cr, 0, vec![ocaml_int(-3)]);
    let s = rust_string_of_movement(&mut cr, step);
    assert_eq!(s.as_str(&cr), "Step(-3)");
    let expand: OCaml<Movement> = alloc_fields(&mut cr, 1, vec![ocaml_int(4), ocaml_int(5)]);
    let s = rust_string_of_movement(&mut cr, expand);
    assert_eq!(s.as_str(&cr), "Expand { width: 4, height: 5 }");
    let m: Movement = OCaml::<Movement>::new(&cr, ocaml_int(1)).to_rust(&cr);
    assert_eq!(m, Movement::RotateRight);
}

#[test]
fn exported_polymorphic_movements() {
    let mut cr = OCamlRuntime::new();
    assert_eq!(hash_variant("A"), 131);
    assert_eq!(hash_variant("RotateLeft"), -321351611);
    assert_eq!(hash_variant("Step"), 1852450521);
    let right: OCaml<PolymorphicMovement> = OCaml::new(&cr, hash_variant("RotateRight"));
    assert_eq!(rust_string_of_polymorphic_movement(&mut cr, right).as_str(&cr), "`RotateRight");
    let step: OCaml<PolymorphicMovement> = alloc_fields(&mut cr, 0, vec![hash_variant("Step"), ocaml_int(6)]);
    assert_eq!(rust_string_of_polymorphic_movement(&mut cr, step).as_str(&cr), "`Step(6)");
    let pair: OCaml<(OCamlInt, OCamlInt)> = alloc_fields(&mut cr, 0, vec![ocaml_int(2), ocaml_int(-1)]);
    let expand: OCaml<PolymorphicMovement> =
        alloc_fields(&mut cr, 0, vec![hash_variant("Expand"), pair.raw()]);
    assert_eq!(rust_string_of_polymorphic_movement(&mut cr, expand).as_str(&cr), "`Expand(2, -1)");
    assert!(!<PolymorphicMovement as FromOCaml<PolymorphicMovement>>::can_read(&cr, imm(ocaml_int(0))));
}

#[test]
fn type_names() {
    assert_eq!(<Option<OCamlInt>>::ocaml_type_name(), "int option");
    assert_eq!(<Result<String, OCamlBytes>>::ocaml_type_name(), "(string, bytes) result");
    assert_eq!(<OCamlList<OCamlUniformArray<bool>>>::ocaml_type_name(), "bool array list");
    assert_eq!(<OCamlInt32 as OCamlDescriber>::ocaml_type_name(), "int32");
    assert_eq!(<() as OCamlDescriber>::ocaml_type_name(), "unit");
}

#[test]
fn closures_and_exception_results() {
    let mut cr = OCamlRuntime::new();
    let c = alloc_closure(&mut cr, 2);
    cr.register_value("f", c);
    cr.register_value("n", ocaml_int(1));
    assert!(OCamlClosure::named(&cr, "f").is_some());
    assert!(OCamlClosure::named(&cr, "n").is_none());
    assert!(OCamlClosure::named(&cr, "missing").is_none());
    assert!(OCamlClosure::named(&cr, "f\0").is_none());
    assert_eq!(handle_result(ocaml_int(3)), Ok(ocaml_int(3)));
    assert_eq!(handle_result(14), Err(OCamlError::Exception(12)));
    let f = OCamlClosure::named(&cr, "f").unwrap();
    let r = f.call2(&mut cr, ocaml_int(1), ocaml_int(2), |rt, _c, args| {
        let s = (args[0] >> 1) + (args[1] >> 1);
        (rt, (s << 1) | 1)
    });
    assert_eq!(r, Ok(ocaml_int(3)));
}

#[test]
fn dune_command_lines() {
    let b = DuneBuilder::from_dirs("/w/proj".to_string(), "lib/ocaml".to_string());
    let (program, args) = b.command("callable.exe");
    assert_eq!(program, "opam");
    assert_eq!(args, vec!["exec", "--", "dune", "build", "lib/ocaml/callable.exe"]);
    assert_eq!(b.build_output_dir(), "/w/proj/_build/default/lib/ocaml");
    let b = b
        .with_profile("release")
        .with_dune_args(vec!["--verbose".to_string()])
        .with_dune_invocation(DuneInvocation::System);
    let (program, args) = b.command("x.o");
    assert_eq!(program, "dune");
    assert_eq!(args, vec!["build", "--profile", "release", "lib/ocaml/x.o", "--verbose"]);
    assert_eq!(b.build_output_dir(), "/w/proj/_build/release/lib/ocaml");
    let objects = DuneBuilder::object_files(vec![
        ("/d/a.o".to_string(), true),
        ("/d/b.c".to_string(), true),
        ("/d/dir.o".to_string(), false),
        ("/d/.o".to_string(), true),
        ("/d.x/c.o".to_string(), true),
    ]);
    assert_eq!(objects, vec!["/d/a.o".to_string(), "/d.x/c.o".to_string()]);
}

fn attr(items: Vec<MetaItem>) -> AttrModel {
    AttrModel { is_ocaml: true, items }
}

#[test]
fn ocaml_attributes() {
    let attrs = vec![
        AttrModel { is_ocaml: false, items: vec![] },
        attr(vec![
            MetaItem::NameValue { name: Some("name".to_string()), value: MetaValue::Str("my_name".to_string()) },
            MetaItem::Path { name: Some("polymorphic_variant".to_string()) },
            MetaItem::NameValue { name: Some("tag".to_string()), value: MetaValue::Str("T".to_string()) },
        ]),
        attr(vec![MetaItem::List { name: Some("name".to_string()) }]),
    ];
    let a = OCamlAttributes::from_attrs(&attrs).unwrap();
    assert_eq!(a.get_name(), &Some("my_name".to_string()));
    assert_eq!(a.get_tag(), &Some("T".to_string()));
    assert!(a.is_polymorphic_variant());
    let bad = vec![attr(vec![MetaItem::NameValue { name: None, value: MetaValue::OtherLit }])];
    let e = OCamlAttributes::from_attrs(&bad).unwrap_err();
    assert_eq!(e.message, "Attribute 'unknown': Unknown attribute in #[ocaml(...)]");
    let not_str = vec![attr(vec![MetaItem::NameValue { name: Some("as_".to_string()), value: MetaValue::OtherLit }])];
    let e = OCamlAttributes::from_attrs(&not_str).unwrap_err();
    assert_eq!(e.to_string(), "Attribute 'as_': Expected string literal for 'as_'");
    let listed = vec![attr(vec![MetaItem::List { name: None }])];
    assert_eq!(OCamlAttributes::from_attrs(&listed).unwrap_err().message, "Unsupported attribute format inside #[ocaml(...)]");
    let none = OCamlAttributes::from_attrs(&vec![]).unwrap();
    assert_eq!(none.get_name(), &None);
    assert!(!none.is_polymorphic_variant());
}

fn variant(name: &str, tag: Option<&str>, kind: VariantKind) -> VariantRep {
    let mut attrs: OCamlAttributes = Default::default();
    attrs.tag = tag.map(|t| t.to_string());
    VariantRep { ident: name.to_string(), fields: vec![], attrs, kind }
}

#[test]
fn type_validation() {
    let mut poly_attrs: OCamlAttributes = Default::default();
    poly_attrs.polymorphic_variant = true;
    let s = TypeRep { ident: "S".to_string(), ocaml_target_type: "S".to_string(), attrs: poly_attrs, data: TypeRepData::Struct { fields: vec![FieldRep { ident: None, attrs: Default::default() }] } };
    let e = validate_type_rep(&s).unwrap_err();
    assert_eq!(e.message, "attribute validation: polymorphic_variant: #[ocaml(polymorphic_variant)] is only applicable on enum types only, but was used on non-enum type.");
    let empty = TypeRep { ident: "E".to_string(), ocaml_target_type: "E".to_string(), attrs: Default::default(), data: TypeRepData::Enum { variants: vec![], kind: EnumKind::Regular } };
    assert_eq!(validate_type_rep(&empty).unwrap_err().message, "enum must have at least one variant: Empty enums are not supported in OCaml interop");
    let tagged = TypeRep {
        ident: "E".to_string(),
        ocaml_target_type: "E".to_string(),
        attrs: Default::default(),
        data: TypeRepData::Enum { variants: vec![variant("A", None, VariantKind::Unit), variant("B", Some("b"), VariantKind::Unit)], kind: EnumKind::Regular },
    };
    let e = validate_type_rep(&tagged).unwrap_err();
    assert_eq!(e.message, "attribute validation: tag=\"b\": #[ocaml(tag=\"b\")] is only applicable on variants of a polymorphic enum (i.e. enum has #[ocaml(polymorphic_variant)]), but was used on variant 'B' in a regular enum.");
    let fine = TypeRep {
        ident: "E".to_string(),
        ocaml_target_type: "E".to_string(),
        attrs: Default::default(),
        data: TypeRepData::Enum { variants: vec![variant("B", Some("b"), VariantKind::Unit)], kind: EnumKind::Polymorphic },
    };
    assert!(validate_type_rep(&fine).is_ok());
    assert_eq!(format_type("Vec < Option < T > , U >".to_string()), "Vec<Option<T>, U>");
}

fn other_arg() -> ProcessedArg {
    ProcessedArg { pattern: "n".to_string(), type_detail: InteropTypeDetail::Primitive(PrimitiveInteropType::I64) }
}

fn fn_data() -> ExportedFnData {
    ExportedFnData {
        bytecode_fn_name: None,
        no_panic_catch: false,
        runtime_arg_ty: RuntimeArgType::Reference { path: Some("OCamlRuntime".to_string()), mutable: true },
        noalloc: false,
        native_fn_name: "f".to_string(),
        processed_args: vec![other_arg()],
        return_interop_detail: InteropTypeDetail::Primitive(PrimitiveInteropType::I64),
        is_public: true,
        is_async: false,
        has_generics: false,
        is_variadic: false,
        abi: None,
    }
}

#[test]
fn export_validation() {
    assert_eq!(validate_parsed_data(&fn_data()), Ok(()));
    let mut d = fn_data();
    d.noalloc = true;
    assert_eq!(validate_parsed_data(&d), Err(ExportError::MutableRuntimeWithNoalloc));
    let mut d = fn_data();
    d.processed_args = vec![];
    assert_eq!(validate_parsed_data(&d), Err(ExportError::NoArguments));
    let mut d = fn_data();
    d.processed_args = vec![other_arg(), ProcessedArg { pattern: "u".to_string(), type_detail: InteropTypeDetail::Unit }];
    assert_eq!(validate_parsed_data(&d), Err(ExportError::UnitArgument));
    let mut d = fn_data();
    d.return_interop_detail = InteropTypeDetail::BoxRoot(Box::new(TypeModel::Tuple { len: 0 }));
    assert_eq!(validate_parsed_data(&d), Err(ExportError::BoxRootReturn));
    let mut d = fn_data();
    d.abi = Some(Some("system".to_string()));
    assert_eq!(validate_parsed_data(&d), Err(ExportError::UnsupportedAbi));
    assert_eq!(ExportError::UnsupportedAbi.message(), "Exported functions must use `extern \"C\"` or `extern \"C-unwind\"` ABI. Other ABIs are not supported.");
    let mut d = fn_data();
    d.abi = Some(Some("C-unwind".to_string()));
    d.is_async = true;
    assert_eq!(validate_parsed_data(&d), Err(ExportError::Async));
    assert_eq!(validate_runtime_argument(&None, false), Err(ExportError::MissingRuntime));
    assert_eq!(validate_runtime_argument(&Some(FirstArg::Receiver), false), Err(ExportError::ReceiverRuntime));
    let imm = Some(FirstArg::Typed(RuntimeArgType::Reference { path: Some(":: ocaml_interop :: OCamlRuntime".to_string()), mutable: false }));
    assert_eq!(validate_runtime_argument(&imm, false), Err(ExportError::ImmutableRuntime));
    assert_eq!(validate_runtime_argument(&imm, true), Ok(()));
}

#[test]
fn interop_type_classification() {
    let prim = get_interop_type_detail(TypeModel::Path { qself: false, last: Some(("isize".to_string(), GenericArgs::NoArgs)) }).unwrap();
    assert!(prim.is_primitive());
    assert_eq!(prim.get_rust_to_ocaml_fn_name(), Ok("make_ocaml_int"));
    assert_eq!(prim.get_ocaml_to_rust_fn_name(), Ok("int_val"));
    let unit = get_interop_type_detail(TypeModel::Tuple { len: 0 }).unwrap();
    assert_eq!(unit.kind(), InteropKind::Unit);
    let boxroot = TypeModel::Path {
        qself: false,
        last: Some(("BoxRoot".to_string(), GenericArgs::Angle(Some(Box::new(TypeModel::Tuple { len: 0 }))))),
    };
    assert_eq!(get_interop_type_detail(boxroot).unwrap().kind(), InteropKind::BoxRoot);
    let boxroot_ret = TypeModel::Path {
        qself: false,
        last: Some(("BoxRoot".to_string(), GenericArgs::Angle(Some(Box::new(TypeModel::Tuple { len: 0 }))))),
    };
    assert_eq!(get_interop_type_detail(boxroot_ret).unwrap().kind(), InteropKind::BoxRoot);
    let unknown = get_interop_type_detail(TypeModel::Path { qself: false, last: Some(("u8".to_string(), GenericArgs::NoArgs)) });
    assert_eq!(unknown.err().unwrap().message, "Unsupported type identifier: `u8`. Must be a primitive, OCaml<T>, or BoxRoot<T> (for arguments).");
    let ocaml_no_arg = get_interop_type_detail(TypeModel::Path { qself: false, last: Some(("OCaml".to_string(), GenericArgs::Parenthesized)) });
    assert_eq!(ocaml_no_arg.err().unwrap().message, "OCaml<T> type argument T must be angle bracketed");
    assert!(matches!(PrimitiveInteropType::F64, PrimitiveInteropType::F64));
}

#[test]
fn enum_layouts() {
    let kinds = vec![VariantKind::Tuple, VariantKind::Unit, VariantKind::Struct, VariantKind::Unit];
    assert_eq!(
        regular_enum_layout(&kinds),
        vec![VariantEncoding::Block(0), VariantEncoding::Immediate(0), VariantEncoding::Block(1), VariantEncoding::Immediate(1)]
    );
}

#[test]
fn export_error_messages() {
    assert_eq!(ExportError::NotPublic.message(), "Exported functions must be public (`pub`).");
    assert_eq!(
        ExportError::UnsupportedAbi.message(),
        "Exported functions must use `extern \"C\"` or `extern \"C-unwind\"` ABI. Other ABIs are not supported."
    );
}

#[test]
fn conversion_function_names() {
    let int32 = get_interop_type_detail(TypeModel::Path { qself: false, last: Some(("i32".to_string(), GenericArgs::NoArgs)) }).unwrap();
    assert_eq!(int32.get_ocaml_to_rust_fn_name(), Ok("int32_val"));
    assert_eq!(int32.get_rust_to_ocaml_fn_name(), Ok("alloc_int32"));
    let boolean = get_interop_type_detail(TypeModel::Path { qself: false, last: Some(("bool".to_string(), GenericArgs::NoArgs)) }).unwrap();
    assert_eq!(boolean.get_rust_to_ocaml_fn_name(), Ok("make_ocaml_bool"));
    let unit = get_interop_type_detail(TypeModel::Tuple { len: 0 }).unwrap();
    assert_eq!(
        unit.get_ocaml_to_rust_fn_name(),
        Err("Internal error: get_ocaml_to_rust_fn_name called on non-primitive type")
    );
}

#[test]
fn interop_type_errors() {
    let pair = get_interop_type_detail(TypeModel::Tuple { len: 2 });
    assert_eq!(
        pair.err().unwrap().message,
        "Tuple types are not directly supported. For multiple return values, consider returning a struct wrapped in OCaml<T>."
    );
    let boxroot_missing = get_interop_type_detail(TypeModel::Path { qself: false, last: Some(("BoxRoot".to_string(), GenericArgs::Angle(None))) });
    assert_eq!(boxroot_missing.err().unwrap().message, "BoxRoot<T> type argument T is missing or not a type");
    let other = get_interop_type_detail(TypeModel::Other { text: "[u8; 4]".to_string() });
    assert_eq!(
        other.err().unwrap().message,
        "Unsupported type structure: `[u8; 4]`. Must be a primitive, OCaml<T>, BoxRoot<T> (for arguments), or `()` (for return types)."
    );
    let qualified = get_interop_type_detail(TypeModel::Path { qself: true, last: None });
    assert_eq!(qualified.err().unwrap().message, "Qualified self types are not supported.");
}

#[test]
fn tuples_of_three_and_four() {
    let mut cr = OCamlRuntime::new();
    let t: OCaml<(OCamlInt, OCamlInt, OCamlInt)> = alloc_tuple(&mut cr, 3);
    assert_eq!(t.size(&cr), 3);
    assert_eq!(t.tag_value(&cr), 0);
    assert_eq!(t.fst(&cr).raw(), 1);
    assert_eq!(t.tuple_3(&cr).raw(), 1);
    let q: OCaml<(OCamlInt, OCamlInt, OCamlInt, OCamlInt)> =
        alloc_fields(&mut cr, 0, vec![ocaml_int(1), ocaml_int(2), ocaml_int(3), ocaml_int(4)]);
    assert_eq!(q.fst(&cr).to_i64(), 1);
    assert_eq!(q.snd(&cr).to_i64(), 2);
    assert_eq!(q.tuple_3(&cr).to_i64(), 3);
    assert_eq!(q.tuple_4(&cr).to_i64(), 4);
}

#[test]
fn bigarray_kinds() {
    assert_eq!(<u8 as BigarrayElt>::kind(), 3);
    assert_eq!(<i64 as BigarrayElt>::kind(), 7);
    assert_eq!(<char as BigarrayElt>::kind(), 12);
}

fn path_type(name: &str) -> TypeModel {
    TypeModel::Path { qself: false, last: Some((name.to_string(), GenericArgs::NoArgs)) }
}

fn ocaml_of(inner: TypeModel) -> TypeModel {
    TypeModel::Path { qself: false, last: Some(("OCaml".to_string(), GenericArgs::Angle(Some(Box::new(inner))))) }
}

fn signature(runtime_mutable: bool, args: Vec<FnArgModel>, output: Option<TypeModel>) -> FnSignatureModel {
    FnSignatureModel {
        name: "exported".to_string(),
        is_public: true,
        is_async: false,
        has_generics: false,
        is_variadic: false,
        abi: None,
        runtime_arg: Some(FirstArg::Typed(RuntimeArgType::Reference {
            path: Some("OCamlRuntime".to_string()),
            mutable: runtime_mutable,
        })),
        args,
        output,
    }
}

fn flag(name: &str) -> MetaItem {
    MetaItem::Path { name: Some(name.to_string()) }
}

#[test]
fn export_attributes_are_read() {
    let items = vec![
        MetaItem::NameValue { name: Some("bytecode".to_string()), value: MetaValue::Str("f_byte".to_string()) },
        flag("no_panic_catch"),
        flag("noalloc"),
    ];
    let a = parse_export_attributes(&items).unwrap();
    assert_eq!(a.bytecode, Some("f_byte".to_string()));
    assert!(a.no_panic_catch);
    assert!(a.noalloc);
    let none = parse_export_attributes(&vec![]).unwrap();
    assert_eq!(none.bytecode, None);
    assert!(!none.noalloc);
}

#[test]
fn export_attribute_errors() {
    let twice = parse_export_attributes(&vec![flag("noalloc"), flag("noalloc")]);
    assert_eq!(twice.err().unwrap().message, "'noalloc' attribute specified multiple times");
    let listed = parse_export_attributes(&vec![MetaItem::List { name: Some("no_panic_catch".to_string()) }]);
    assert_eq!(
        listed.err().unwrap().message,
        "'no_panic_catch' attribute should be a bare path (e.g., #[attr(no_panic_catch)]), not a name-value or list"
    );
    let bare_bytecode = parse_export_attributes(&vec![flag("bytecode")]);
    assert_eq!(
        bare_bytecode.err().unwrap().message,
        "'bytecode' attribute must be a name-value pair (e.g., bytecode = \"my_func_byte\")"
    );
    let number = parse_export_attributes(&vec![MetaItem::NameValue { name: Some("bytecode".to_string()), value: MetaValue::OtherLit }]);
    assert_eq!(
        number.err().unwrap().message,
        "'bytecode' attribute value must be a string literal (e.g., bytecode = \"value\")"
    );
    let unknown = parse_export_attributes(&vec![flag("inline")]);
    assert_eq!(
        unknown.err().unwrap().message,
        "unsupported attribute 'inline', only 'bytecode', 'no_panic_catch' and 'noalloc' are supported"
    );
    let long_path = parse_export_attributes(&vec![MetaItem::Path { name: None }]);
    assert_eq!(
        long_path.err().unwrap().message,
        "unsupported attribute '?', only 'bytecode', 'no_panic_catch' and 'noalloc' are supported"
    );
}

#[test]
fn export_definition_is_read_and_checked() {
    let sig = signature(true, vec![typed_arg(path_type("f64")), typed_arg(ocaml_of(path_type("String")))], Some(path_type("i64")));
    let d = parse_export_definition(&vec![], sig).unwrap();
    assert_eq!(d.native_fn_name, "exported");
    assert_eq!(d.processed_args.len(), 2);
    assert_eq!(d.processed_args[0].pattern, "x");
    assert!(matches!(d.processed_args[0].type_detail, InteropTypeDetail::Primitive(PrimitiveInteropType::F64)));
    assert!(matches!(d.processed_args[1].type_detail, InteropTypeDetail::OCaml(_)));
    assert!(matches!(d.return_interop_detail, InteropTypeDetail::Primitive(PrimitiveInteropType::I64)));
    assert_eq!(validate_parsed_data(&d), Ok(()));

    let only_runtime = parse_export_definition(&vec![], signature(true, vec![], None)).unwrap();
    assert_eq!(only_runtime.return_interop_detail.kind(), InteropKind::Unit);
    assert_eq!(validate_parsed_data(&only_runtime), Err(ExportError::NoArguments));
    assert_eq!(
        ExportError::NoArguments.message(),
        "OCaml functions must take at least one argument in addition to the OCamlRuntime."
    );

    let noalloc_mutable = parse_export_definition(&vec![flag("noalloc")], signature(true, vec![typed_arg(ocaml_of(TypeModel::Tuple { len: 0 }))], None)).unwrap();
    assert_eq!(validate_parsed_data(&noalloc_mutable), Err(ExportError::MutableRuntimeWithNoalloc));
    let alloc_immutable = parse_export_definition(&vec![], signature(false, vec![typed_arg(ocaml_of(TypeModel::Tuple { len: 0 }))], None)).unwrap();
    assert_eq!(validate_parsed_data(&alloc_immutable), Err(ExportError::ImmutableRuntime));
}

#[test]
fn export_definition_errors() {
    let mut no_runtime = signature(true, vec![], None);
    no_runtime.runtime_arg = None;
    assert_eq!(
        parse_export_definition(&vec![], no_runtime).err().unwrap().message,
        "Exported functions must take an OCamlRuntime as their first argument."
    );
    let mut receiver = signature(true, vec![], None);
    receiver.runtime_arg = Some(FirstArg::Receiver);
    assert_eq!(
        parse_export_definition(&vec![], receiver).err().unwrap().message,
        "OCamlRuntime argument cannot be a receiver (self)."
    );
    let self_arg = signature(true, vec![FnArgModel::Receiver], None);
    assert_eq!(
        parse_export_definition(&vec![], self_arg).err().unwrap().message,
        "Receiver arguments (`self`) are not supported in ocaml_interop::export functions."
    );
    let bad_then_worse = signature(true, vec![typed_arg(path_type("u8")), FnArgModel::Receiver], None);
    assert_eq!(
        parse_export_definition(&vec![], bad_then_worse).err().unwrap().message,
        "Unsupported type identifier: `u8`. Must be a primitive, OCaml<T>, or BoxRoot<T> (for arguments)."
    );
    let bad_result = signature(true, vec![typed_arg(path_type("i64"))], Some(TypeModel::Reference));
    assert_eq!(
        parse_export_definition(&vec![], bad_result).err().unwrap().message,
        "Reference types are not directly supported. Consider using OCaml<T> or BoxRoot<T>."
    );
    let attr_first = signature(true, vec![FnArgModel::Receiver], None);
    assert_eq!(
        parse_export_definition(&vec![flag("bogus")], attr_first).err().unwrap().message,
        "unsupported attribute 'bogus', only 'bytecode', 'no_panic_catch' and 'noalloc' are supported"
    );
}

#[test]
fn inner_types_and_primitives() {
    assert_eq!(
        extract_inner_type_from_path(Some(("Vec".to_string(), GenericArgs::NoArgs)), "OCaml").err().unwrap().message,
        "Expected type wrapper OCaml, found Vec"
    );
    assert_eq!(
        extract_inner_type_from_path(None, "BoxRoot").err().unwrap().message,
        "Type path for BoxRoot must have segments"
    );
    assert!(matches!(get_primitive_type("bool"), Ok(PrimitiveInteropType::Bool)));
    assert_eq!(get_primitive_type("u16").err().unwrap().message, "Unsupported primitive type: `u16`");
}

#[test]
fn interop_error_messages() {
    let a = OCamlInteropError::attribute_error_spanned(Some("tag".to_string()), "bad".to_string());
    assert_eq!(a.to_string(), "Attribute 'tag': bad");
    let b = OCamlInteropError::attribute_error_spanned(None, "bad".to_string());
    assert_eq!(b.to_string(), "bad");
    let c = OCamlInteropError::validation_error_spanned("broken".to_string(), Some("check".to_string()));
    assert_eq!(c.to_string(), "check: broken");
    assert_eq!(OCamlInteropError::type_error_spanned("t".to_string()).message, "t");
}

fn ocaml_attr(items: Vec<MetaItem>) -> AttrModel {
    AttrModel { is_ocaml: true, items }
}

fn as_attr(text: &str) -> AttrModel {
    ocaml_attr(vec![MetaItem::NameValue { name: Some("as_".to_string()), value: MetaValue::Str(text.to_string()) }])
}

#[test]
fn derive_input_is_read() {
    let input = DeriveInputModel {
        ident: "Movement".to_string(),
        attrs: vec![ocaml_attr(vec![MetaItem::Path { name: Some("polymorphic_variant".to_string()) }])],
        data: DataModel::Enum(vec![
            VariantModel { ident: "Step".to_string(), attrs: vec![], fields: FieldsModel::Unnamed(vec![FieldModel { ident: None, attrs: vec![as_attr("OCamlInt")] }]) },
            VariantModel { ident: "Stop".to_string(), attrs: vec![], fields: FieldsModel::Unit },
            VariantModel { ident: "Empty".to_string(), attrs: vec![], fields: FieldsModel::Named(vec![]) },
        ]),
    };
    let t = parse_input(&input).unwrap();
    assert_eq!(t.ident, "Movement");
    assert_eq!(t.ocaml_target_type, "Movement");
    match t.data {
        TypeRepData::Enum { variants, kind } => {
            assert_eq!(kind, EnumKind::Polymorphic);
            assert_eq!(variants.len(), 3);
            assert_eq!(variants[0].kind, VariantKind::Tuple);
            assert_eq!(variants[0].fields[0].attrs.as_, Some("OCamlInt".to_string()));
            assert_eq!(variants[1].kind, VariantKind::Unit);
            assert_eq!(variants[2].kind, VariantKind::Unit);
        }
        _ => panic!("expected an enum"),
    }
    let record = DeriveInputModel {
        ident: "Point".to_string(),
        attrs: vec![as_attr("point")],
        data: DataModel::Struct(FieldsModel::Named(vec![FieldModel { ident: Some("x".to_string()), attrs: vec![] }])),
    };
    let t = parse_input(&record).unwrap();
    assert_eq!(t.ocaml_target_type, "point");
    assert!(matches!(t.data, TypeRepData::Struct { ref fields } if fields.len() == 1 && fields[0].ident == Some("x".to_string())));
}

#[test]
fn derive_input_errors() {
    let union = DeriveInputModel { ident: "U".to_string(), attrs: vec![], data: DataModel::Union };
    assert_eq!(parse_input(&union).err().unwrap().message, "Unions are not supported by OCaml interop derive macros");
    let bad_type_text = DeriveInputModel { ident: "T".to_string(), attrs: vec![as_attr("(")], data: DataModel::Union };
    assert_eq!(
        parse_input(&bad_type_text).err().unwrap().message,
        "Attribute 'as_': Failed to parse type string '(' from attribute #[ocaml(as_ = \"...\")]: cannot parse string into token stream"
    );
    let bad_field = FieldModel { ident: Some("f".to_string()), attrs: vec![as_attr("[")] };
    assert_eq!(
        parse_field(&bad_field).err().unwrap().message,
        "Failed to parse OCaml type override '[': cannot parse string into token stream"
    );
    let bad_variant_attr = DeriveInputModel {
        ident: "E".to_string(),
        attrs: vec![],
        data: DataModel::Enum(vec![VariantModel {
            ident: "A".to_string(),
            attrs: vec![ocaml_attr(vec![MetaItem::Path { name: Some("frozen".to_string()) }])],
            fields: FieldsModel::Unit,
        }]),
    };
    assert_eq!(parse_input(&bad_variant_attr).err().unwrap().message, "Attribute 'frozen': Unknown flag attribute in #[ocaml(...)]");
    let good_field = FieldModel { ident: None, attrs: vec![as_attr("(OCamlInt, String)")] };
    assert_eq!(parse_field(&good_field).unwrap().attrs.as_, Some("(OCamlInt, String)".to_string()));
}

#[test]
fn polymorphic_tag_hashes() {
    assert_eq!(hash_variant("A"), 131);
    assert_eq!(hash_variant("A\0B"), hash_variant("A"));
    let plain = variant("A", None, VariantKind::Unit);
    assert_eq!(polytag_hash(&plain), 131);
    let tagged = variant("A", Some("b"), VariantKind::Unit);
    assert_eq!(polytag_hash(&tagged), 2 * 98 + 1);
}

#[test]
fn describer_names_of_derived_types() {
    let plain: OCamlAttributes = Default::default();
    assert_eq!(ocaml_type_name_of(&plain, "MySimpleStruct"), "my_simple_struct");
    assert_eq!(ocaml_type_name_of(&plain, "MyMultiGeneric"), "my_multi_generic");
    let mut named: OCamlAttributes = Default::default();
    named.name = Some("custom_name_for_struct".to_string());
    assert_eq!(ocaml_type_name_of(&named, "MyRenamedStruct"), "custom_name_for_struct");
    assert_eq!(applied_type_name_of("my_simple_struct", &vec![]), "my_simple_struct");
    assert_eq!(applied_type_name_of("my_generic_struct", &vec!["int".to_string()]), "int my_generic_struct");
    assert_eq!(
        applied_type_name_of("my_multi_generic", &vec!["int".to_string(), "string".to_string(), "bool".to_string()]),
        "(int, string, bool) my_multi_generic"
    );
}

#[test]
fn export_reading_and_checking() {
    let ok = signature(true, vec![typed_arg(path_type("i64"))], Some(path_type("i64")));
    assert!(export_internal_logic(&vec![], ok).is_ok());
    let unit_arg = signature(true, vec![typed_arg(TypeModel::Tuple { len: 0 })], None);
    assert_eq!(
        export_internal_logic(&vec![], unit_arg).err().unwrap().message,
        "Unit type `()` is not a supported argument type directly. Use OCaml<()> if needed for placeholder."
    );
    let boxroot_result = signature(
        true,
        vec![typed_arg(path_type("i64"))],
        Some(TypeModel::Path { qself: false, last: Some(("BoxRoot".to_string(), GenericArgs::Angle(Some(Box::new(path_type("String")))))) }),
    );
    assert_eq!(
        export_internal_logic(&vec![], boxroot_result).err().unwrap().message,
        "BoxRoot<T> cannot be used as a return type directly. Return OCaml<T> instead."
    );
    let mut private = signature(true, vec![typed_arg(path_type("i64"))], None);
    private.is_public = false;
    assert_eq!(export_internal_logic(&vec![], private).err().unwrap().message, "Exported functions must be public (`pub`).");
}

fn typed_arg(ty: TypeModel) -> FnArgModel {
    FnArgModel::Typed { pattern: "x".to_string(), ty }
}

#[test]
fn export_plans() {
    let mut d = fn_data();
    let plan = export_plan(fn_data());
    assert_eq!(plan.symbol, "f");
    assert!(plan.catch_panics);
    assert!(!plan.shared_runtime);
    assert_eq!(plan.bytecode_symbol, None);
    assert_eq!(plan.arg_conversions.len(), 1);
    d.noalloc = true;
    d.bytecode_fn_name = Some("f_byte".to_string());
    let plan = export_plan(d);
    assert!(!plan.catch_panics);
    assert!(plan.shared_runtime);
    assert_eq!(plan.bytecode_symbol, Some("f_byte".to_string()));
    let mut d = fn_data();
    d.no_panic_catch = true;
    assert!(!export_plan(d).catch_panics);
}

#[test]
fn polymorphic_variant_reading() {
    let variants = vec![
        variant("Stop", None, VariantKind::Unit),
        VariantRep { ident: "Step".to_string(), fields: vec![FieldRep { ident: None, attrs: Default::default() }], attrs: Default::default(), kind: VariantKind::Tuple },
        VariantRep {
            ident: "Expand".to_string(),
            fields: vec![
                FieldRep { ident: Some("w".to_string()), attrs: Default::default() },
                FieldRep { ident: Some("h".to_string()), attrs: Default::default() },
            ],
            attrs: Default::default(),
            kind: VariantKind::Struct,
        },
    ];
    let arms = polymorphic_decoder(&variants);
    assert_eq!(arms.len(), 3);
    assert_eq!(arms[0], PolyArm { hash: hash_variant("Stop"), unit: true, payload_fields: 0, tupled: false });
    assert_eq!(arms[1], PolyArm { hash: hash_variant("Step"), unit: false, payload_fields: 1, tupled: false });
    assert_eq!(arms[2], PolyArm { hash: hash_variant("Expand"), unit: false, payload_fields: 2, tupled: true });
    let mut cr = OCamlRuntime::new();
    assert_eq!(read_polymorphic_variant(&cr, hash_variant("Stop"), &arms), Ok((0, vec![])));
    assert_eq!(read_polymorphic_variant(&cr, hash_variant("Go"), &arms), Err(PolyVariantError::UnknownUnitVariant));
    let step: OCaml<()> = alloc_fields(&mut cr, 0, vec![hash_variant("Step"), ocaml_int(5)]);
    assert_eq!(read_polymorphic_variant(&cr, step.raw(), &arms), Ok((1, vec![ocaml_int(5)])));
    let other: OCaml<()> = alloc_fields(&mut cr, 0, vec![hash_variant("Jump"), ocaml_int(5)]);
    assert_eq!(read_polymorphic_variant(&cr, other.raw(), &arms), Err(PolyVariantError::UnknownTag));
    let triple: OCaml<()> = alloc_fields(&mut cr, 0, vec![hash_variant("Step"), 1, 1]);
    assert_eq!(read_polymorphic_variant(&cr, triple.raw(), &arms), Err(PolyVariantError::NotPolymorphicVariant));
    let payload_only = polymorphic_decoder(&vec![VariantRep { ident: "Step".to_string(), fields: vec![FieldRep { ident: None, attrs: Default::default() }], attrs: Default::default(), kind: VariantKind::Tuple }]);
    assert_eq!(read_polymorphic_variant(&cr, 1, &payload_only), Err(PolyVariantError::NoUnitVariants));
}

#[test]
fn dune_project_paths() {
    let ancestors = vec![("/a/b".to_string(), false), ("/a".to_string(), true), ("/".to_string(), true)];
    assert_eq!(find_dune_project_location(&ancestors), Some("/a".to_string()));
    assert_eq!(find_dune_project_location(&vec![("/x".to_string(), false)]), None);
    let s = |v: &[&str]| v.iter().map(|x| x.to_string()).collect::<Vec<String>>();
    assert_eq!(dir_relative_to_dune_project(&s(&["/", "a", "b", "ocaml"]), &s(&["/", "a"])), Some(s(&["b", "ocaml"])));
    assert_eq!(dir_relative_to_dune_project(&s(&["/", "a"]), &s(&["/", "a"])), Some(vec![]));
    assert_eq!(dir_relative_to_dune_project(&s(&["/", "ab"]), &s(&["/", "a"])), None);
    assert_eq!(dir_relative_to_dune_project(&s(&["/"]), &s(&["/", "a"])), None);
}

#[test]
fn enum_encodings_read_back() {
    let kinds = vec![VariantKind::Tuple, VariantKind::Unit, VariantKind::Struct, VariantKind::Unit];
    let layout = regular_enum_layout(&kinds);
    for (i, e) in layout.iter().enumerate() {
        assert_eq!(decode_regular_variant(&kinds, *e), Some(i));
    }
    assert_eq!(decode_regular_variant(&kinds, VariantEncoding::Immediate(1)), Some(3));
    assert_eq!(decode_regular_variant(&kinds, VariantEncoding::Block(1)), Some(2));
    assert_eq!(decode_regular_variant(&kinds, VariantEncoding::Block(5)), None);
}
