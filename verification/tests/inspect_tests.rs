use ocaml_interop::inspect::{inspect_raw_value, ValueInspector, ValueRepr};
use ocaml_interop::memory::{alloc_bytes, alloc_closure, alloc_fields, alloc_string};
use ocaml_interop::mlvalues::{EMPTY_LIST, FALSE, NONE, TRUE, UNIT};
use ocaml_interop::{OCaml, OCamlRuntime};

fn inspect(raw: isize) -> ValueInspector {
    let cr = OCamlRuntime::new();
    inspect_raw_value(&cr, raw)
}

#[test]
fn test_immediate_value_interpretation() {
    let ocaml_int_5 = (5 << 1) | 1;
    let inspector = inspect(ocaml_int_5);
    match inspector.repr() {
        ValueRepr::Immediate { value, interpretation } => {
            assert_eq!(*value, ocaml_int_5);
            assert!(interpretation.contains("integer 5"));
        }
        _ => panic!("Expected immediate value"),
    }
}

#[test]
fn test_unit_value() {
    let inspector = inspect(UNIT);
    match inspector.repr() {
        ValueRepr::Immediate { interpretation, .. } => {
            assert!(interpretation.contains("unit"));
        }
        _ => panic!("Expected immediate value for unit"),
    }
}

#[test]
fn test_boolean_values() {
    let true_inspector = inspect(TRUE);
    match true_inspector.repr() {
        ValueRepr::Immediate { interpretation, .. } => {
            assert!(interpretation.contains("true"));
        }
        _ => panic!("Expected immediate value for true"),
    }
    let false_inspector = inspect(FALSE);
    match false_inspector.repr() {
        ValueRepr::Immediate { interpretation, .. } => {
            assert!(interpretation.contains("false"));
        }
        _ => panic!("Expected immediate value for false"),
    }
}

#[test]
fn inspector_test_compact_representation() {
    let inspector = inspect((42 << 1) | 1);
    let compact = inspector.compact();
    assert!(compact.contains("42"));
    assert!(!compact.contains('\n'));
}

#[test]
fn test_immediate_values() {
    let int_zero = inspect((0_isize << 1) | 1);
    match int_zero.repr() {
        ValueRepr::Immediate { value, interpretation } => {
            assert_eq!(*value, 1);
            assert!(interpretation.contains("integer 0"));
        }
        _ => panic!("Expected immediate value for zero"),
    }
    let int_positive = inspect((42_isize << 1) | 1);
    match int_positive.repr() {
        ValueRepr::Immediate { value, interpretation } => {
            assert_eq!(*value, 85);
            assert!(interpretation.contains("integer 42"));
        }
        _ => panic!("Expected immediate value for 42"),
    }
    let int_negative = inspect((-10_isize << 1) | 1);
    match int_negative.repr() {
        ValueRepr::Immediate { value, interpretation } => {
            assert_eq!(*value, -19);
            assert!(interpretation.contains("integer -10"));
        }
        _ => panic!("Expected immediate value for -10"),
    }
}

#[test]
fn test_special_values() {
    for (raw, word) in [(UNIT, "unit"), (TRUE, "true"), (FALSE, "false"), (EMPTY_LIST, "empty list"), (NONE, "None")] {
        match inspect(raw).repr() {
            ValueRepr::Immediate { interpretation, .. } => {
                assert!(interpretation.contains(word));
            }
            _ => panic!("Expected immediate value"),
        }
    }
}

#[test]
fn test_value_type_checks() {
    let int_val = inspect((123_isize << 1) | 1);
    assert!(int_val.repr().is_immediate());
    assert!(!int_val.repr().is_block());
    assert!(!int_val.repr().is_string());
    assert!(!int_val.repr().is_custom());
    assert!(!int_val.repr().is_error());
    assert_eq!(int_val.repr().value_type_name(), "immediate");
}

#[test]
fn integration_tests_test_compact_representation() {
    let int_val = inspect((999_isize << 1) | 1);
    let compact = int_val.compact();
    assert!(compact.contains("999"));
    assert!(!compact.contains('\n'));
    let full = int_val.to_string();
    assert!(compact.len() <= full.len());
}

#[test]
fn test_display_and_debug() {
    let int_val = inspect((456_isize << 1) | 1);
    let display_str = int_val.to_string();
    assert!(display_str.contains("456"));
    let debug_str = format!("{:?}", int_val);
    assert!(debug_str.contains("ValueInspector"));
}

#[test]
fn test_value_repr_display() {
    let int_val = inspect((789_isize << 1) | 1);
    let display_str = int_val.repr().to_string();
    assert!(display_str.contains("Immediate"));
    assert!(display_str.contains("789"));
}

#[test]
fn test_large_integers() {
    let large_positive = inspect((1000000_isize << 1) | 1);
    match large_positive.repr() {
        ValueRepr::Immediate { interpretation, .. } => {
            assert!(interpretation.contains("integer 1000000"));
        }
        _ => panic!("Expected immediate value for large positive"),
    }
    let large_negative = inspect((-500000_isize << 1) | 1);
    match large_negative.repr() {
        ValueRepr::Immediate { interpretation, .. } => {
            assert!(interpretation.contains("integer -500000"));
        }
        _ => panic!("Expected immediate value for large negative"),
    }
}

#[test]
fn test_error_representation() {
    let error_repr = ValueRepr::Error { message: "Test error message".to_string() };
    assert!(error_repr.is_error());
    assert!(!error_repr.is_immediate());
    assert_eq!(error_repr.value_type_name(), "error");
    let display_str = error_repr.to_string();
    assert!(display_str.contains("Error: Test error message"));
}

#[test]
fn test_inspector_clone() {
    let int_val = inspect((42_isize << 1) | 1);
    let cloned = int_val.clone();
    match (int_val.repr(), cloned.repr()) {
        (
            ValueRepr::Immediate { value: v1, interpretation: i1 },
            ValueRepr::Immediate { value: v2, interpretation: i2 },
        ) => {
            assert_eq!(v1, v2);
            assert_eq!(i1, i2);
        }
        _ => panic!("Expected both to be immediate values"),
    }
}

#[test]
fn test_multiple_inspections() {
    let raw_val = (100_isize << 1) | 1;
    let inspect1 = inspect(raw_val);
    let inspect2 = inspect(raw_val);
    assert_eq!(inspect1.to_string(), inspect2.to_string());
    assert_eq!(inspect1.compact(), inspect2.compact());
}

#[test]
fn inspect_exact_immediate_texts() {
    assert_eq!(inspect(TRUE).to_string(), "Immediate(3): integer 1 (likely boolean true)");
    assert_eq!(
        inspect(UNIT).compact(),
        "integer 0 (could be: unit, boolean false, empty list, None)"
    );
    assert_eq!(inspect((-7 << 1) | 1).compact(), "integer -7");
}

#[test]
fn inspect_blocks_and_strings() {
    let mut cr = OCamlRuntime::new();
    let s: OCaml<String> = alloc_string(&mut cr, "hello");
    let pair: OCaml<(String, i64)> = alloc_fields(&mut cr, 0, vec![s.raw(), (3 << 1) | 1]);
    let ins = inspect_raw_value(&cr, pair.raw());
    match ins.repr() {
        ValueRepr::Block { tag, size, fields, interpretation } => {
            assert_eq!(*tag, 0);
            assert_eq!(*size, 2);
            assert_eq!(interpretation, "pair tuple or record");
            assert_eq!(fields.len(), 2);
            match &fields[0] {
                ValueRepr::String { content, byte_length } => {
                    assert_eq!(content, "hello");
                    assert_eq!(*byte_length, 5);
                }
                _ => panic!("expected a string"),
            }
        }
        _ => panic!("expected a block"),
    }
    let compact = ins.compact();
    assert_eq!(compact, "pair tuple or record [\"hello\", integer 3]");
    let shown = ins.to_string();
    assert!(shown.starts_with("Block(tag=0, size=2): pair tuple or record [0: String(5 bytes): \"hello\""));
    assert!(shown.ends_with("1: Immediate(7): integer 3]"));
}

#[test]
fn inspect_closures_and_variants() {
    let mut cr = OCamlRuntime::new();
    let c = alloc_closure(&mut cr, 3);
    assert_eq!(inspect_raw_value(&cr, c).to_string(), "Custom(tag=247, size=3): function closure");
    let v: OCaml<()> = alloc_fields(&mut cr, 2, vec![1]);
    assert_eq!(
        inspect_raw_value(&cr, v.raw()).compact(),
        "variant constructor with tag 2 [integer 0 (could be: unit, boolean false, empty list, None)]"
    );
    let many: Vec<isize> = (0..12).map(|i| (i << 1) | 1).collect();
    let big: OCaml<()> = alloc_fields(&mut cr, 0, many);
    let ins = inspect_raw_value(&cr, big.raw());
    match ins.repr() {
        ValueRepr::Block { fields, interpretation, .. } => {
            assert_eq!(interpretation, "tuple/record with 12 fields");
            assert_eq!(fields.len(), 11);
            assert_eq!(fields[10].to_string(), "Error: ... and 2 more fields");
        }
        _ => panic!("expected a block"),
    }
    assert!(ins.compact().ends_with(", ...]"));
}

#[test]
fn inspect_depth_limit() {
    let mut cr = OCamlRuntime::new();
    let mut v: isize = 1;
    for _ in 0..10 {
        let b: OCaml<()> = alloc_fields(&mut cr, 0, vec![v]);
        v = b.raw();
    }
    let ins = inspect_raw_value(&cr, v);
    assert!(ins.to_string().contains("Error: Maximum inspection depth (8) exceeded"));
    assert!(ins.compact().contains("..."));
}

#[test]
fn display_shortens_long_strings() {
    let long = "x".repeat(60);
    let r = ValueRepr::String { content: long, byte_length: 60 };
    assert_eq!(r.to_string(), format!("String(60 bytes): \"{}...\"", "x".repeat(50)));
    let quoted = ValueRepr::String { content: "a\"b".to_string(), byte_length: 3 };
    assert_eq!(quoted.to_string(), "String(3 bytes): \"a\\\"b\"");
}

#[test]
fn inspect_string_reads_the_text() {
    let mut cr = OCamlRuntime::new();
    let s: OCaml<String> = alloc_string(&mut cr, "héllo");
    match inspect_raw_value(&cr, s.raw()).repr() {
        ValueRepr::String { content, byte_length } => {
            assert_eq!(content, "héllo");
            assert_eq!(*byte_length, 6);
        }
        _ => panic!("expected a string"),
    }
    let b = alloc_bytes(&mut cr, &[0x66, 0xff]);
    match inspect_raw_value(&cr, b.raw()).repr() {
        ValueRepr::String { content, byte_length } => {
            assert_eq!(content, "f\u{fffd}");
            assert_eq!(*byte_length, 2);
        }
        _ => panic!("expected a string"),
    }
}
