use ocaml_interop::conv::traits::{IntoRust, OCamlFromRust, OCamlToRust, ToRust};
use ocaml_interop::conv::{FromOCaml, ToOCaml};
use ocaml_interop::error::OCamlFixnumConversionError;
use ocaml_interop::memory::{alloc_bytes, alloc_cons, alloc_fields, alloc_int32, alloc_string, OCamlCell, OCamlGenerationalRoot, OCamlGlobalRoot};
use ocaml_interop::mlvalues::{int_val, max_fixnum, min_fixnum, val_int, EMPTY_LIST, NONE, TRUE, UNIT};
use ocaml_interop::{BoxRoot, OCaml, OCamlBytes, OCamlInt, OCamlInt32, OCamlInt64, OCamlList, OCamlRuntime, OCamlUniformArray};

#[test]
fn ints_round_trip_as_ocaml_ints() {
    let mut cr = OCamlRuntime::new();
    for n in [0i64, 1, -1, 42, -1000, 1 << 40, -(1 << 40)] {
        let v: OCaml<OCamlInt> = n.to_ocaml(&mut cr);
        assert_eq!(v.raw(), ((n << 1) | 1) as isize);
        let back: i64 = v.to_rust(&cr);
        assert_eq!(back, n);
    }
    assert_eq!(cr.heap_len(), 0);
}

#[test]
fn i32_reads_the_low_bits() {
    let cr = OCamlRuntime::new();
    let v: OCaml<OCamlInt> = OCaml::new(&cr, (((1i64 << 33) + 5) << 1 | 1) as isize);
    let r: i32 = v.to_rust(&cr);
    assert_eq!(r, 5);
}

#[test]
fn a_too_large_int_loses_its_top_bit() {
    let mut cr = OCamlRuntime::new();
    let v: OCaml<OCamlInt> = i64::MAX.to_ocaml(&mut cr);
    let back: i64 = v.to_rust(&cr);
    assert_eq!(back, -1);
}

#[test]
fn fixnum_conversion_checks_the_range() {
    let ok = OCaml::<OCamlInt>::of_i64(7).unwrap();
    assert_eq!(ok.raw(), 15);
    let max = max_fixnum() as i64;
    let min = min_fixnum() as i64;
    assert!(OCaml::<OCamlInt>::of_i64(max).is_ok());
    assert!(OCaml::<OCamlInt>::of_i64(min).is_ok());
    match OCaml::<OCamlInt>::of_i64(max + 1) {
        Err(OCamlFixnumConversionError::InputTooBig(n)) => assert_eq!(n, max + 1),
        _ => panic!("expected InputTooBig"),
    }
    match OCaml::<OCamlInt>::of_i64(min - 1) {
        Err(OCamlFixnumConversionError::InputTooSmall(n)) => assert_eq!(n, min - 1),
        _ => panic!("expected InputTooSmall"),
    }
    assert_eq!(OCaml::<OCamlInt>::of_i32(-3).raw(), -5);
    assert_eq!(val_int(21), 43);
    assert_eq!(int_val(-5), -3);
}

#[test]
fn bools_and_unit() {
    let mut cr = OCamlRuntime::new();
    let t: OCaml<bool> = true.to_ocaml(&mut cr);
    assert_eq!(t.raw(), TRUE);
    assert!(t.to_bool());
    assert!(!OCaml::of_bool(false).to_bool());
    let u: OCaml<()> = ().to_ocaml(&mut cr);
    assert_eq!(u.raw(), UNIT);
    assert_eq!(OCaml::unit().raw(), 1);
}

#[test]
fn strings_and_bytes() {
    let mut cr = OCamlRuntime::new();
    let s: OCaml<String> = "héllo".to_ocaml(&mut cr);
    assert!(s.is_block());
    assert_eq!(s.as_str(&cr), "héllo");
    assert_eq!(s.as_bytes(&cr), "héllo".as_bytes());
    let back: String = s.to_rust(&cr);
    assert_eq!(back, "héllo");
    let raw: Vec<u8> = s.to_rust(&cr);
    assert_eq!(raw, "héllo".as_bytes().to_vec());
    let b: OCaml<OCamlBytes> = vec![0xffu8, 0x41].to_ocaml(&mut cr);
    let bytes: Vec<u8> = b.to_rust(&cr);
    assert_eq!(bytes, vec![0xff, 0x41]);
    let invalid: OCaml<String> = OCaml::new(&cr, b.raw());
    let lossy: String = invalid.to_rust(&cr);
    assert_eq!(lossy, "\u{fffd}A");
    assert!(!<String as FromOCaml<OCamlBytes>>::can_read(&cr, b));
    let text: OCaml<OCamlBytes> = alloc_bytes(&mut cr, b"abc");
    assert!(<String as FromOCaml<OCamlBytes>>::can_read(&cr, text));
    let text_back: String = text.to_rust(&cr);
    assert_eq!(text_back, "abc");
    assert_eq!(text.as_str(&cr), "abc");
}

#[test]
fn boxed_integers() {
    let mut cr = OCamlRuntime::new();
    let a: OCaml<OCamlInt32> = 7i32.to_ocaml(&mut cr);
    let b: OCaml<OCamlInt64> = (-9i64).to_ocaml(&mut cr);
    let ra: i32 = a.to_rust(&cr);
    let rb: i64 = b.to_rust(&cr);
    assert_eq!((ra, rb), (7, -9));
    assert_eq!(a.tag_value(&cr), 255);
    assert_eq!(a.size(&cr), 2);
    let c = alloc_int32(&mut cr, 3);
    assert!(<i32 as FromOCaml<OCamlInt32>>::can_read(&cr, c));
    let not_boxed: OCaml<OCamlInt32> = OCaml::new(&cr, 5);
    assert!(!<i32 as FromOCaml<OCamlInt32>>::can_read(&cr, not_boxed));
}

#[test]
fn options_results_and_pairs() {
    let mut cr = OCamlRuntime::new();
    let some: OCaml<Option<String>> = Some("x".to_string()).to_ocaml(&mut cr);
    assert!(some.is_some());
    assert_eq!(some.tag_value(&cr), 0);
    let back: Option<String> = some.to_rust(&cr);
    assert_eq!(back, Some("x".to_string()));
    let none: OCaml<Option<String>> = None::<String>.to_ocaml(&mut cr);
    assert!(none.is_none());
    assert_eq!(none.raw(), NONE);
    let ok: OCaml<Result<OCamlInt, String>> = Ok::<i64, String>(5).to_ocaml(&mut cr);
    assert!(ok.is_ok(&cr));
    let err: OCaml<Result<OCamlInt, String>> = Err::<i64, String>("bad".to_string()).to_ocaml(&mut cr);
    assert!(err.is_error(&cr));
    let rok: Result<i64, String> = ok.to_rust(&cr);
    let rerr: Result<i64, String> = err.to_rust(&cr);
    assert_eq!(rok, Ok(5));
    assert_eq!(rerr, Err("bad".to_string()));
    let pair: OCaml<(String, OCamlInt)> = ("a".to_string(), 3i64).to_ocaml(&mut cr);
    let (f, s) = pair.to_tuple(&cr);
    assert_eq!(f.as_str(&cr), "a");
    assert_eq!(s.to_i64(), 3);
    let rp: (String, i64) = pair.to_rust(&cr);
    assert_eq!(rp, ("a".to_string(), 3));
    let boxed: OCaml<OCamlInt> = Box::new(11i64).to_ocaml(&mut cr);
    let rb: Box<i64> = boxed.to_rust(&cr);
    assert_eq!(*rb, 11);
}

#[test]
fn lists_and_arrays() {
    let mut cr = OCamlRuntime::new();
    let v: Vec<i64> = vec![3, 1, 2];
    let l: OCaml<OCamlList<OCamlInt>> = v.to_ocaml(&mut cr);
    let (h, t) = l.uncons(&cr).unwrap();
    assert_eq!(h.to_i64(), 3);
    assert_eq!(l.hd(&cr).unwrap().to_i64(), 3);
    assert_eq!(t.hd(&cr).unwrap().to_i64(), 1);
    let back: Vec<i64> = l.to_rust(&cr);
    assert_eq!(back, v);
    let empty: OCaml<OCamlList<OCamlInt>> = Vec::<i64>::new().to_ocaml(&mut cr);
    assert!(empty.is_empty());
    assert_eq!(empty.raw(), EMPTY_LIST);
    assert!(empty.uncons(&cr).is_none());
    let a: OCaml<OCamlUniformArray<OCamlInt>> = v.to_ocaml(&mut cr);
    assert_eq!(a.size(&cr), 3);
    let ab: Vec<i64> = a.to_rust(&cr);
    assert_eq!(ab, v);
    let strings: OCaml<OCamlList<String>> = vec!["p".to_string(), "q".to_string()].to_ocaml(&mut cr);
    let sb: Vec<String> = strings.to_rust(&cr);
    assert_eq!(sb, vec!["p".to_string(), "q".to_string()]);
    let one: OCaml<OCamlInt> = OCaml::new(&cr, 3);
    let nil: OCaml<OCamlList<OCamlInt>> = OCaml::nil();
    let cell = alloc_cons(&mut cr, one, nil);
    let read: Vec<i64> = cell.to_rust(&cr);
    assert_eq!(read, vec![1]);
    let bad: OCaml<OCamlList<OCamlInt>> = alloc_fields(&mut cr, 0, vec![3, 5]);
    assert!(!<Vec<i64> as FromOCaml<OCamlList<OCamlInt>>>::can_read(&cr, bad));
}

#[test]
fn conversion_traits_agree() {
    let mut cr = OCamlRuntime::new();
    let s: OCaml<String> = alloc_string(&mut cr, "t");
    let a: String = ToRust::to_rust(&s, &cr);
    let b: String = IntoRust::into_rust(s, &cr);
    let c: String = <String as OCamlToRust<String>>::ocaml_to_rust(&cr, s);
    assert_eq!((a.as_str(), b.as_str(), c.as_str()), ("t", "t", "t"));
    let v = <OCamlInt as OCamlFromRust<i64>>::ocaml_from_rust(&mut cr, &4);
    assert_eq!(v.to_i64(), 4);
}

#[test]
fn cells_and_roots() {
    let mut cr = OCamlRuntime::new();
    let s: OCaml<String> = alloc_string(&mut cr, "rooted");
    let cell = OCamlCell::new(s);
    assert_eq!(cell.get_raw(), s.raw());
    let read: String = cell.to_rust(&cr);
    assert_eq!(read, "rooted");
    let mut root = OCamlGlobalRoot::new(s);
    assert_eq!(root.get_ref().get_raw(), s.raw());
    let other: OCaml<String> = alloc_string(&mut cr, "other");
    root.set(other);
    assert_eq!(root.get_ref().get_raw(), other.raw());
    let mut groot = OCamlGenerationalRoot::new(s);
    groot.set(other);
    let gread: String = groot.get_ref().to_rust(&cr);
    assert_eq!(gread, "other");
}

#[test]
fn runtime_registry_and_checks() {
    let mut cr = OCamlRuntime::new();
    assert!(cr.check_wf());
    assert_eq!(cr.named_value("f"), None);
    cr.register_value("f", 7);
    cr.register_value("g", 9);
    cr.register_value("f", 11);
    assert_eq!(cr.named_value("f"), Some(11));
    assert_eq!(cr.named_value("g"), Some(9));
    let before = cr.heap_len();
    let r = cr.releasing_runtime(|| 5);
    assert_eq!(r, 5);
    assert_eq!(cr.heap_len(), before);
    let n = cr.with_domain_lock(|rt: &mut OCamlRuntime| rt.heap_len() + 1);
    assert_eq!(n, before + 1);
    assert!(OCamlRuntime::init_once(true).is_err());
    let guard = OCamlRuntime::init_once(false).unwrap();
    assert_eq!(guard.runtime().heap_len(), 0);
}

#[test]
fn unchecked_conversions() {
    let mut cr = OCamlRuntime::new();
    let s = alloc_string(&mut cr, "héllo");
    assert_eq!(s.as_str_unchecked(&cr), "héllo");
    let b = alloc_bytes(&mut cr, b"abc");
    assert_eq!(b.as_str_unchecked(&cr), "abc");
    assert_eq!(OCaml::<OCamlInt>::of_i64_unchecked(21).raw(), 43);
    assert_eq!(OCaml::<OCamlInt>::of_i64_unchecked(-1).to_i64(), -1);
    // The top bit does not survive the tagging.
    assert_eq!(OCaml::<OCamlInt>::of_i64_unchecked(i64::MAX).to_i64(), -1);
}

#[test]
fn boxroots_and_refs() {
    let mut cr = OCamlRuntime::new();
    let s = alloc_string(&mut cr, "rooted");
    let mut root = s.root();
    assert_eq!(root.get(&cr).raw(), s.raw());
    let t = alloc_string(&mut cr, "other");
    let cell = root.keep(t);
    assert_eq!(cell.get_raw(), t.raw());
    assert_eq!(root.get(&cr).as_str(&cr), "other");
    assert_eq!(cr.get(root.get_ref()).raw(), t.raw());
    let r = s.as_ref();
    assert_eq!(cr.get(&r).as_str(&cr), "rooted");
    let boxed: BoxRoot<OCamlInt> = 42i64.to_boxroot(&mut cr);
    assert_eq!(boxed.get(&cr).to_i64(), 42);
    let text = "hi".to_string();
    let boxed_text: BoxRoot<String> = text.to_boxroot(&mut cr);
    assert_eq!(boxed_text.get(&cr).as_str(&cr), "hi");
}

#[test]
fn fixnum_error_messages() {
    let big = OCaml::<OCamlInt>::of_i64(i64::MAX).err().unwrap();
    assert_eq!(
        big.to_string(),
        format!("Input value doesn't fit in OCaml fixnum n={} > MAX_FIXNUM={}", i64::MAX, isize::MAX / 2)
    );
    let small = OCaml::<OCamlInt>::of_i64(i64::MIN).err().unwrap();
    assert_eq!(
        small.to_string(),
        format!("Input value doesn't fit in OCaml fixnum n={} < MIN_FIXNUM={}", i64::MIN, isize::MIN / 2)
    );
}
