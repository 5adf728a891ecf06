use bindgen_example::Handle;
use bindgen_example::NativeHeap;
use bindgen_example::Sample;
use bindgen_example::sample;
use bindgen_example::std_string_const;

#[test]
fn greets_a_rustacean() {
    let mut heap = NativeHeap::startup();
    let h = sample::new(&mut heap, "a rustacean");
    assert!(!h.is_null());
    assert!(heap.is_live(&h));
    let out = sample::sayHi(&heap, &h);
    assert_eq!(out, b"hi a rustacean\n".to_vec());
    // The name itself is a contiguous run of the output.
    assert_eq!(&out[3..14], b"a rustacean");
    sample::delete(&mut heap, &h);
    assert!(!heap.is_live(&h));
}

#[test]
fn empty_name_is_legal() {
    let mut heap = NativeHeap::startup();
    let h = sample::new(&mut heap, "");
    assert!(!h.is_null());
    assert!(heap.is_live(&h));
    let out = sample::sayHi(&heap, &h);
    assert_eq!(out, b"hi \n".to_vec());
    sample::delete(&mut heap, &h);
    assert!(!heap.is_live(&h));
}

#[test]
fn embedded_nul_is_stored_and_emitted() {
    let mut heap = NativeHeap::startup();
    let name: &[u8] = b"\x00hidden";
    assert_eq!(name.len(), 7);
    let h = sample::new_from_bytes(&mut heap, name);
    let out = sample::sayHi(&heap, &h);
    // All seven bytes are stored and written out length-aware: the leading
    // NUL is emitted, nothing is truncated at it.
    assert_eq!(out.len(), 3 + 7 + 1);
    assert_eq!(out, b"hi \x00hidden\n".to_vec());
    assert_eq!(out[3], 0u8);
    sample::delete(&mut heap, &h);
}

#[test]
fn instances_are_independent() {
    let mut heap = NativeHeap::startup();
    let ha = sample::new(&mut heap, "alpha");
    let hb = sample::new(&mut heap, "beta");
    assert_ne!(ha, hb);
    assert_eq!(sample::sayHi(&heap, &ha), b"hi alpha\n".to_vec());
    assert_eq!(sample::sayHi(&heap, &hb), b"hi beta\n".to_vec());
    // Deleting one leaves the other live and its stored name untouched.
    sample::delete(&mut heap, &ha);
    assert!(!heap.is_live(&ha));
    assert!(heap.is_live(&hb));
    assert_eq!(sample::sayHi(&heap, &hb), b"hi beta\n".to_vec());
    sample::delete(&mut heap, &hb);
    assert!(!heap.is_live(&hb));
}

#[test]
fn one_mebibyte_name() {
    let mut heap = NativeHeap::startup();
    let buf: Vec<u8> = vec![b'x'; 1 << 20];
    let h = sample::new_from_bytes(&mut heap, &buf);
    assert!(!h.is_null());
    let out = sample::sayHi(&heap, &h);
    assert_eq!(out.len(), (1 << 20) + 4);
    assert_eq!(out[3], b'x');
    assert_eq!(out[out.len() - 2], b'x');
    sample::delete(&mut heap, &h);
    assert!(!heap.is_live(&h));
}

#[test]
fn buffer_is_only_borrowed_for_the_call() {
    let mut heap = NativeHeap::startup();
    let mut buf: Vec<u8> = b"borrowed".to_vec();
    let h = sample::new_from_bytes(&mut heap, &buf);
    // The construction copied the bytes: overwriting and freeing the
    // caller's buffer afterwards has no effect on the instance.
    for b in buf.iter_mut() {
        *b = 0;
    }
    drop(buf);
    let out = sample::sayHi(&heap, &h);
    assert_eq!(out, b"hi borrowed\n".to_vec());
    sample::delete(&mut heap, &h);
}

#[test]
fn null_handle_is_never_live() {
    let mut heap = NativeHeap::startup();
    let n = Handle::null();
    assert!(n.is_null());
    assert!(!heap.is_live(&n));
    // Still not live once the heap has seen allocations.
    let h = sample::new(&mut heap, "anyone");
    assert!(!heap.is_live(&n));
    sample::delete(&mut heap, &h);
    assert!(!heap.is_live(&n));
}

#[test]
fn delete_happens_exactly_once_per_new() {
    let mut heap = NativeHeap::startup();
    let h = sample::new(&mut heap, "once");
    // The lifecycle a caller must observe: live from `new` until the one
    // `delete`, dead forever after — later allocations never revive it.
    assert!(heap.is_live(&h));
    sample::delete(&mut heap, &h);
    assert!(!heap.is_live(&h));
    let h2 = sample::new(&mut heap, "later");
    assert!(!heap.is_live(&h));
    assert_ne!(h, h2);
    sample::delete(&mut heap, &h2);
}

#[test]
fn view_marshals_pointer_and_length() {
    let buf: &[u8] = b"abc";
    let v = std_string_const::from_slice(buf);
    assert_eq!(v.length, 3);
    assert_eq!(v.data, buf);

    let s = "caf\u{e9}";
    let v2 = std_string_const::from_str(s);
    // The length is the UTF-8 byte length, not the character count.
    assert_eq!(v2.length, 5);
    assert_eq!(v2.data, s.as_bytes());

    let v3 = std_string_const::from_str("");
    assert_eq!(v3.length, 0);
    assert_eq!(v3.data, b"");
}

#[test]
fn greeting_formula_is_exact() {
    let obj = Sample::construct(std_string_const::from_slice(b"Bob"));
    assert_eq!(obj.greeting(), b"hi Bob\n".to_vec());
    let empty = Sample::construct(std_string_const::from_slice(b""));
    assert_eq!(empty.greeting(), b"hi \n".to_vec());
}
