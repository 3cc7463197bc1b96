use rkvm_input::device::DeviceSpec;

fn spec(name: Option<&str>, vendor_id: Option<u16>, product_id: Option<u16>) -> DeviceSpec {
    DeviceSpec {
        name: name.map(|n| n.as_bytes().to_vec()),
        vendor_id,
        product_id,
    }
}

#[test]
fn empty_spec_matches_everything() {
    let s = spec(None, None, None);
    assert!(s.matches(&b"Some Keyboard".to_vec(), &0x046d, &0xc52b));
    assert!(s.matches(&Vec::new(), &0, &0));
    assert!(s.matches(&b"anything".to_vec(), &u16::MAX, &u16::MAX));
}

#[test]
fn name_only_spec_ignores_identifiers() {
    let s = spec(Some("Some Keyboard"), None, None);
    assert!(s.matches(&b"Some Keyboard".to_vec(), &1, &2));
    assert!(s.matches(&b"Some Keyboard".to_vec(), &9999, &0));
    assert!(!s.matches(&b"Other Keyboard".to_vec(), &1, &2));
    assert!(!s.matches(&b"Some KeyboarD".to_vec(), &1, &2));
}

#[test]
fn vendor_only_spec_ignores_rest() {
    let s = spec(None, Some(0x046d), None);
    assert!(s.matches(&b"a".to_vec(), &0x046d, &7));
    assert!(s.matches(&b"b".to_vec(), &0x046d, &8));
    assert!(!s.matches(&b"a".to_vec(), &0x046e, &7));
}

#[test]
fn product_only_spec_ignores_rest() {
    let s = spec(None, None, Some(0xc52b));
    assert!(s.matches(&b"a".to_vec(), &1, &0xc52b));
    assert!(s.matches(&b"b".to_vec(), &2, &0xc52b));
    assert!(!s.matches(&b"a".to_vec(), &1, &0xc52c));
}

#[test]
fn full_spec_needs_all_three() {
    let s = spec(Some("Some Keyboard"), Some(0x046d), Some(0xc52b));
    assert!(s.matches(&b"Some Keyboard".to_vec(), &0x046d, &0xc52b));
    assert!(!s.matches(&b"Other".to_vec(), &0x046d, &0xc52b));
    assert!(!s.matches(&b"Some Keyboard".to_vec(), &0x046e, &0xc52b));
    assert!(!s.matches(&b"Some Keyboard".to_vec(), &0x046d, &0xc52c));
}

#[test]
fn full_spec_one_field_flips_independently() {
    let s = spec(Some("K"), Some(10), Some(20));
    // With the other two fields matching, correcting the one mismatched
    // input flips the result on its own.
    assert!(!s.matches(&b"X".to_vec(), &10, &20));
    assert!(s.matches(&b"K".to_vec(), &10, &20));
    assert!(!s.matches(&b"K".to_vec(), &11, &20));
    assert!(s.matches(&b"K".to_vec(), &10, &20));
    assert!(!s.matches(&b"K".to_vec(), &10, &21));
}

#[test]
fn name_comparison_is_byte_exact() {
    let s = spec(Some("event"), None, None);
    assert!(s.matches(&b"event".to_vec(), &0, &0));
    assert!(!s.matches(&b"event ".to_vec(), &0, &0));
    assert!(!s.matches(&b"even".to_vec(), &0, &0));
    assert!(!s.matches(&b"Event".to_vec(), &0, &0));

    let empty = spec(Some(""), None, None);
    assert!(empty.matches(&Vec::new(), &0, &0));
    assert!(!empty.matches(&b"x".to_vec(), &0, &0));
}
