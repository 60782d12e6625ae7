use gardena_bnw::includable::{IncludableError, IpAddress, PubServiceInner};
use gardena_bnw::text::push_decimal;

#[test]
fn includable_ids_are_stable_and_freed() {
    let mut inner = PubServiceInner::new("lemonbeatd".to_string());
    let a = IpAddress::V6(0xfe80_0000_0000_0000_0000_0000_0000_0001);
    let b = IpAddress::V4(0x0a00_0001);
    let id_a = inner.includable_id(a).unwrap();
    let id_b = inner.includable_id(b).unwrap();
    assert_ne!(id_a, id_b);
    assert_eq!(inner.includable_id(a).unwrap(), id_a);
    assert_eq!(inner.address_from_includable_id(id_a), Some(a));
    assert_eq!(inner.remove_includable_device(a), Ok(()));
    assert_eq!(inner.address_from_includable_id(id_a), None);
    assert_eq!(
        inner.remove_includable_device(a),
        Err(IncludableError::AddressNotFound(a))
    );
    assert_eq!(inner.address_from_includable_id(id_b), Some(b));
}

#[test]
fn includable_device_events() {
    let mut inner = PubServiceInner::new("lemonbeatd".to_string());
    assert_eq!(inner.sequence(), 0);
    let a = IpAddress::V4(1);
    let e = inner.includable_device_event(a).unwrap();
    assert_eq!(e.sequence, 1);
    assert_eq!(e.service, "lemonbeatd");
    let id = inner.includable_id(a).unwrap();
    assert_eq!(e.path, format!("includable_device/{id}"));
    let again = inner.includable_device_event(a).unwrap();
    assert_eq!(again.sequence, 2);
    assert_eq!(again.path, e.path);
}

#[test]
fn many_includable_ids_are_distinct() {
    let mut inner = PubServiceInner::new(String::new());
    let mut ids = std::collections::BTreeSet::new();
    for n in 0..500u32 {
        let id = inner.includable_id(IpAddress::V4(n)).unwrap();
        assert!(ids.insert(id));
    }
}

#[test]
fn decimal_digits() {
    let mut s = String::from("x");
    push_decimal(&mut s, 0);
    push_decimal(&mut s, 65535);
    push_decimal(&mut s, u64::MAX);
    assert_eq!(s, format!("x065535{}", u64::MAX));
}
