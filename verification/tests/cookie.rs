use std::collections::hash_map::DefaultHasher;
use std::hash::Hasher;

use srt_listener::address::{Address, IpAddress, TAG_V4, TAG_V6};
use srt_listener::cookie::cookie;
use srt_listener::latency::{Latency, NANOS_PER_MILLI};

fn digest(bytes: &[u8]) -> i32 {
    let mut hasher = DefaultHasher::new();
    hasher.write(bytes);
    hasher.finish() as i32
}

#[test]
fn v4_address_bytes_are_tag_host_port() {
    let addr = Address::V4 { ip: 0x7f00_0001, port: 9000 };
    assert_eq!(addr.to_bytes(), vec![4, 0x01, 0x00, 0x00, 0x7f, 0x28, 0x23]);
    assert_eq!(TAG_V4, 4);
}

#[test]
fn v6_address_bytes_are_tag_host_port_flow_scope() {
    let addr = Address::V6 {
        ip: 0x2001_0db8_0000_0000_0000_0000_0000_0001,
        port: 0x1234,
        flowinfo: 0x0a0b_0c0d,
        scope_id: 3,
    };
    let expected: Vec<u8> = vec![
        6, // tag
        0x01, 0, 0, 0, 0, 0, 0, 0, 0, 0, 0, 0, 0xb8, 0x0d, 0x01, 0x20, // host
        0x34, 0x12, // port
        0x0d, 0x0c, 0x0b, 0x0a, // flow label
        3, 0, 0, 0, // scope
    ];
    assert_eq!(addr.to_bytes(), expected);
    assert_eq!(TAG_V6, 6);
}

#[test]
fn cookie_is_the_truncated_digest_of_the_address_bytes() {
    let v4 = Address::V4 { ip: 0x7f00_0001, port: 9000 };
    assert_eq!(cookie(&v4), digest(&[4, 0x01, 0x00, 0x00, 0x7f, 0x28, 0x23]));

    let v6 = Address::V6 { ip: 1, port: 80, flowinfo: 0, scope_id: 0 };
    let mut bytes = vec![6u8, 1];
    bytes.extend_from_slice(&[0u8; 15]);
    bytes.extend_from_slice(&[80, 0]);
    bytes.extend_from_slice(&[0u8; 8]);
    assert_eq!(cookie(&v6), digest(&bytes));
}

#[test]
fn cookie_is_the_same_for_the_same_address() {
    let a = Address::V4 { ip: 0xc0a8_0001, port: 4200 };
    let b = Address::V4 { ip: 0xc0a8_0001, port: 4200 };
    assert_eq!(cookie(&a), cookie(&a));
    assert_eq!(cookie(&a), cookie(&b));

    let c = Address::V6 { ip: 0xfe80 << 112, port: 1, flowinfo: 7, scope_id: 2 };
    assert_eq!(cookie(&c), cookie(&c));
}

#[test]
fn cookie_depends_on_every_part_of_the_address() {
    let base = Address::V4 { ip: 0x0a00_0001, port: 5000 };
    let other_port = Address::V4 { ip: 0x0a00_0001, port: 5001 };
    let other_host = Address::V4 { ip: 0x0a00_0002, port: 5000 };
    assert_ne!(base.to_bytes(), other_port.to_bytes());
    assert_ne!(base.to_bytes(), other_host.to_bytes());
    assert_ne!(cookie(&base), cookie(&other_port));
    assert_ne!(cookie(&base), cookie(&other_host));

    let six = Address::V6 { ip: 0x0a00_0001, port: 5000, flowinfo: 0, scope_id: 0 };
    let six_flow = Address::V6 { ip: 0x0a00_0001, port: 5000, flowinfo: 1, scope_id: 0 };
    let six_scope = Address::V6 { ip: 0x0a00_0001, port: 5000, flowinfo: 0, scope_id: 1 };
    assert_ne!(six.to_bytes(), six_flow.to_bytes());
    assert_ne!(six.to_bytes(), six_scope.to_bytes());
    assert_ne!(six_flow.to_bytes(), six_scope.to_bytes());
    assert_ne!(cookie(&base), cookie(&six));
}

#[test]
fn host_addresses_compare_by_family_and_value() {
    assert_eq!(IpAddress::V4(1), IpAddress::V4(1));
    assert_ne!(IpAddress::V4(1), IpAddress::V6(1));
    assert_ne!(IpAddress::V6(1), IpAddress::V6(2));
}

#[test]
fn latency_counts_nanoseconds() {
    assert_eq!(NANOS_PER_MILLI, 1_000_000);
    assert_eq!(Latency::from_millis(0).nanos, 0);
    assert_eq!(Latency::from_millis(200).nanos, 200_000_000);
    assert_eq!(
        Latency::from_millis(u64::MAX).nanos,
        18_446_744_073_709_551_615_000_000u128
    );
    assert_eq!(Latency { nanos: 1_999_999 }.as_millis(), 1);
    assert_eq!(Latency { nanos: 999_999 }.as_millis(), 0);
    assert_eq!(Latency::from_millis(150).as_millis(), 150);
}

#[test]
fn larger_latency_wins() {
    let requested = Latency::from_millis(200);
    let configured = Latency::from_millis(120);
    assert_eq!(requested.max(configured), Latency::from_millis(200));
    assert_eq!(configured.max(requested), Latency::from_millis(200));
    assert_eq!(
        Latency::from_millis(80).max(configured),
        Latency::from_millis(120)
    );
    assert_eq!(configured.max(configured), configured);
    assert_eq!(
        Latency { nanos: 1 }.max(Latency { nanos: 0 }),
        Latency { nanos: 1 }
    );
}
