use std::collections::HashSet;

use scoped_db::ident::WorkspaceId;

fn counting_bytes() -> [u8; 16] {
    let mut b = [0u8; 16];
    for (i, x) in b.iter_mut().enumerate() {
        *x = (i as u8) * 17;
    }
    b
}

#[test]
fn simple_renders_bytes_in_order() {
    let id = WorkspaceId::from_bytes(counting_bytes());
    assert_eq!(id.simple(), "00112233445566778899aabbccddeeff");
}

#[test]
fn simple_of_zero_and_max() {
    assert_eq!(WorkspaceId::from_bytes([0u8; 16]).simple(), "0".repeat(32));
    assert_eq!(WorkspaceId::from_bytes([255u8; 16]).simple(), "f".repeat(32));
}

#[test]
fn simple_of_mixed_bytes() {
    let b = [
        0x12, 0xab, 0x00, 0x0f, 0xf0, 0x9a, 0x4c, 0x3e, 0x81, 0x7d, 0x20, 0x05, 0x60, 0xbe, 0xef, 0x01,
    ];
    assert_eq!(
        WorkspaceId::from_bytes(b).simple(),
        "12ab000ff09a4c3e817d200560beef01"
    );
}

#[test]
fn bytes_round_trip() {
    let b = counting_bytes();
    assert_eq!(WorkspaceId::from_bytes(b).bytes(), b);
}

#[test]
fn generated_ids_carry_version_and_variant() {
    for _ in 0..100 {
        let id = WorkspaceId::generate();
        let b = id.bytes();
        assert_eq!(b[6] >> 4, 4);
        assert_eq!(b[8] >> 6, 2);
        let s = id.simple();
        assert_eq!(s.len(), 32);
        assert!(s.chars().all(|c| c.is_ascii_digit() || ('a'..='f').contains(&c)));
        assert_eq!(s.as_bytes()[12], b'4');
        assert!(matches!(s.as_bytes()[16], b'8' | b'9' | b'a' | b'b'));
    }
}

#[test]
fn generated_ids_are_distinct() {
    let mut seen = HashSet::new();
    for _ in 0..10000 {
        let id = WorkspaceId::generate();
        assert!(seen.insert(id.simple()));
    }
}

#[test]
fn distinct_bytes_render_distinctly() {
    let mut b = [0u8; 16];
    let a = WorkspaceId::from_bytes(b).simple();
    b[15] = 1;
    assert_ne!(a, WorkspaceId::from_bytes(b).simple());
}
