use eis::oid::{CommitId, ObjectId, TreeId};

fn sample() -> [u8; 20] {
    [
        0x01, 0x23, 0x45, 0x67, 0x89, 0xab, 0xcd, 0xef, 0x00, 0xff, 0x10, 0x0f, 0xde, 0xad, 0xbe,
        0xef, 0x7f, 0x80, 0x0a, 0xa0,
    ]
}

#[test]
fn identity_reads_its_bytes_most_significant_first() {
    let id = ObjectId::from_bytes(&sample());
    assert_eq!(id.w0, 0x0123_4567);
    assert_eq!(id.w1, 0x89ab_cdef);
    assert_eq!(id.w2, 0x00ff_100f);
    assert_eq!(id.w3, 0xdead_beef);
    assert_eq!(id.w4, 0x7f80_0aa0);
}

#[test]
fn identity_gives_its_bytes_back() {
    let id = ObjectId::from_bytes(&sample());
    assert_eq!(id.to_bytes(), sample());
    let all = ObjectId::from_bytes(&[0xff; 20]);
    assert_eq!(all.to_bytes(), [0xff; 20]);
    let none = ObjectId::from_bytes(&[0; 20]);
    assert_eq!(none.to_bytes(), [0; 20]);
}

#[test]
fn identity_from_a_slice_needs_twenty_bytes() {
    assert_eq!(ObjectId::from_slice(&sample()), Some(ObjectId::from_bytes(&sample())));
    assert_eq!(ObjectId::from_slice(&sample()[..19]), None);
    assert_eq!(ObjectId::from_slice(&[0u8; 21]), None);
    assert_eq!(ObjectId::from_slice(&[]), None);
}

#[test]
fn identities_with_different_bytes_differ() {
    let mut other = sample();
    other[19] = 0xa1;
    assert_ne!(ObjectId::from_bytes(&sample()), ObjectId::from_bytes(&other));
    let mut first = sample();
    first[0] = 0x81;
    assert_ne!(ObjectId::from_bytes(&sample()), ObjectId::from_bytes(&first));
}

#[test]
fn identity_renders_as_forty_lowercase_hex_digits() {
    let id = ObjectId::from_bytes(&sample());
    assert_eq!(id.to_hex(), "0123456789abcdef00ff100fdeadbeef7f800aa0");
    assert_eq!(CommitId(id).to_hex(), "0123456789abcdef00ff100fdeadbeef7f800aa0");
    assert_eq!(TreeId(id).to_hex(), "0123456789abcdef00ff100fdeadbeef7f800aa0");
    assert_eq!(ObjectId::from_bytes(&[0; 20]).to_hex(), "0".repeat(40));
    assert_eq!(ObjectId::from_bytes(&[0xff; 20]).to_hex(), "f".repeat(40));
}

#[test]
fn identity_renders_as_the_engine_does() {
    let oid = git2::Oid::from_bytes(&sample()).unwrap();
    assert_eq!(ObjectId::from_bytes(&sample()).to_hex(), oid.to_string());
}

#[test]
fn commit_and_tree_identities_are_read_from_slices() {
    let id = ObjectId::from_bytes(&sample());
    assert_eq!(CommitId::from_slice(&sample()), Some(CommitId(id)));
    assert_eq!(TreeId::from_slice(&sample()), Some(TreeId(id)));
    assert_eq!(CommitId::from_slice(&sample()[1..]), None);
    assert_eq!(TreeId::from_slice(&[0u8; 32]), None);
}
