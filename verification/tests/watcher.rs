use eis::oid::{CommitId, ObjectId};
use eis::watcher::{file_in, shadow_target, STAGING_FILE};

#[test]
fn a_file_lies_in_its_directory() {
    assert_eq!(file_in("/work/project/.git/", STAGING_FILE), "/work/project/.git/eis-index");
    assert_eq!(file_in("/work/project/.git", STAGING_FILE), "/work/project/.git/eis-index");
    assert_eq!(file_in("/", "x"), "/x");
    assert_eq!(file_in("", "x"), "x");
    assert_eq!(file_in("d\u{e9}p\u{f4}t", "index"), "d\u{e9}p\u{f4}t/index");
}

#[test]
fn a_file_lies_where_the_engine_would_put_it() {
    for dir in ["/work/project/.git/", "/work/project/.git", "relative", ""] {
        let joined = std::path::Path::new(dir).join(STAGING_FILE);
        assert_eq!(file_in(dir, STAGING_FILE), joined.to_str().unwrap());
    }
}

#[test]
fn an_answer_of_twenty_bytes_is_the_pointers_target() {
    let mut bytes = [0u8; 20];
    bytes[0] = 0xab;
    bytes[19] = 0x01;
    assert_eq!(
        shadow_target(Some(&bytes)),
        Some(CommitId(ObjectId { w0: 0xab00_0000, w1: 0, w2: 0, w3: 0, w4: 1 }))
    );
}

#[test]
fn no_answer_and_a_malformed_answer_are_no_target() {
    assert_eq!(shadow_target(None), None);
    assert_eq!(shadow_target(Some(&[0u8; 19])), None);
    assert_eq!(shadow_target(Some(&[0u8; 21])), None);
    assert_eq!(shadow_target(Some(&[])), None);
}
