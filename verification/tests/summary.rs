use eis::oid::{CommitId, ObjectId};
use eis::summary::{
    chosen_parent, decode_commits, next_commit, patch_of, render_line, render_patch_line, Change,
    HistoryEntry, PatchLine, WalkEnd, DEFAULT_LIMIT,
};

fn commit(n: u32) -> CommitId {
    CommitId(ObjectId { w0: n, w1: 0, w2: 0, w3: 0, w4: 1 })
}

#[test]
fn the_walk_takes_ten_steps_by_default() {
    assert_eq!(DEFAULT_LIMIT, 10);
}

#[test]
fn every_change_has_its_marker() {
    assert_eq!(Change::Added.marker(), "+");
    assert_eq!(Change::Deleted.marker(), "-");
    assert_eq!(Change::Modified.marker(), "M");
    assert_eq!(Change::Renamed.marker(), "R");
    assert_eq!(Change::Copied.marker(), "C");
    assert_eq!(Change::Ignored.marker(), "I");
    assert_eq!(Change::Untracked.marker(), "U");
    assert_eq!(Change::Typechange.marker(), "T");
    assert_eq!(Change::Unreadable.marker(), "X");
    assert_eq!(Change::Conflicted.marker(), "!");
    assert_eq!(Change::Unmodified.marker(), " ");
}

#[test]
fn a_line_is_marker_space_and_text() {
    assert_eq!(render_line(Change::Added, "hello\n"), "+ hello\n");
    assert_eq!(render_line(Change::Unmodified, "same"), "  same");
    assert_eq!(render_line(Change::Conflicted, ""), "! ");
}

#[test]
fn a_patch_line_is_read_as_text() {
    assert_eq!(render_patch_line(Change::Modified, b"x = 1\n"), "M x = 1\n");
    assert_eq!(render_patch_line(Change::Deleted, "caf\u{e9}".as_bytes()), "- caf\u{e9}");
}

#[test]
fn bytes_that_are_no_text_are_replaced() {
    assert_eq!(render_patch_line(Change::Added, &[b'a', 0xff, b'b']), "+ a\u{fffd}b");
    assert_eq!(render_patch_line(Change::Added, &[0xc3]), "+ \u{fffd}");
}

#[test]
fn the_walk_follows_the_second_of_several_parents() {
    assert_eq!(chosen_parent(&vec![]), None);
    assert_eq!(chosen_parent(&vec![commit(1)]), Some(commit(1)));
    assert_eq!(chosen_parent(&vec![commit(1), commit(2)]), Some(commit(2)));
    assert_eq!(chosen_parent(&vec![commit(1), commit(2), commit(3)]), Some(commit(2)));
}

#[test]
fn identities_are_decoded_one_for_one_and_in_order() {
    let mut first = vec![0u8; 20];
    first[3] = 7;
    let mut second = vec![0u8; 20];
    second[19] = 9;
    let decoded = decode_commits(&vec![first.clone(), second.clone()]).unwrap();
    assert_eq!(decoded.len(), 2);
    assert_eq!(decoded[0], CommitId(ObjectId { w0: 7, w1: 0, w2: 0, w3: 0, w4: 0 }));
    assert_eq!(decoded[1], CommitId(ObjectId { w0: 0, w1: 0, w2: 0, w3: 0, w4: 9 }));
    assert_eq!(decode_commits(&vec![]), Some(vec![]));
}

#[test]
fn a_run_of_another_length_spells_no_identity() {
    assert_eq!(decode_commits(&vec![vec![0u8; 20], vec![0u8; 19]]), None);
    assert_eq!(decode_commits(&vec![vec![0u8; 21]]), None);
    assert_eq!(decode_commits(&vec![vec![]]), None);
}

#[test]
fn a_patch_line_renders_with_its_marker() {
    let line = PatchLine { change: Change::Deleted, content: b"old\n".to_vec() };
    assert_eq!(line.render(), "- old\n");
    let broken = PatchLine { change: Change::Renamed, content: vec![0xff] };
    assert_eq!(broken.render(), "R \u{fffd}");
}

#[test]
fn an_entry_renders_its_commit_and_then_its_patch() {
    let entry = HistoryEntry {
        commit: CommitId(ObjectId { w0: 0xdead_beef, w1: 0, w2: 0, w3: 0, w4: 0x1f }),
        parents: vec![commit(1)],
        parent: commit(1),
        patch: vec![
            PatchLine { change: Change::Modified, content: b"a\n".to_vec() },
            PatchLine { change: Change::Added, content: b"b\n".to_vec() },
        ],
    };
    assert_eq!(
        entry.render(),
        vec![
            "deadbeef0000000000000000000000000000001f\n".to_string(),
            "M a\n".to_string(),
            "+ b\n".to_string(),
        ]
    );
    let bare = HistoryEntry { commit: commit(2), parents: vec![], parent: commit(2), patch: vec![] };
    assert_eq!(bare.render().len(), 1);
}

#[test]
fn a_commit_without_parents_ends_the_walk_without_a_failure() {
    assert_eq!(next_commit(&vec![]), Err(WalkEnd::RootReached));
    assert_eq!(next_commit(&vec![commit(1)]), Ok(commit(1)));
    assert_eq!(next_commit(&vec![commit(1), commit(2)]), Ok(commit(2)));
}

#[test]
fn a_patch_keeps_every_line_of_the_engine() {
    let raw = vec![
        (git2::Delta::Added, b"one\n".to_vec()),
        (git2::Delta::Deleted, b"two\n".to_vec()),
        (git2::Delta::Modified, vec![0xff, 0x00]),
        (git2::Delta::Renamed, vec![]),
        (git2::Delta::Copied, b"c".to_vec()),
        (git2::Delta::Ignored, b"i".to_vec()),
        (git2::Delta::Untracked, b"u".to_vec()),
        (git2::Delta::Typechange, b"t".to_vec()),
        (git2::Delta::Unreadable, b"x".to_vec()),
        (git2::Delta::Conflicted, b"!".to_vec()),
        (git2::Delta::Unmodified, b" ".to_vec()),
    ];
    let patch = patch_of(&raw);
    assert_eq!(patch.len(), raw.len());
    for (line, (_, content)) in patch.iter().zip(raw.iter()) {
        assert_eq!(&line.content, content);
    }
    let changes: Vec<Change> = patch.iter().map(|line| line.change).collect();
    assert_eq!(
        changes,
        vec![
            Change::Added,
            Change::Deleted,
            Change::Modified,
            Change::Renamed,
            Change::Copied,
            Change::Ignored,
            Change::Untracked,
            Change::Typechange,
            Change::Unreadable,
            Change::Conflicted,
            Change::Unmodified,
        ]
    );
    assert_eq!(patch_of(&vec![]).len(), 0);
}
