//! Tests of the polling watcher's change detection over stat fingerprints.

use tls_reload::watch::{PathFingerprint, PollState};

fn file(device: u64, inode: u64, mtime_secs: u64, size: u64) -> PathFingerprint {
    PathFingerprint { exists: true, device, inode, mtime_secs, mtime_nanos: 0, size }
}

#[test]
fn polling_detects_create() {
    let mut poll = PollState::new(3);
    let absent = PathFingerprint::absent();

    // nothing exists yet: the first scan confirms the initial state
    assert!(!poll.observe(&vec![absent, absent, absent]));

    // the trust anchors file appears
    assert!(poll.observe(&vec![file(1, 10, 100, 0), absent, absent]));
    assert!(!poll.observe(&vec![file(1, 10, 100, 0), absent, absent]));

    // the end-entity certificate appears
    assert!(poll.observe(&vec![file(1, 10, 100, 0), file(1, 11, 101, 0), absent]));

    // the private key appears
    assert!(poll.observe(&vec![file(1, 10, 100, 0), file(1, 11, 101, 0), file(1, 12, 102, 0)]));
}

#[test]
fn polling_detects_modification() {
    let mut poll = PollState::new(3);
    let start = vec![file(1, 10, 100, 27), file(1, 11, 100, 26), file(1, 12, 100, 29)];
    assert!(poll.observe(&start));

    // an in-place write moves the mtime
    assert!(poll.observe(&vec![file(1, 10, 200, 19), file(1, 11, 100, 26), file(1, 12, 100, 29)]));

    // a same-second write still changes the size
    assert!(poll.observe(&vec![file(1, 10, 200, 41), file(1, 11, 100, 26), file(1, 12, 100, 29)]));

    // no change, no tick
    assert!(!poll.observe(&vec![file(1, 10, 200, 41), file(1, 11, 100, 26), file(1, 12, 100, 29)]));
}

#[test]
fn polling_detects_replace_by_rename() {
    let mut poll = PollState::new(1);
    assert!(poll.observe(&vec![file(1, 10, 100, 25)]));

    // atomic rename: same mtime and size, new inode
    assert!(poll.observe(&vec![file(1, 77, 100, 25)]));
}

#[test]
fn polling_detects_delete_and_recreate() {
    let mut poll = PollState::new(3);
    let absent = PathFingerprint::absent();
    let start = vec![file(1, 10, 100, 27), file(1, 11, 100, 26), file(1, 12, 100, 25)];
    assert!(poll.observe(&start));

    // the private key disappears
    assert!(poll.observe(&vec![file(1, 10, 100, 27), file(1, 11, 100, 26), absent]));

    // and is recreated with a new inode
    assert!(poll.observe(&vec![file(1, 10, 100, 27), file(1, 11, 100, 26), file(1, 40, 300, 23)]));
}

#[test]
fn polling_detects_double_symlink_retargeting() {
    let mut poll = PollState::new(3);
    // the three paths resolve through a directory symlink into data dir A
    let via_a = vec![file(8, 100, 50, 27), file(8, 101, 50, 26), file(8, 102, 50, 25)];
    assert!(poll.observe(&via_a));
    assert!(!poll.observe(&via_a));

    // the intermediate symlink is atomically retargeted to data dir B:
    // the stat-follow now reaches different inodes, equal mtimes and sizes
    let via_b = vec![file(8, 200, 50, 27), file(8, 201, 50, 26), file(8, 202, 50, 25)];
    assert!(poll.observe(&via_b));

    // exactly one tick: the next scan sees no further transition
    assert!(!poll.observe(&via_b));
}

#[test]
fn permission_error_counts_as_absent_until_it_clears() {
    let mut poll = PollState::new(1);
    assert!(poll.observe(&vec![file(1, 10, 100, 27)]));

    // a stat failure is recorded like a missing path
    assert!(poll.observe(&vec![PathFingerprint::absent()]));

    // when it clears, a tick fires again
    assert!(poll.observe(&vec![file(1, 10, 100, 27)]));
}
