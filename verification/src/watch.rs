//! The polling path watcher's change-detection state.
//!
//! A caller stats each watched path at a fixed interval, following
//! symlinks, and hands the results here as fingerprints. One tick is
//! emitted whenever any path's fingerprint transitions. The device and
//! inode pair is essential: an atomic replace-by-rename changes the inode
//! even when the mtime does not, and a retargeted directory symlink
//! changes what the stat-follow resolves to. A missing path is a valid
//! state with `exists` false; a stat the caller cannot perform is recorded
//! the same way, so a tick fires when it clears.

use vstd::prelude::*;

verus! {

/// What one stat of a path revealed.
#[derive(Clone, Copy, Debug, PartialEq, Eq, Structural)]
pub struct PathFingerprint {
    /// Whether the path resolved to a file at all.
    pub exists: bool,
    /// Device of the resolved file.
    pub device: u64,
    /// Inode of the resolved file.
    pub inode: u64,
    /// Modification time, whole seconds.
    pub mtime_secs: u64,
    /// Modification time, nanosecond part.
    pub mtime_nanos: u32,
    /// Size in bytes.
    pub size: u64,
}

/// The fingerprint of a path that does not resolve.
pub open spec fn absent_fingerprint() -> PathFingerprint {
    PathFingerprint {
        exists: false,
        device: 0,
        inode: 0,
        mtime_secs: 0,
        mtime_nanos: 0,
        size: 0,
    }
}

impl PathFingerprint {
    /// The state of a missing path, also recorded when a stat fails.
    pub fn absent() -> (r: PathFingerprint)
        ensures
            r == absent_fingerprint(),
    {
        PathFingerprint {
            exists: false,
            device: 0,
            inode: 0,
            mtime_secs: 0,
            mtime_nanos: 0,
            size: 0,
        }
    }
}

/// The remembered fingerprints of the watched paths.
pub struct PollState {
    seen: Vec<PathFingerprint>,
}

impl PollState {
    /// The fingerprints recorded by the last observation.
    pub closed spec fn seen_model(self) -> Seq<PathFingerprint> {
        self.seen@
    }

    /// Start watching `n_paths` paths, each recorded absent, so that a
    /// path existing at startup fires the first tick.
    pub fn new(n_paths: usize) -> (r: PollState)
        ensures
            r.seen_model() == Seq::new(n_paths as nat, |i: int| absent_fingerprint()),
    {
        let mut seen: Vec<PathFingerprint> = Vec::new();
        let mut i: usize = 0;
        while i < n_paths
            invariant
                i <= n_paths,
                seen@ == Seq::new(i as nat, |j: int| absent_fingerprint()),
            decreases n_paths - i,
        {
            seen.push(PathFingerprint::absent());
            proof {
                assert(seen@ =~= Seq::new(i as nat + 1, |j: int| absent_fingerprint()));
            }
            i = i + 1;
        }
        PollState { seen }
    }

    /// Number of watched paths.
    pub fn len(&self) -> (n: usize)
        ensures
            n == self.seen_model().len(),
    {
        self.seen.len()
    }

    /// Record a fresh stat of every path. The result is the tick: true
    /// exactly when some path's fingerprint transitioned since the last
    /// observation.
    pub fn observe(&mut self, current: &Vec<PathFingerprint>) -> (tick: bool)
        requires
            current@.len() == old(self).seen_model().len(),
        ensures
            final(self).seen_model() == current@,
            tick == (current@ != old(self).seen_model()),
    {
        let mut diff = false;
        let mut i: usize = 0;
        while i < current.len()
            invariant
                i <= current@.len(),
                current@.len() == self.seen_model().len(),
                self == old(self),
                diff == exists|j: int| 0 <= j < i && current@[j] != self.seen_model()[j],
            decreases current.len() - i,
        {
            if current[i] != self.seen[i] {
                diff = true;
                proof {
                    assert(current@[i as int] != self.seen_model()[i as int]);
                }
            }
            i = i + 1;
        }
        proof {
            if !diff {
                assert(current@ =~= old(self).seen_model());
            }
        }
        let mut fresh: Vec<PathFingerprint> = Vec::new();
        let mut k: usize = 0;
        while k < current.len()
            invariant
                k <= current@.len(),
                fresh@ == current@.subrange(0, k as int),
            decreases current.len() - k,
        {
            fresh.push(current[k]);
            proof {
                assert(fresh@ =~= current@.subrange(0, k as int + 1));
            }
            k = k + 1;
        }
        proof {
            assert(current@.subrange(0, current@.len() as int) =~= current@);
        }
        self.seen = fresh;
        diff
    }
}

} // verus!
