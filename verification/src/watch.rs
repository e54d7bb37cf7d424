//! Watch-loop decisions: which filesystem events lead to a dispatch,
//! which grow the recursive watch set, how a file's name relative to the
//! watch root is computed, and the watch set itself.
use vstd::prelude::*;
use crate::paths::SEP;

verus! {

/// What the directory-event collaborator reports.
#[derive(Clone, Copy, Debug, PartialEq, Eq, Structural)]
pub enum EventKind {
    /// A regular file under the root is fully written and closed, or was
    /// moved into place.
    FileStable,
    /// A new subdirectory appeared under the root.
    DirectoryCreated,
}

/// What the watch loop does with one event.
#[derive(Clone, Copy, Debug, PartialEq, Eq, Structural)]
pub enum WatchAction {
    /// Hand the file to the fan-out dispatcher.
    Dispatch,
    /// Register a watch on the new subdirectory so recursive coverage is
    /// kept.
    AddWatch,
    /// A transient event, or a path that is no longer a regular file.
    Ignore,
}

/// The loop's decision: a stable path that still resolves to a regular
/// file is dispatched; a new directory extends the watch set; everything
/// else is ignored. The loop itself never ends on an event.
pub open spec fn action_of(kind: EventKind, is_regular_file: bool) -> WatchAction {
    match kind {
        EventKind::FileStable => if is_regular_file {
            WatchAction::Dispatch
        } else {
            WatchAction::Ignore
        },
        EventKind::DirectoryCreated => WatchAction::AddWatch,
    }
}

/// Decides one event, as `action_of` states it.
pub fn classify_event(kind: EventKind, is_regular_file: bool) -> (a: WatchAction)
    ensures
        a == action_of(kind, is_regular_file),
{
    match kind {
        EventKind::FileStable => {
            if is_regular_file {
                WatchAction::Dispatch
            } else {
                WatchAction::Ignore
            }
        },
        EventKind::DirectoryCreated => WatchAction::AddWatch,
    }
}

/// The name of `full` relative to `root`: defined exactly when `full` is
/// `root`, a separator, and at least one more byte; the name is what
/// follows the separator.
pub open spec fn rel_name_of(root: Seq<u8>, full: Seq<u8>) -> Option<Seq<u8>> {
    if full.len() > root.len() + 1 && full.subrange(0, root.len() as int) == root && full[root.len() as int]
        == SEP {
        Some(full.subrange(root.len() as int + 1, full.len() as int))
    } else {
        None
    }
}

/// Computes the relative name carried in a frame for a file under the
/// watch root, as `rel_name_of` states it.
pub fn relative_name(root: &[u8], full: &[u8]) -> (r: Option<Vec<u8>>)
    ensures
        match r {
            Some(v) => rel_name_of(root@, full@) == Some(v@),
            None => rel_name_of(root@, full@) is None,
        },
{
    let rl = root.len();
    let fl = full.len();
    if fl <= rl || fl - rl < 2 {
        return None;
    }
    let mut i: usize = 0;
    while i < rl
        invariant
            i <= rl,
            rl == root@.len(),
            fl == full@.len(),
            fl > rl + 1,
            forall|j: int| 0 <= j < i ==> full@[j] == root@[j],
        decreases rl - i,
    {
        if full[i] != root[i] {
            proof {
                assert(full@.subrange(0, root@.len() as int)[i as int] != root@[i as int]);
            }
            return None;
        }
        i += 1;
    }
    proof {
        assert(full@.subrange(0, root@.len() as int) =~= root@);
    }
    if full[rl] != SEP {
        return None;
    }
    let mut v: Vec<u8> = Vec::new();
    let mut k: usize = rl + 1;
    while k < fl
        invariant
            rl + 1 <= k <= fl,
            rl == root@.len(),
            fl == full@.len(),
            v@ == full@.subrange(rl + 1, k as int),
        decreases fl - k,
    {
        v.push(full[k]);
        k += 1;
        proof {
            assert(v@ =~= full@.subrange(rl + 1, k as int));
        }
    }
    Some(v)
}

/// The set of directories under watch: the root and every subdirectory
/// discovered since, in discovery order, each watched once. The set only
/// grows; a removed directory is simply never matched again.
pub struct WatchSet {
    dirs: Vec<Vec<u8>>,
}

impl WatchSet {
    /// The watched paths in discovery order.
    pub closed spec fn paths(&self) -> Seq<Seq<u8>> {
        self.dirs@.map_values(|d: Vec<u8>| d@)
    }

    /// No directory is watched twice.
    pub open spec fn wf(&self) -> bool {
        forall|i: int, j: int|
            0 <= i < j < self.paths().len() ==> self.paths()[i] != self.paths()[j]
    }

    /// Starts the watch at the root alone.
    pub fn new(root: Vec<u8>) -> (s: WatchSet)
        ensures
            s.wf(),
            s.paths() == seq![root@],
    {
        let s = WatchSet { dirs: vec![root] };
        proof {
            assert(s.paths() =~= seq![root@]);
        }
        s
    }

    /// Whether `p` is already watched.
    pub fn watches(&self, p: &[u8]) -> (r: bool)
        ensures
            r == self.paths().contains(p@),
    {
        let mut i: usize = 0;
        while i < self.dirs.len()
            invariant
                i <= self.dirs@.len(),
                forall|j: int| 0 <= j < i ==> self.paths()[j] != p@,
            decreases self.dirs@.len() - i,
        {
            if bytes_equal(self.dirs[i].as_slice(), p) {
                proof {
                    assert(self.paths()[i as int] == p@);
                }
                return true;
            }
            i += 1;
        }
        proof {
            assert(!self.paths().contains(p@)) by {
                if self.paths().contains(p@) {
                    let j = choose|j: int|
                        0 <= j < self.paths().len() && self.paths()[j] == p@;
                    assert(self.paths()[j] != p@);
                }
            }
        }
        false
    }

    /// Registers a newly created subdirectory. The watch set after the
    /// call holds exactly the old paths plus `p`; a directory already
    /// watched is not added again, and nothing is ever removed.
    pub fn observe_directory_created(&mut self, p: Vec<u8>) -> (added: bool)
        requires
            old(self).wf(),
        ensures
            final(self).wf(),
            added == !old(self).paths().contains(p@),
            added ==> final(self).paths() == old(self).paths().push(p@),
            !added ==> final(self).paths() == old(self).paths(),
    {
        if self.watches(p.as_slice()) {
            false
        } else {
            self.dirs.push(p);
            proof {
                assert(self.paths() =~= old(self).paths().push(p@));
            }
            true
        }
    }
}

/// Byte-for-byte equality of two byte strings.
pub fn bytes_equal(a: &[u8], b: &[u8]) -> (r: bool)
    ensures
        r == (a@ == b@),
{
    if a.len() != b.len() {
        return false;
    }
    let mut i: usize = 0;
    while i < a.len()
        invariant
            i <= a@.len(),
            a@.len() == b@.len(),
            forall|j: int| 0 <= j < i ==> a@[j] == b@[j],
        decreases a@.len() - i,
    {
        if a[i] != b[i] {
            return false;
        }
        i += 1;
    }
    proof {
        assert(a@ =~= b@);
    }
    true
}

} // verus!
