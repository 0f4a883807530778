//! Parent-process-id resolution: one logical operation, two platform
//! strategies chosen when the host is built.

use vstd::prelude::*;
use crate::snapshot::ProcessEntry;
use crate::snapshot::SnapshotProvider;

verus! {

/// The parent id recorded by the first record whose process id is `pid`, or
/// the sentinel -1 when no record matches.
pub open spec fn lookup_parent(records: Seq<ProcessEntry>, pid: u32) -> int
    decreases records.len(),
{
    if records.len() == 0 {
        -1
    } else if records[0].pid == pid {
        records[0].parent_pid as int
    } else {
        lookup_parent(records.subrange(1, records.len() as int), pid)
    }
}

/// Skipping a prefix of records that do not match leaves the lookup
/// unchanged.
proof fn lemma_lookup_skip(records: Seq<ProcessEntry>, pid: u32, k: int)
    requires
        0 <= k <= records.len(),
        forall|i: int| 0 <= i < k ==> records[i].pid != pid,
    ensures
        lookup_parent(records, pid) == lookup_parent(
            records.subrange(k, records.len() as int),
            pid,
        ),
    decreases k,
{
    if k > 0 {
        let tail = records.subrange(1, records.len() as int);
        assert forall|i: int| 0 <= i < k - 1 implies tail[i].pid != pid by {
            assert(tail[i] == records[i + 1]);
        }
        lemma_lookup_skip(tail, pid, k - 1);
        assert(tail.subrange(k - 1, tail.len() as int) =~= records.subrange(
            k,
            records.len() as int,
        ));
    } else {
        assert(records.subrange(0, records.len() as int) =~= records);
    }
}

/// When no record carries the sought process id, the lookup is the
/// sentinel -1.
pub proof fn lemma_lookup_parent_no_match(records: Seq<ProcessEntry>, pid: u32)
    requires
        forall|i: int| 0 <= i < records.len() ==> records[i].pid != pid,
    ensures
        lookup_parent(records, pid) == -1,
{
    lemma_lookup_skip(records, pid, records.len() as int);
    assert(records.subrange(records.len() as int, records.len() as int).len() == 0);
}

/// When a record carries the sought process id, the lookup is the parent id
/// recorded by the earliest such record — never the sentinel, since a
/// recorded parent id is non-negative.
pub proof fn lemma_lookup_parent_first_match(records: Seq<ProcessEntry>, pid: u32, i: int)
    requires
        0 <= i < records.len(),
        records[i].pid == pid,
        forall|j: int| 0 <= j < i ==> records[j].pid != pid,
    ensures
        lookup_parent(records, pid) == records[i].parent_pid as int,
        lookup_parent(records, pid) >= 0,
{
    lemma_lookup_skip(records, pid, i);
    assert(records.subrange(i, records.len() as int)[0] == records[i]);
}

/// What the Windows strategy resolves to for a given facility state: the
/// sentinel -1 when acquisition fails, otherwise the lookup over the
/// snapshot's records for the executing process's id.
pub open spec fn windows_outcome(provider: SnapshotProvider) -> int {
    if provider.spec_available() {
        lookup_parent(provider.spec_records(), provider.spec_current_pid())
    } else {
        -1
    }
}

/// Windows strategy: the platform has no direct parent accessor, so acquire
/// a snapshot of all processes, scan it for the record of the executing
/// process, and report that record's parent id. Every failure — no snapshot,
/// an empty enumeration, no matching record — collapses to the sentinel -1,
/// never an error: the value is advisory and must not interrupt the caller.
/// A snapshot is released on every path that acquired one, so the facility
/// ends balanced, and on acquisition failure no enumeration is attempted.
/// The facility's records, availability and process id are left unchanged,
/// so resolving again returns the same value.
///
/// The reported id is inherently racy: by the time it is returned, the
/// parent may have exited and the platform may have reassigned its numeric
/// id. That limitation is the platform's and is documented, not worked
/// around.
#[verifier::loop_isolation(false)]
pub fn windows_parent_pid(provider: &mut SnapshotProvider) -> (r: i64)
    requires
        old(provider).balanced(),
        old(provider).spec_acquired() < u64::MAX,
    ensures
        final(provider).balanced(),
        final(provider).spec_available() == old(provider).spec_available(),
        final(provider).spec_records() == old(provider).spec_records(),
        final(provider).spec_current_pid() == old(provider).spec_current_pid(),
        old(provider).spec_available() ==> final(provider).spec_acquired()
            == old(provider).spec_acquired() + 1,
        !old(provider).spec_available() ==> final(provider).spec_acquired()
            == old(provider).spec_acquired(),
        r as int == windows_outcome(*old(provider)),
        windows_outcome(*final(provider)) == windows_outcome(*old(provider)),
{
    let acquired = provider.acquire();
    let mut snapshot = match acquired {
        None => {
            return -1;
        },
        Some(s) => s,
    };
    let first = provider.first(&mut snapshot);
    let mut entry = match first {
        None => {
            provider.release(snapshot);
            return -1;
        },
        Some(e) => e,
    };
    let this_pid = provider.current_process_id();
    let ghost mid = *provider;
    while entry.pid != this_pid
        invariant
            *provider == mid,
            provider.spec_available(),
            this_pid == provider.spec_current_pid(),
            1 <= snapshot.spec_cursor() <= provider.spec_records().len(),
            entry == provider.spec_records()[snapshot.spec_cursor() - 1],
            forall|i: int|
                0 <= i < snapshot.spec_cursor() - 1 ==> provider.spec_records()[i].pid != this_pid,
        decreases provider.spec_records().len() - snapshot.spec_cursor(),
    {
        let found = provider.next(&mut snapshot);
        match found {
            None => {
                proof {
                    lemma_lookup_skip(
                        provider.spec_records(),
                        this_pid,
                        provider.spec_records().len() as int,
                    );
                    assert(provider.spec_records().subrange(
                        provider.spec_records().len() as int,
                        provider.spec_records().len() as int,
                    ).len() == 0);
                }
                provider.release(snapshot);
                return -1;
            },
            Some(e) => {
                entry = e;
            },
        }
    }
    proof {
        let c = snapshot.spec_cursor();
        lemma_lookup_skip(provider.spec_records(), this_pid, c - 1);
        assert(provider.spec_records().subrange(c - 1, provider.spec_records().len() as int)[0]
            == provider.spec_records()[c - 1]);
    }
    provider.release(snapshot);
    entry.parent_pid as i64
}

/// POSIX strategy: the platform provides a direct, race-free accessor for
/// the id of the process that created this one, and that accessor cannot
/// fail, so this branch never produces the sentinel. The raw value is
/// widened to the signed 64-bit result unchanged.
pub fn posix_parent_pid(raw_parent: u32) -> (r: i64)
    ensures
        r == raw_parent as i64,
        r >= 0,
{
    raw_parent as i64
}

/// One logical operation — resolve the parent process id — with two
/// concrete strategies, selected when the host is built for a platform,
/// never at run time. A strategy resolves to a value fixed by its state,
/// leaves that value unchanged, and returns it: repeated resolutions of one
/// strategy agree.
pub trait ParentPidStrategy {
    /// Whether the state admits one more resolution.
    spec fn ready(&self) -> bool;

    /// The value the strategy resolves to, fixed by its state.
    spec fn outcome(&self) -> int;

    /// Resolve the parent process id.
    fn resolve(&mut self) -> (r: i64)
        requires
            old(self).ready(),
        ensures
            r as int == old(self).outcome(),
            final(self).outcome() == old(self).outcome(),
    ;
}

/// The POSIX strategy's state: the raw value the platform's parent-id
/// accessor returned, supplied by the host.
pub struct PosixStrategy {
    /// The platform accessor's raw result.
    pub raw_parent: u32,
}

impl ParentPidStrategy for PosixStrategy {
    /// Always ready: this branch has no failure path.
    open spec fn ready(&self) -> bool {
        true
    }

    /// The raw value widened; never the sentinel.
    open spec fn outcome(&self) -> int {
        self.raw_parent as int
    }

    fn resolve(&mut self) -> i64 {
        posix_parent_pid(self.raw_parent)
    }
}

/// The Windows strategy's state: the snapshot facility it scans.
pub struct WindowsStrategy {
    /// The snapshot facility.
    pub provider: SnapshotProvider,
}

impl ParentPidStrategy for WindowsStrategy {
    /// The facility is balanced and can count one more acquisition.
    open spec fn ready(&self) -> bool {
        self.provider.balanced() && self.provider.spec_acquired() < u64::MAX
    }

    /// The facility's outcome: a recorded parent id, or the sentinel.
    open spec fn outcome(&self) -> int {
        windows_outcome(self.provider)
    }

    fn resolve(&mut self) -> i64 {
        windows_parent_pid(&mut self.provider)
    }
}

} // verus!
