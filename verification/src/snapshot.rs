//! The system-process snapshot facility the Windows strategy scans.

use vstd::prelude::*;

verus! {

/// One record of a process snapshot: a process id and the id of the process
/// that created it.
#[derive(Clone, Copy)]
pub struct ProcessEntry {
    /// The process id.
    pub pid: u32,
    /// The id of the process that created this one.
    pub parent_pid: u32,
}

/// A handle on one point-in-time enumeration of all processes, read one
/// record at a time through the facility it came from. Releasing it consumes
/// it, so no path can keep reading a snapshot it has handed back.
pub struct Snapshot {
    cursor: usize,
}

impl Snapshot {
    /// How many records have been handed out through this handle.
    pub closed spec fn spec_cursor(&self) -> int {
        self.cursor as int
    }
}

/// Stands for the platform facility that produces process snapshots: the
/// records a snapshot would enumerate, whether acquisition currently
/// succeeds, and the id of the currently executing process. Acquisitions and
/// releases are counted, so release discipline is observable: a resolver
/// must leave the two counts equal.
pub struct SnapshotProvider {
    available: bool,
    records: Vec<ProcessEntry>,
    current_pid: u32,
    acquired: u64,
    released: u64,
}

impl SnapshotProvider {
    /// Whether acquiring a snapshot currently succeeds.
    pub closed spec fn spec_available(&self) -> bool {
        self.available
    }

    /// The records a snapshot enumerates, in enumeration order.
    pub closed spec fn spec_records(&self) -> Seq<ProcessEntry> {
        self.records@
    }

    /// The id of the currently executing process.
    pub closed spec fn spec_current_pid(&self) -> u32 {
        self.current_pid
    }

    /// How many snapshots have been handed out.
    pub closed spec fn spec_acquired(&self) -> int {
        self.acquired as int
    }

    /// How many snapshots have been handed back.
    pub closed spec fn spec_released(&self) -> int {
        self.released as int
    }

    /// Every snapshot handed out has been handed back.
    pub open spec fn balanced(&self) -> bool {
        self.spec_released() == self.spec_acquired()
    }

    /// A facility that will enumerate `records`, succeed or fail at
    /// acquisition as `available` says, and report `current_pid` as the id
    /// of the executing process. Nothing has been acquired or released yet.
    pub fn new(available: bool, records: Vec<ProcessEntry>, current_pid: u32) -> (r: Self)
        ensures
            r.spec_available() == available,
            r.spec_records() == records@,
            r.spec_current_pid() == current_pid,
            r.spec_acquired() == 0,
            r.spec_released() == 0,
    {
        SnapshotProvider { available, records, current_pid, acquired: 0, released: 0 }
    }

    /// The id of the currently executing process.
    pub fn current_process_id(&self) -> (r: u32)
        ensures
            r == self.spec_current_pid(),
    {
        self.current_pid
    }

    /// Try to acquire a snapshot. On success the acquisition is counted and
    /// the handle starts before the first record; when the facility is
    /// unavailable nothing is counted, and no handle exists to enumerate or
    /// release.
    pub fn acquire(&mut self) -> (r: Option<Snapshot>)
        requires
            old(self).spec_acquired() < u64::MAX,
        ensures
            final(self).spec_available() == old(self).spec_available(),
            final(self).spec_records() == old(self).spec_records(),
            final(self).spec_current_pid() == old(self).spec_current_pid(),
            final(self).spec_released() == old(self).spec_released(),
            old(self).spec_available() ==> {
                &&& final(self).spec_acquired() == old(self).spec_acquired() + 1
                &&& r matches Some(snapshot) && snapshot.spec_cursor() == 0
            },
            !old(self).spec_available() ==> {
                &&& final(self).spec_acquired() == old(self).spec_acquired()
                &&& r is None
            },
    {
        if self.available {
            self.acquired = self.acquired + 1;
            Some(Snapshot { cursor: 0 })
        } else {
            None
        }
    }

    /// Retrieve the first record and position the handle after it. Fails
    /// exactly when the snapshot holds no records.
    pub fn first(&self, snapshot: &mut Snapshot) -> (r: Option<ProcessEntry>)
        ensures
            self.spec_records().len() == 0 ==> r is None && final(snapshot).spec_cursor() == 0,
            self.spec_records().len() > 0 ==> {
                &&& r == Some(self.spec_records()[0])
                &&& final(snapshot).spec_cursor() == 1
            },
    {
        snapshot.cursor = 0;
        self.next(snapshot)
    }

    /// Retrieve the record after the last one handed out through this
    /// handle. Fails exactly when the enumeration is exhausted.
    pub fn next(&self, snapshot: &mut Snapshot) -> (r: Option<ProcessEntry>)
        ensures
            old(snapshot).spec_cursor() < self.spec_records().len() ==> {
                &&& r == Some(self.spec_records()[old(snapshot).spec_cursor()])
                &&& final(snapshot).spec_cursor() == old(snapshot).spec_cursor() + 1
            },
            old(snapshot).spec_cursor() >= self.spec_records().len() ==> {
                &&& r is None
                &&& final(snapshot).spec_cursor() == old(snapshot).spec_cursor()
            },
    {
        if snapshot.cursor < self.records.len() {
            let record = self.records[snapshot.cursor];
            snapshot.cursor = snapshot.cursor + 1;
            Some(record)
        } else {
            None
        }
    }

    /// Hand a snapshot back. The handle is consumed, and the release is
    /// counted against the acquisition that produced the handle.
    pub fn release(&mut self, snapshot: Snapshot)
        requires
            old(self).spec_released() < u64::MAX,
        ensures
            final(self).spec_available() == old(self).spec_available(),
            final(self).spec_records() == old(self).spec_records(),
            final(self).spec_current_pid() == old(self).spec_current_pid(),
            final(self).spec_acquired() == old(self).spec_acquired(),
            final(self).spec_released() == old(self).spec_released() + 1,
    {
        let _ = snapshot;
        self.released = self.released + 1;
    }

    /// How many snapshots have been handed out.
    pub fn acquisitions(&self) -> (r: u64)
        ensures
            r as int == self.spec_acquired(),
    {
        self.acquired
    }

    /// How many snapshots have been handed back.
    pub fn releases(&self) -> (r: u64)
        ensures
            r as int == self.spec_released(),
    {
        self.released
    }
}

} // verus!
