use host_identity::parent_pid::posix_parent_pid;
use host_identity::parent_pid::windows_parent_pid;
use host_identity::parent_pid::ParentPidStrategy;
use host_identity::parent_pid::PosixStrategy;
use host_identity::parent_pid::WindowsStrategy;
use host_identity::snapshot::ProcessEntry;
use host_identity::snapshot::SnapshotProvider;

fn synthetic_records() -> Vec<ProcessEntry> {
    vec![
        ProcessEntry { pid: 4, parent_pid: 0 },
        ProcessEntry { pid: 120, parent_pid: 4 },
        ProcessEntry { pid: 7788, parent_pid: 120 },
        ProcessEntry { pid: 9901, parent_pid: 120 },
    ]
}

#[test]
fn posix_returns_the_native_primitive_output() {
    assert_eq!(posix_parent_pid(0), 0);
    assert_eq!(posix_parent_pid(4242), 4242);
    assert_eq!(posix_parent_pid(u32::MAX), u32::MAX as i64);
}

#[test]
fn posix_strategy_resolves_without_a_failure_path() {
    let mut strategy = PosixStrategy { raw_parent: 314 };
    assert_eq!(strategy.resolve(), 314);
}

#[test]
fn windows_matching_record_yields_its_parent_id() {
    let mut provider = SnapshotProvider::new(true, synthetic_records(), 7788);
    assert_eq!(windows_parent_pid(&mut provider), 120);
    assert_eq!(provider.acquisitions(), 1);
    assert_eq!(provider.releases(), 1);
}

#[test]
fn windows_match_on_the_first_record_is_found() {
    let mut provider = SnapshotProvider::new(true, synthetic_records(), 4);
    assert_eq!(windows_parent_pid(&mut provider), 0);
    assert_eq!(provider.releases(), provider.acquisitions());
}

#[test]
fn windows_duplicate_pids_yield_the_first_match() {
    let records = vec![
        ProcessEntry { pid: 55, parent_pid: 1 },
        ProcessEntry { pid: 55, parent_pid: 2 },
    ];
    let mut provider = SnapshotProvider::new(true, records, 55);
    assert_eq!(windows_parent_pid(&mut provider), 1);
}

#[test]
fn windows_no_matching_record_yields_the_sentinel() {
    let mut provider = SnapshotProvider::new(true, synthetic_records(), 31337);
    assert_eq!(windows_parent_pid(&mut provider), -1);
    assert_eq!(provider.releases(), provider.acquisitions());
}

#[test]
fn windows_empty_snapshot_yields_the_sentinel() {
    let mut provider = SnapshotProvider::new(true, Vec::new(), 7788);
    assert_eq!(windows_parent_pid(&mut provider), -1);
    assert_eq!(provider.acquisitions(), 1);
    assert_eq!(provider.releases(), 1);
}

#[test]
fn windows_acquisition_failure_yields_the_sentinel_without_enumeration() {
    let mut provider = SnapshotProvider::new(false, synthetic_records(), 7788);
    assert_eq!(windows_parent_pid(&mut provider), -1);
    assert_eq!(provider.acquisitions(), 0);
    assert_eq!(provider.releases(), 0);
}

#[test]
fn windows_release_count_matches_acquisition_count_on_every_branch() {
    let branches = [
        SnapshotProvider::new(false, synthetic_records(), 7788),
        SnapshotProvider::new(true, Vec::new(), 7788),
        SnapshotProvider::new(true, synthetic_records(), 31337),
        SnapshotProvider::new(true, synthetic_records(), 7788),
    ];
    for mut provider in branches {
        let _ = windows_parent_pid(&mut provider);
        assert_eq!(provider.releases(), provider.acquisitions());
    }
}

#[test]
fn windows_strategy_is_idempotent_across_calls() {
    let mut strategy = WindowsStrategy {
        provider: SnapshotProvider::new(true, synthetic_records(), 9901),
    };
    let once = strategy.resolve();
    let twice = strategy.resolve();
    assert_eq!(once, 120);
    assert_eq!(once, twice);
    assert_eq!(strategy.provider.releases(), strategy.provider.acquisitions());
}

#[test]
fn snapshot_is_enumerated_in_order_and_then_exhausted() {
    let mut provider = SnapshotProvider::new(true, synthetic_records(), 7788);
    let mut snapshot = provider.acquire().expect("the facility is available");
    let first = provider.first(&mut snapshot).expect("snapshot is not empty");
    assert_eq!(first.pid, 4);
    assert_eq!(first.parent_pid, 0);
    let mut seen = vec![first.pid];
    while let Some(record) = provider.next(&mut snapshot) {
        seen.push(record.pid);
    }
    assert_eq!(seen, vec![4, 120, 7788, 9901]);
    provider.release(snapshot);
    assert_eq!(provider.releases(), provider.acquisitions());
}
