use slave_recorder::config::{ContainerFormat, StoragePolicy};
use slave_recorder::janitor::{
    path_matches_format, plan_sweep, FileEntry, JANITOR_INTERVAL_SECS,
};

fn fe(path: &str, size: u64, modified: u64) -> FileEntry {
    FileEntry { path: path.as_bytes().to_vec(), size, modified }
}

fn policy(max_disk_bytes: u64, format: ContainerFormat) -> StoragePolicy {
    StoragePolicy {
        root_dir: "/srv/rec".to_string(),
        max_disk_bytes,
        segment_time_sec: 60,
        segment_target_bytes: None,
        keep_free_bytes: None,
        format,
        log_dir: None,
    }
}

/// Runs a sweep, pretending that deleting any path in `fails` fails, and
/// returns the paths whose deletion succeeded, in deletion order.
fn run_sweep(entries: Vec<FileEntry>, pol: &StoragePolicy, fails: &[&str]) -> Vec<String> {
    let mut deleted = Vec::new();
    match plan_sweep(entries, pol) {
        None => deleted,
        Some(mut sw) => {
            loop {
                let path = match sw.next_candidate() {
                    None => break,
                    Some(e) => String::from_utf8(e.path.clone()).unwrap(),
                };
                let ok = !fails.contains(&path.as_str());
                if ok {
                    deleted.push(path);
                }
                sw.record_outcome(ok);
            }
            deleted
        }
    }
}

#[test]
fn janitor_interval_is_ten_seconds() {
    assert_eq!(JANITOR_INTERVAL_SECS, 10);
}

#[test]
fn janitor_noop_when_within_limit_and_idempotent() {
    let pol = policy(1000, ContainerFormat::Ts);
    for _ in 0..3 {
        let entries = vec![fe("a/x.ts", 400, 1), fe("a/y.ts", 600, 2)];
        assert!(plan_sweep(entries, &pol).is_none());
    }
}

#[test]
fn janitor_noop_on_empty_scan() {
    let pol = policy(0, ContainerFormat::Ts);
    assert!(plan_sweep(Vec::new(), &pol).is_none());
}

#[test]
fn janitor_evicts_oldest_until_overage_satisfied() {
    // a:100 at t1, b:200 at t2, c:50 at t3; limit 200, total 350, overage 150:
    // deleting a leaves 50, deleting b satisfies it, c is retained.
    let pol = policy(200, ContainerFormat::Ts);
    let entries = vec![fe("s/b.ts", 200, 2), fe("s/c.ts", 50, 3), fe("s/a.ts", 100, 1)];
    let deleted = run_sweep(entries, &pol, &[]);
    assert_eq!(deleted, vec!["s/a.ts".to_string(), "s/b.ts".to_string()]);
}

#[test]
fn janitor_overage_values_step_by_step() {
    let pol = policy(200, ContainerFormat::Ts);
    let entries = vec![fe("s/a.ts", 100, 1), fe("s/b.ts", 200, 2), fe("s/c.ts", 50, 3)];
    let mut sw = plan_sweep(entries, &pol).unwrap();
    assert_eq!(sw.remaining, 150);
    let first = sw.next_candidate().unwrap();
    assert_eq!(first.path, b"s/a.ts".to_vec());
    sw.record_outcome(true);
    assert_eq!(sw.remaining, 50);
    let second = sw.next_candidate().unwrap();
    assert_eq!(second.path, b"s/b.ts".to_vec());
    sw.record_outcome(true);
    // 200 deleted against 50 remaining: capped at zero, never negative.
    assert_eq!(sw.remaining, 0);
    assert!(sw.next_candidate().is_none());
}

#[test]
fn janitor_deletion_failure_skips_to_next_oldest() {
    let pol = policy(200, ContainerFormat::Ts);
    let entries = vec![fe("s/a.ts", 100, 1), fe("s/b.ts", 200, 2), fe("s/c.ts", 50, 3)];
    // The oldest file cannot be deleted: the sweep must still evaluate b,
    // whose deletion alone satisfies the overage of 150.
    let deleted = run_sweep(entries, &pol, &["s/a.ts"]);
    assert_eq!(deleted, vec!["s/b.ts".to_string()]);
}

#[test]
fn janitor_all_deletions_failing_exhausts_candidates() {
    let pol = policy(10, ContainerFormat::Ts);
    let entries = vec![fe("s/a.ts", 100, 1), fe("s/b.ts", 200, 2)];
    let deleted = run_sweep(entries, &pol, &["s/a.ts", "s/b.ts"]);
    assert!(deleted.is_empty());
}

#[test]
fn janitor_nonmatching_extensions_invisible() {
    let pol = policy(100, ContainerFormat::Ts);
    // A huge, ancient file of another extension neither counts toward usage
    // nor is ever deleted.
    let entries = vec![fe("s/huge.txt", 1 << 40, 0), fe("s/x.ts", 50, 5)];
    assert!(plan_sweep(entries, &pol).is_none());

    let pol2 = policy(10, ContainerFormat::Ts);
    let entries2 = vec![fe("s/huge.txt", 1 << 40, 0), fe("s/x.ts", 50, 5)];
    let deleted = run_sweep(entries2, &pol2, &[]);
    assert_eq!(deleted, vec!["s/x.ts".to_string()]);
}

#[test]
fn janitor_mp4_format_counts_only_mp4() {
    let pol = policy(10, ContainerFormat::Mp4);
    let entries = vec![fe("s/old.ts", 500, 1), fe("s/new.mp4", 50, 2)];
    let deleted = run_sweep(entries, &pol, &[]);
    assert_eq!(deleted, vec!["s/new.mp4".to_string()]);
}

#[test]
fn janitor_equal_timestamps_still_reclaims_enough() {
    let pol = policy(100, ContainerFormat::Ts);
    let entries = vec![fe("s/a.ts", 80, 7), fe("s/b.ts", 80, 7), fe("s/c.ts", 80, 9)];
    // Total 240, overage 140: two of the files must go; the newest may
    // survive only if the two older ones (equal timestamps) are deleted.
    let deleted = run_sweep(entries, &pol, &[]);
    assert_eq!(deleted.len(), 2);
    assert!(deleted.contains(&"s/a.ts".to_string()));
    assert!(deleted.contains(&"s/b.ts".to_string()));
}

#[test]
fn janitor_huge_sizes_do_not_overflow() {
    let pol = policy(u64::MAX, ContainerFormat::Ts);
    let entries = vec![fe("s/a.ts", u64::MAX, 1), fe("s/b.ts", u64::MAX, 2)];
    let mut sw = plan_sweep(entries, &pol).unwrap();
    assert_eq!(sw.remaining, u64::MAX as u128);
    assert!(sw.next_candidate().is_some());
    sw.record_outcome(true);
    assert_eq!(sw.remaining, 0);
}

#[test]
fn path_matching_ts() {
    assert!(path_matches_format(&b"a.ts".to_vec(), ContainerFormat::Ts));
    assert!(path_matches_format(&b"dir/20240101-120000.ts".to_vec(), ContainerFormat::Ts));
    assert!(path_matches_format(&b"a..ts".to_vec(), ContainerFormat::Ts));
    assert!(!path_matches_format(&b"a.mp4".to_vec(), ContainerFormat::Ts));
    assert!(!path_matches_format(&b"a.txt".to_vec(), ContainerFormat::Ts));
    assert!(!path_matches_format(&b"ts".to_vec(), ContainerFormat::Ts));
    assert!(!path_matches_format(&b".ts".to_vec(), ContainerFormat::Ts));
    assert!(!path_matches_format(&b"dir/.ts".to_vec(), ContainerFormat::Ts));
    assert!(!path_matches_format(&b"a_ts".to_vec(), ContainerFormat::Ts));
}

#[test]
fn path_matching_mp4() {
    assert!(path_matches_format(&b"a.mp4".to_vec(), ContainerFormat::Mp4));
    assert!(path_matches_format(&b"d/e.mp4".to_vec(), ContainerFormat::Mp4));
    assert!(!path_matches_format(&b"a.ts".to_vec(), ContainerFormat::Mp4));
    assert!(!path_matches_format(&b".mp4".to_vec(), ContainerFormat::Mp4));
    assert!(!path_matches_format(&b"d/.mp4".to_vec(), ContainerFormat::Mp4));
    assert!(!path_matches_format(&b"mp4".to_vec(), ContainerFormat::Mp4));
}
