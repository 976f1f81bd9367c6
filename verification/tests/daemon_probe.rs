use std::sync::atomic::{AtomicBool, Ordering};
use std::sync::Arc;

use memory_ledger::adapters::sqlite::lifecycle::normalize_windows_sqlite_path;
use memory_ledger::application::daemon::DaemonLifecycleProbe;

#[test]
fn lifecycle_probe_reads_the_shared_flag() {
    let flag = Arc::new(AtomicBool::new(false));
    let probe = DaemonLifecycleProbe::from_flag(flag.clone());
    assert!(!probe.is_running());
    flag.store(true, Ordering::SeqCst);
    assert!(probe.is_running());
    let copy = probe.clone();
    flag.store(false, Ordering::SeqCst);
    assert!(!copy.is_running());
}

#[test]
fn windows_drive_paths_lose_their_leading_slash() {
    assert_eq!(normalize_windows_sqlite_path("/C:/data/db.sqlite"), "C:/data/db.sqlite");
    assert_eq!(normalize_windows_sqlite_path("/z:x"), "z:x");
    assert_eq!(normalize_windows_sqlite_path("/tmp/db.sqlite"), "/tmp/db.sqlite");
    assert_eq!(normalize_windows_sqlite_path("/1:/x"), "/1:/x");
    assert_eq!(normalize_windows_sqlite_path("/C"), "/C");
    assert_eq!(normalize_windows_sqlite_path(""), "");
}
