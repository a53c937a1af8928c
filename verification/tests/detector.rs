use std::cell::Cell;
use tarkov_time::tarkov_detector::{path_names_target, str_contains, TarkovDetector};

#[test]
fn substring_found() {
    assert!(str_contains("C:\\Games\\EscapeFromTarkov.exe", "EscapeFromTarkov.exe"));
    assert!(str_contains("abcabc", "cab"));
    assert!(str_contains("abc", "abc"));
    assert!(str_contains("abc", ""));
}

#[test]
fn substring_absent() {
    assert!(!str_contains("C:\\Games\\Tarkov\\launcher.exe", "EscapeFromTarkov.exe"));
    assert!(!str_contains("ab", "abc"));
    assert!(!str_contains("", "a"));
    assert!(!str_contains("escapefromtarkov.exe", "EscapeFromTarkov.exe"));
}

#[test]
fn target_path_match() {
    assert!(path_names_target("C:\\Battlestate Games\\EFT\\EscapeFromTarkov.exe"));
    assert!(!path_names_target("C:\\Windows\\explorer.exe"));
}

#[test]
fn fresh_detector_sees_nothing() {
    let mut d = TarkovDetector::new(100);
    assert!(!d.tarkov_running(105, || true));
}

#[test]
fn debounce_skips_scan_within_window() {
    let calls = Cell::new(0u32);
    let scan = || {
        calls.set(calls.get() + 1);
        true
    };
    let mut d = TarkovDetector::new(0);
    // Past the window: the scan runs once and its verdict is cached.
    assert!(d.tarkov_running(11, scan));
    assert_eq!(calls.get(), 1);
    // Within ten seconds of the scan: the cached verdict comes back and the
    // scan does not run again.
    assert!(d.tarkov_running(15, scan));
    assert!(d.tarkov_running(21, scan));
    assert_eq!(calls.get(), 1);
    // Past the window again: a fresh scan runs.
    assert!(d.tarkov_running(22, scan));
    assert_eq!(calls.get(), 2);
}

#[test]
fn cached_verdict_survives_flapping_scans() {
    let mut d = TarkovDetector::new(0);
    assert!(d.tarkov_running(20, || true));
    // The stub would now say false, but the window has not passed.
    assert!(d.tarkov_running(25, || false));
    // Once it passes, the new verdict takes over.
    assert!(!d.tarkov_running(31, || false));
    assert!(!d.tarkov_running(35, || true));
}
