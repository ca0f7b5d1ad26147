use signal_link::system::{
    is_signal_desktop_running, process_cmd_to_string, process_running_exact, process_running_fuzzy,
    process_table_matches_exact, process_table_matches_fuzzy, signal_desktop_in_table,
    ProcessEntry,
};

fn entry(name: &str, cmd: &[&str]) -> ProcessEntry {
    ProcessEntry {
        name: name.to_string(),
        cmd: cmd.iter().map(|s| s.to_string()).collect(),
    }
}

#[test]
fn process_detection_without_mocks_uses_sysinfo_snapshot() {
    assert!(!process_running_exact("definitely-not-a-real-process-xyz"));
    assert!(!process_running_fuzzy("definitely-not-a-real-process-xyz"));
    // whatever the machine runs, the combined check must not panic
    let _ = is_signal_desktop_running();
}

#[test]
fn exact_matching_compares_full_names() {
    let table = vec![entry("Signal", &[]), entry("other", &["bin", "arg"])];
    assert!(process_table_matches_exact("Signal", &table));
    assert!(!process_table_matches_exact("signal", &table));
    assert!(!process_table_matches_exact("Sig", &table));
    assert!(!process_table_matches_exact("Signal", &Vec::new()));
}

#[test]
fn fuzzy_matching_is_case_insensitive_over_name_and_command() {
    let by_name = vec![entry("SigNal.APP helper", &[])];
    assert!(process_table_matches_fuzzy("signal.app", &by_name));

    let by_cmd = vec![entry("electron", &["/usr/lib/Signal-Desktop/app", "--hidden"])];
    assert!(process_table_matches_fuzzy("signal-desktop", &by_cmd));
    assert!(!process_table_matches_fuzzy("signal-desktop", &vec![entry("electron", &[])]));
}

#[test]
fn desktop_detection_accepts_any_of_its_footprints() {
    assert!(signal_desktop_in_table(&vec![entry("Signal", &[])]));
    assert!(signal_desktop_in_table(&vec![entry("signal-desktop", &[])]));
    assert!(signal_desktop_in_table(&vec![entry("x", &["run", "Signal.app/Contents"])]));
    assert!(!signal_desktop_in_table(&vec![entry("chrome", &["--no-sandbox"])]));
}

#[test]
fn command_lines_join_with_single_spaces() {
    let cmd = vec!["prog".to_string(), "-a".to_string(), "b c".to_string()];
    assert_eq!(process_cmd_to_string(&cmd), "prog -a b c");
    assert_eq!(process_cmd_to_string(&Vec::new()), "");
}
