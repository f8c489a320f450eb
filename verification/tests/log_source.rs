use tofupilot_run::log_source::{sanitize_source_file, MAX_LEN};

#[test]
fn empty_becomes_unknown() {
    assert_eq!(sanitize_source_file("", "/proc"), "unknown");
    assert_eq!(sanitize_source_file("   ", "/proc"), "unknown");
}

#[test]
fn strips_windows_long_path_prefix() {
    let s = sanitize_source_file(r"\\?\C:\Users\foo\bar.py", "/unrelated");
    assert_eq!(s, r"C:\Users\foo\bar.py");
}

#[test]
fn relativizes_path_inside_procedure_dir_unix() {
    let s = sanitize_source_file(
        "/home/u/.tofupilot/deployments/abc/proc/phases/binaries.py",
        "/home/u/.tofupilot/deployments/abc/proc",
    );
    assert_eq!(s, "phases/binaries.py");
}

#[test]
fn relativizes_path_inside_procedure_dir_windows() {
    let s = sanitize_source_file(
        r"\\?\C:\Users\u\.tofupilot\deployments\abc\proc\phases\binaries.py",
        r"C:\Users\u\.tofupilot\deployments\abc\proc",
    );
    assert_eq!(s, r"phases\binaries.py");
}

#[test]
fn keeps_absolute_path_outside_procedure_dir() {
    let s = sanitize_source_file("/usr/lib/python3/site-packages/openhtf/core.py", "/home/u/proc");
    assert_eq!(s, "/usr/lib/python3/site-packages/openhtf/core.py");
}

#[test]
fn short_path_unchanged() {
    assert_eq!(sanitize_source_file("phases/binaries.py", "/unrelated"), "phases/binaries.py");
}

#[test]
fn long_path_keeps_tail() {
    let long = "a".repeat(300);
    let out = sanitize_source_file(&long, "/unrelated");
    assert_eq!(out.chars().count(), MAX_LEN);
    assert!(out.chars().all(|c| c == 'a'));
}

#[test]
fn long_absolute_path_outside_dir_preserves_filename() {
    let long = format!("/{}/binaries.py", "x".repeat(300));
    let out = sanitize_source_file(&long, "/unrelated");
    assert!(out.ends_with("binaries.py"));
    assert!(out.chars().count() <= MAX_LEN);
}

#[test]
fn relativize_then_clamp() {
    let inside = format!("/home/u/proc/{}/binaries.py", "deep/nested".repeat(40));
    let out = sanitize_source_file(&inside, "/home/u/proc");
    assert!(out.ends_with("binaries.py"));
    assert!(out.chars().count() <= MAX_LEN);
    assert!(!out.starts_with("/home/u/proc"));
}

#[test]
fn long_source_name_is_its_own_tail() {
    let long = format!("{}{}", "é".repeat(150), "b".repeat(100));
    let out = sanitize_source_file(&long, "/unrelated");
    assert_eq!(out, format!("{}{}", "é".repeat(100), "b".repeat(100)));
}

#[test]
fn sibling_directories_are_outside() {
    assert_eq!(sanitize_source_file("/home/u/proc2/x.py", "/home/u/proc"), "/home/u/proc2/x.py");
    assert_eq!(sanitize_source_file("/home/u/proc2/x.py", "/home/u/proc/"), "/home/u/proc2/x.py");
    assert_eq!(
        sanitize_source_file(r"\\?\C:\u\proc-old\x.py", r"C:\u\proc"),
        r"C:\u\proc-old\x.py"
    );
    assert_eq!(sanitize_source_file("/home/u/proc", "/home/u/proc"), "unknown");
    assert_eq!(sanitize_source_file("/home/u/proc//x.py", "/home/u/proc/"), "x.py");
}
