use kritik::report::NO_EXIT_CODE;
use kritik::{ExecutionResult, Kritik};

fn text(bytes: Vec<u8>) -> String {
    String::from_utf8(bytes).unwrap()
}

fn ended(code: Option<i32>, stdout: &[u8], stderr: &[u8]) -> ExecutionResult {
    ExecutionResult { code, stdout: stdout.to_vec(), stderr: stderr.to_vec() }
}

#[test]
fn success_line_for_true() {
    let mut kritik = Kritik::default();
    kritik.set_command(String::from("true"));
    assert_eq!(text(kritik.handle_success(false)), "  [SUCCESS] true\n");
}

#[test]
fn success_line_with_message_and_word() {
    let mut kritik = Kritik::default();
    kritik
        .set_command(String::from("git pull"))
        .set_message(String::from("Updating"))
        .set_success_message("Everything went well");
    assert_eq!(text(kritik.handle_success(false)), "  [Everything went well] Updating\n");
}

#[test]
fn success_line_is_styled_green_and_bold() {
    let mut kritik = Kritik::default();
    kritik.set_command(String::from("true"));
    assert_eq!(
        text(kritik.handle_success(true)),
        "  [\u{1b}[32m\u{1b}[1mSUCCESS\u{1b}[0m] true\n"
    );
}

#[test]
fn failure_report_for_false() {
    let mut kritik = Kritik::default();
    kritik.set_command(String::from("false"));
    let report = text(kritik.handle_failure(&ended(Some(1), b"", b""), false));
    assert_eq!(
        report,
        "  [FAILURE] false\n  [ERROR CODE] 1\n  [STDOUT] Empty\n  [STDERR] Empty\n"
    );
    assert!(report.contains("[ERROR CODE] 1"));
    assert!(report.contains("[STDOUT] Empty"));
    assert!(report.contains("[STDERR] Empty"));
}

#[test]
fn failure_report_with_captured_output() {
    let mut kritik = Kritik::default();
    kritik.set_command(String::from("echo hello; exit 2"));
    let report = text(kritik.handle_failure(&ended(Some(2), b"hello\n", b""), false));
    assert_eq!(
        report,
        "  [FAILURE] echo hello; exit 2\n  [ERROR CODE] 2\n  [STDOUT]\nhello\n  [STDERR] Empty\n"
    );
    let code = report.find("[ERROR CODE] 2").unwrap();
    let header = report.find("  [STDOUT]\n").unwrap();
    let output = report.find("hello\n").unwrap();
    assert!(code < header);
    assert_eq!(output, header + "  [STDOUT]\n".len());
}

#[test]
fn failure_report_with_both_streams() {
    let mut kritik = Kritik::default();
    kritik
        .set_command(String::from("make"))
        .set_message(String::from("Building"))
        .set_failure_message("BROKEN");
    let report = text(kritik.handle_failure(&ended(Some(3), b"cc main.c", b"main.c:1: error\n"), false));
    assert_eq!(
        report,
        "  [BROKEN] Building\n  [ERROR CODE] 3\n  [STDOUT]\ncc main.c  [STDERR]\nmain.c:1: error\n"
    );
}

#[test]
fn failure_report_is_styled() {
    let mut kritik = Kritik::default();
    kritik.set_command(String::from("false"));
    let report = text(kritik.handle_failure(&ended(Some(1), b"", b"oops"), true));
    assert_eq!(
        report,
        "  [\u{1b}[31m\u{1b}[1mFAILURE\u{1b}[0m] false\n  [\u{1b}[31m\u{1b}[1mERROR CODE\u{1b}[0m] 1\n  [\u{1b}[37m\u{1b}[1mSTDOUT\u{1b}[0m] Empty\n  [\u{1b}[37m\u{1b}[1mSTDERR\u{1b}[0m]\noops"
    );
}

#[test]
fn styling_matches_the_terminal_library() {
    let mut kritik = Kritik::default();
    kritik.set_command(String::from("true")).set_success_message("fine");
    let styled = console::style("fine").green().bold().force_styling(true).to_string();
    assert_eq!(text(kritik.handle_success(true)), format!("  [{}] true\n", styled));
    let plain = console::style("fine").green().bold().force_styling(false).to_string();
    assert_eq!(text(kritik.handle_success(false)), format!("  [{}] true\n", plain));
}

#[test]
fn captured_bytes_are_kept_as_they_are() {
    let mut kritik = Kritik::default();
    kritik.set_command(String::from("cat blob"));
    let stdout: Vec<u8> = vec![0xff, 0xfe, 0x00, b'a', 0xc3, 0x28, b'\n'];
    let stderr: Vec<u8> = vec![0x80];
    let report = kritik.handle_failure(&ended(Some(1), &stdout, &stderr), false);
    let mut expected = b"  [FAILURE] cat blob\n  [ERROR CODE] 1\n  [STDOUT]\n".to_vec();
    expected.extend_from_slice(&stdout);
    expected.extend_from_slice(b"  [STDERR]\n");
    expected.extend_from_slice(&stderr);
    assert_eq!(report, expected);
}

#[test]
fn message_in_another_script_is_written_in_utf8() {
    let mut kritik = Kritik::default();
    kritik.set_command(String::from("true")).set_message(String::from("mise à jour ✓"));
    assert_eq!(kritik.handle_success(false), "  [SUCCESS] mise à jour ✓\n".as_bytes().to_vec());
}

#[test]
fn missing_exit_code_is_reported_as_failure() {
    let result = ended(None, b"", b"");
    assert!(!result.success());
    assert_eq!(result.exit_code(), NO_EXIT_CODE);
    assert_eq!(NO_EXIT_CODE, -1);

    let mut kritik = Kritik::default();
    kritik.set_command(String::from("sleep 100"));
    assert_eq!(
        text(kritik.handle_failure(&result, false)),
        "  [FAILURE] sleep 100\n  [ERROR CODE] -1\n  [STDOUT] Empty\n  [STDERR] Empty\n"
    );
}

#[test]
fn success_is_exit_code_zero() {
    assert!(ended(Some(0), b"", b"").success());
    assert!(ended(Some(0), b"out", b"err").success());
    assert!(!ended(Some(1), b"", b"").success());
    assert!(!ended(Some(-1), b"", b"").success());
    assert!(!ended(Some(255), b"", b"").success());
    assert_eq!(ended(Some(0), b"", b"").exit_code(), 0);
    assert_eq!(ended(Some(42), b"", b"").exit_code(), 42);
}

#[test]
fn report_does_not_show_the_status_line() {
    let result = ended(Some(4), b"out\n", b"err\n");
    let mut plain = Kritik::default();
    plain.set_command(String::from("job"));
    let mut timed = Kritik::default();
    timed.set_command(String::from("job")).set_running_message("BUSY").showtime();
    timed.build_template(true);

    assert_eq!(plain.handle_success(false), timed.handle_success(false));
    assert_eq!(plain.handle_failure(&result, false), timed.handle_failure(&result, false));
    let report = text(timed.handle_failure(&result, false));
    assert!(!report.contains("elapsed"));
    assert!(!report.contains("BUSY"));
    assert!(!report.contains("RUNNING"));
}
