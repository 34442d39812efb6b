use imf_viewer::coordinator::{has_doc_extension, imf_path_from_url, Coordinator, OpenAction, OpenedUrl};
use imf_viewer::encode::{navigation_url, push_decimal, urlencod};
use imf_viewer::locate::{candidate_paths, join_path, sidecar_path};
use imf_viewer::sniff::{parse_port_token, port_from_line, sniff_lines, sniff_step, SniffAction, SniffOutcome};
use imf_viewer::stage::{choose_stage_dir, needs_copy, StageDir};
use imf_viewer::supervisor::Supervisor;

fn lines(v: &[&str]) -> Vec<String> {
    v.iter().map(|s| s.to_string()).collect()
}

#[test]
fn encoding_escapes_reserved_characters() {
    assert_eq!(urlencod("My File (1).imf"), "My%20File%20%281%29.imf");
}

#[test]
fn encoding_keeps_unreserved_characters() {
    assert_eq!(urlencod("AZaz09-_.~"), "AZaz09-_.~");
    assert_eq!(urlencod(""), "");
}

#[test]
fn encoding_escapes_each_utf8_byte_in_uppercase() {
    assert_eq!(urlencod("é"), "%C3%A9");
    assert_eq!(urlencod("a/b?c=d&e"), "a%2Fb%3Fc%3Dd%26e");
    assert_eq!(urlencod("\n"), "%0A");
}

#[test]
fn navigation_url_for_staged_file() {
    assert_eq!(navigation_url(51234, Some("report.imf")), "http://127.0.0.1:51234/?open=report.imf");
}

#[test]
fn navigation_url_without_file() {
    assert_eq!(navigation_url(51234, None), "http://127.0.0.1:51234");
    assert_eq!(navigation_url(1, None), "http://127.0.0.1:1");
    assert_eq!(navigation_url(65535, None), "http://127.0.0.1:65535");
}

#[test]
fn navigation_url_encodes_the_name() {
    assert_eq!(
        navigation_url(8080, Some("My File (1).imf")),
        "http://127.0.0.1:8080/?open=My%20File%20%281%29.imf"
    );
}

#[test]
fn decimal_digits() {
    let mut s = String::from("n=");
    push_decimal(&mut s, 0);
    assert_eq!(s, "n=0");
    let mut t = String::new();
    push_decimal(&mut t, 10);
    assert_eq!(t, "10");
}

#[test]
fn sniffer_stops_at_first_port_line() {
    let out = sniff_lines(&lines(&["starting", "running at http://127.0.0.1:54321", "extra"]));
    assert_eq!(out, SniffOutcome { port: Some(54321), lines_read: 2 });
}

#[test]
fn sniffer_fails_on_silent_output() {
    let out = sniff_lines(&lines(&["starting", "listening", "bye"]));
    assert_eq!(out, SniffOutcome { port: None, lines_read: 3 });
    assert_eq!(sniff_step(None), SniffAction::KillAndFail);
}

#[test]
fn sniffer_fails_on_empty_output() {
    assert_eq!(sniff_lines(&Vec::new()), SniffOutcome { port: None, lines_read: 0 });
}

#[test]
fn sniffer_rejects_port_zero() {
    assert_eq!(sniff_step(Some("running at http://127.0.0.1:0")), SniffAction::KillAndFail);
    let out = sniff_lines(&lines(&["running at http://127.0.0.1:0", "running at http://127.0.0.1:80"]));
    assert_eq!(out, SniffOutcome { port: None, lines_read: 1 });
}

#[test]
fn sniffer_skips_unparsable_port_lines() {
    assert_eq!(sniff_step(Some("running at http://127.0.0.1:99999")), SniffAction::ReadNext);
    assert_eq!(sniff_step(Some("running at http://127.0.0.1:abc")), SniffAction::ReadNext);
    let out = sniff_lines(&lines(&["running at http://127.0.0.1:x", "running at http://127.0.0.1:7000"]));
    assert_eq!(out, SniffOutcome { port: Some(7000), lines_read: 2 });
}

#[test]
fn port_line_with_prefix_and_white_space() {
    assert_eq!(port_from_line("2024/01/01 imf running at http://127.0.0.1:4000"), Some(4000));
    assert_eq!(port_from_line("running at http://127.0.0.1: 8080 \t"), Some(8080));
    assert_eq!(port_from_line("running at http://localhost:8080"), None);
    assert_eq!(port_from_line("8080"), None);
}

#[test]
fn port_token_parsing() {
    assert_eq!(parse_port_token("65535"), Some(65535));
    assert_eq!(parse_port_token("65536"), None);
    assert_eq!(parse_port_token("007"), Some(7));
    assert_eq!(parse_port_token("+80"), Some(80));
    assert_eq!(parse_port_token("+"), None);
    assert_eq!(parse_port_token("-1"), None);
    assert_eq!(parse_port_token(""), None);
    assert_eq!(parse_port_token("12a"), None);
}

#[test]
fn notification_before_ready_resolves_once() {
    let mut c = Coordinator::new();
    assert_eq!(c.notify_open("/home/u/a.imf".to_string()), OpenAction::Deferred);
    assert!(c.has_pending());
    assert_eq!(c.become_ready(4000), Some("/home/u/a.imf".to_string()));
    assert!(!c.has_pending());
    assert_eq!(c.port(), Some(4000));
}

#[test]
fn notification_after_ready_is_shown_at_once() {
    let mut c = Coordinator::new();
    assert_eq!(c.become_ready(4000), None);
    assert_eq!(
        c.notify_open("/home/u/a.imf".to_string()),
        OpenAction::Show { path: "/home/u/a.imf".to_string(), port: 4000 }
    );
    assert!(!c.has_pending());
}

#[test]
fn last_early_notification_wins() {
    let mut c = Coordinator::new();
    c.notify_open("first.imf".to_string());
    c.notify_open("second.imf".to_string());
    assert_eq!(c.become_ready(1234), Some("second.imf".to_string()));
}

#[test]
fn wrong_extension_is_ignored() {
    let mut c = Coordinator::new();
    assert_eq!(c.notify_open("document.txt".to_string()), OpenAction::Ignore);
    assert!(!c.has_pending());
    assert_eq!(c.become_ready(4000), None);
    assert_eq!(c.notify_open("document.txt".to_string()), OpenAction::Ignore);
}

#[test]
fn document_extension() {
    assert!(has_doc_extension("a.imf"));
    assert!(has_doc_extension(".imf"));
    assert!(!has_doc_extension("imf"));
    assert!(!has_doc_extension("a.imf.txt"));
    assert!(!has_doc_extension("a.IMF"));
}

#[test]
fn path_from_notification() {
    let file = OpenedUrl { is_file: true, file_path: Some("/tmp/x.imf".to_string()), text: "file:///tmp/x.imf".to_string() };
    assert_eq!(imf_path_from_url(file), Some("/tmp/x.imf".to_string()));
    let broken = OpenedUrl { is_file: true, file_path: None, text: "file://host/x.imf".to_string() };
    assert_eq!(imf_path_from_url(broken), None);
    let other = OpenedUrl { is_file: false, file_path: None, text: "imf://open/x.imf".to_string() };
    assert_eq!(imf_path_from_url(other), Some("imf://open/x.imf".to_string()));
    let txt = OpenedUrl { is_file: true, file_path: Some("/tmp/document.txt".to_string()), text: "file:///tmp/document.txt".to_string() };
    assert_eq!(imf_path_from_url(txt), None);
}

#[test]
fn staging_directory_preference() {
    assert_eq!(choose_stage_dir(true, true), StageDir::Desktop);
    assert_eq!(choose_stage_dir(true, false), StageDir::Desktop);
    assert_eq!(choose_stage_dir(false, true), StageDir::Downloads);
    assert_eq!(choose_stage_dir(false, false), StageDir::Temp);
}

#[test]
fn restaging_same_file_copies_once() {
    let src = Some("/home/u/Downloads/r.imf".to_string());
    let dst = Some("/home/u/Desktop/r.imf".to_string());
    assert!(needs_copy(&src, &dst));
    assert!(!needs_copy(&dst, &dst));
    assert!(!needs_copy(&None, &None));
    assert!(needs_copy(&src, &None));
}

#[test]
fn path_joining() {
    assert_eq!(join_path("/opt/app", "imf", '/'), "/opt/app/imf");
    assert_eq!(join_path("/opt/app/", "imf", '/'), "/opt/app/imf");
    assert_eq!(join_path("", "imf", '/'), "imf");
}

#[test]
fn candidates_in_search_order() {
    let c = candidate_paths(Some("/res"), Some("/bin"), Some("/work"), "imf", '/');
    assert_eq!(c, vec!["/res/sidecar/imf", "/res/imf", "/bin/imf", "/work/imf", "/work/../imf"]);
    let d = candidate_paths(None, None, Some("/work"), "imf", '/');
    assert_eq!(d, vec!["/work/imf", "/work/../imf"]);
    assert!(candidate_paths(None, None, None, "imf", '/').is_empty());
}

#[test]
fn binary_choice() {
    let c = lines(&["/a/imf", "/b/imf", "/c/imf"]);
    assert_eq!(sidecar_path(&c, &vec![false, true, true], "imf"), "/b/imf");
    assert_eq!(sidecar_path(&c, &vec![false, false, false], "imf"), "imf");
    assert_eq!(sidecar_path(&Vec::new(), &Vec::new(), "imf.exe"), "imf.exe");
}

#[test]
fn process_handle_taken_once() {
    let mut s = Supervisor::new(7u32, 4000);
    assert!(s.is_running());
    assert_eq!(s.port(), 4000);
    assert_eq!(s.take_process(), Some(7));
    assert_eq!(s.take_process(), None);
    assert!(!s.is_running());
    assert_eq!(s.port(), 4000);
}
