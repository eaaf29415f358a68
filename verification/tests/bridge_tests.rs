use rit::bridge::{Output, Request};

fn words(v: &[&str]) -> Vec<String> {
    v.iter().map(|s| s.to_string()).collect()
}

#[test]
fn arguments_of_each_request() {
    assert_eq!(Request::Branch.args(), words(&["branch", "--show-current"]));
    assert_eq!(Request::Status.args(), words(&["status", "--porcelain=v1"]));
    assert_eq!(Request::Stage("a b.rs".to_string()).args(), words(&["add", "a b.rs"]));
    assert_eq!(
        Request::Unstage("src/x.rs".to_string()).args(),
        words(&["restore", "--staged", "src/x.rs"])
    );
    assert_eq!(Request::Discard("src/x.rs".to_string()).args(), words(&["restore", "src/x.rs"]));
    assert_eq!(Request::Commit("message".to_string()).args(), words(&["commit", "-F", "-"]));
}

#[test]
fn only_a_commit_writes_to_standard_input() {
    assert_eq!(Request::Branch.input(), None);
    assert_eq!(Request::Status.input(), None);
    assert_eq!(Request::Stage("a".to_string()).input(), None);
    assert_eq!(Request::Unstage("a".to_string()).input(), None);
    assert_eq!(Request::Discard("a".to_string()).input(), None);
    assert_eq!(Request::Commit("one\n\ntwo 'q' \"x\"".to_string()).input(), Some("one\n\ntwo 'q' \"x\""));
}

#[test]
fn commit_without_message_is_refused() {
    assert_eq!(Request::Commit(String::new()).check(), Err("empty commit message".to_string()));
    assert_eq!(Request::Commit(" ".to_string()).check(), Ok(()));
    assert_eq!(Request::Commit("fix".to_string()).check(), Ok(()));
    assert_eq!(Request::Stage(String::new()).check(), Ok(()));
    assert_eq!(Request::Branch.check(), Ok(()));
    assert_eq!(Request::Status.check(), Ok(()));
}

#[test]
fn output_of_a_run_that_succeeded() {
    let out = Output { success: true, stdout: b"main\n".to_vec(), stderr: b"warning".to_vec() };
    assert_eq!(out.text(), Ok("main\n".to_string()));
    let out = Output { success: true, stdout: "héllo →".as_bytes().to_vec(), stderr: vec![] };
    assert_eq!(out.text(), Ok("héllo →".to_string()));
    let out = Output { success: true, stdout: vec![], stderr: vec![] };
    assert_eq!(out.text(), Ok(String::new()));
}

#[test]
fn output_that_is_not_utf8_is_a_failure() {
    let out = Output { success: true, stdout: vec![b'a', 0xff, b'b'], stderr: vec![] };
    assert!(out.text().is_err());
    let out = Output { success: true, stdout: vec![0xc3], stderr: b"ignored".to_vec() };
    assert!(out.text().is_err());
}

#[test]
fn failure_carries_the_standard_error() {
    let out = Output {
        success: false,
        stdout: b"ignored".to_vec(),
        stderr: b"fatal: not a git repository\n".to_vec(),
    };
    assert_eq!(out.text(), Err("fatal: not a git repository\n".to_string()));
    let out = Output { success: false, stdout: vec![], stderr: vec![] };
    assert_eq!(out.text(), Err(String::new()));
}

#[test]
fn standard_error_is_read_lossily() {
    let out = Output { success: false, stdout: vec![], stderr: vec![b'n', b'o', 0xff, b'!'] };
    assert_eq!(out.text(), Err("no\u{fffd}!".to_string()));
}
