use process_execution::digest::Digest;
use process_execution::request::ExecuteProcessRequest;
use process_execution::time_span::TimeSpan;

fn make_request(description: &str, timeout: TimeSpan) -> ExecuteProcessRequest {
    ExecuteProcessRequest {
        argv: vec![],
        env: Vec::new(),
        input_files: Digest::empty(),
        output_files: Vec::new(),
        output_directories: Vec::new(),
        timeout,
        description: description.to_string(),
        jdk_home: None,
    }
}

fn hash(request: &ExecuteProcessRequest) -> u64 {
    request.identity_hash()
}

#[test]
fn execute_process_request_equality() {
    let a = make_request("One thing", TimeSpan::new(0, 0));
    let b = make_request("Another", TimeSpan::new(0, 0));
    let c = make_request("One thing", TimeSpan::new(5, 0));

    // Equality and the identity hash ignore the description
    assert!(a == b);
    assert!(hash(&a) == hash(&b));

    // but not other fields
    assert!(a != c);
    assert!(hash(&a) != hash(&c));
}

fn populated_request(description: &str) -> ExecuteProcessRequest {
    ExecuteProcessRequest {
        argv: vec!["/bin/echo".to_string(), "hello".to_string()],
        env: vec![("PATH".to_string(), "/usr/bin".to_string())],
        input_files: Digest::new([7u8; 32], 42),
        output_files: vec!["out/a.txt".to_string()],
        output_directories: vec!["out/dir".to_string()],
        timeout: TimeSpan::new(30, 0),
        description: description.to_string(),
        jdk_home: Some("/opt/jdk".to_string()),
    }
}

#[test]
fn description_excluded_with_populated_fields() {
    let a = populated_request("compile a library");
    let b = populated_request("run a test");
    assert!(a == b);
    assert!(a.identity_hash() == b.identity_hash());
}

#[test]
fn differing_argv_breaks_equality() {
    let a = populated_request("same");
    let mut b = populated_request("same");
    b.argv = vec!["/bin/echo".to_string(), "goodbye".to_string()];
    assert!(a != b);
    assert!(a.identity_hash() != b.identity_hash());
}

#[test]
fn differing_env_breaks_equality() {
    let a = populated_request("same");
    let mut b = populated_request("same");
    b.env = vec![("PATH".to_string(), "/bin".to_string())];
    assert!(a != b);
    assert!(a.identity_hash() != b.identity_hash());
}

#[test]
fn differing_input_digest_breaks_equality() {
    let a = populated_request("same");
    let mut b = populated_request("same");
    b.input_files = Digest::new([8u8; 32], 42);
    assert!(a != b);
    assert!(a.identity_hash() != b.identity_hash());
}

#[test]
fn differing_jdk_home_breaks_equality() {
    let a = populated_request("same");
    let mut b = populated_request("same");
    b.jdk_home = None;
    assert!(a != b);
    assert!(a.identity_hash() != b.identity_hash());
}

#[test]
fn well_formedness_rejects_duplicate_env_keys() {
    let mut r = populated_request("same");
    assert!(r.is_well_formed());
    r.env.push(("PATH".to_string(), "/sbin".to_string()));
    assert!(!r.is_well_formed());
}

#[test]
fn well_formedness_rejects_repeated_output_paths() {
    let mut r = populated_request("same");
    r.output_files.push("out/a.txt".to_string());
    assert!(!r.is_well_formed());
}

#[test]
fn digest_equality_is_by_fingerprint_and_size() {
    let a = Digest::new([1u8; 32], 10);
    let b = Digest::new([1u8; 32], 10);
    let c = Digest::new([2u8; 32], 10);
    let d = Digest::new([1u8; 32], 11);
    assert!(a == b);
    assert!(a != c);
    assert!(a != d);
}
