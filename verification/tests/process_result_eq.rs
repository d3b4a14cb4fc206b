use process_execution::digest::Digest;
use process_execution::process_result::FallibleExecuteProcessResult;
use process_execution::stats::ExecutionStats;

fn sample_result() -> FallibleExecuteProcessResult {
    let mut attempt = ExecutionStats::default();
    attempt.uploaded_bytes = 12;
    FallibleExecuteProcessResult {
        stdout: b"hello".to_vec(),
        stderr: b"warning".to_vec(),
        exit_code: 0,
        output_directory: Digest::new([3u8; 32], 5),
        execution_attempts: vec![attempt],
    }
}

#[test]
fn result_equality_is_full_structural() {
    let a = sample_result();
    let b = sample_result();
    assert!(a == b);

    let mut c = sample_result();
    c.stdout = b"other".to_vec();
    assert!(a != c);

    let mut d = sample_result();
    d.exit_code = 1;
    assert!(a != d);

    // unlike a request, a result has no field excluded from equality:
    // the attempt history counts too
    let mut e = sample_result();
    e.execution_attempts = vec![];
    assert!(a != e);
}

#[test]
fn nonzero_exit_is_still_a_result() {
    let mut r = sample_result();
    r.exit_code = 42;
    assert_eq!(r.exit_code, 42);
    assert!(r == r.clone());
}

#[test]
fn without_execution_attempts_clears_only_attempts() {
    let a = sample_result();
    let cleared = a.clone().without_execution_attempts();
    assert!(cleared.execution_attempts.is_empty());
    assert_eq!(cleared.stdout, a.stdout);
    assert_eq!(cleared.stderr, a.stderr);
    assert_eq!(cleared.exit_code, a.exit_code);
    assert!(cleared.output_directory == a.output_directory);
}
