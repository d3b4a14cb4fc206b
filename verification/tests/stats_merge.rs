use process_execution::stats::{ExecutionStats, UploadSummary};
use process_execution::time_span::TimeSpan;

#[test]
fn upload_summary_merge_from_zero() {
    let mut stats = ExecutionStats::default();
    stats.add_assign(UploadSummary {
        uploaded_file_count: 3,
        uploaded_file_bytes: 1024,
        upload_wall_time: TimeSpan::new(2, 0),
    });

    assert_eq!(stats.uploaded_file_count, 3);
    assert_eq!(stats.uploaded_bytes, 1024);
    assert_eq!(stats.upload, TimeSpan::new(2, 0));
    assert_eq!(stats.remote_queue, None);
    assert_eq!(stats.remote_input_fetch, None);
    assert_eq!(stats.remote_execution, None);
    assert_eq!(stats.remote_output_store, None);
    assert!(!stats.was_cache_hit);
}

#[test]
fn upload_summary_merge_accumulates() {
    let mut stats = ExecutionStats::default();
    stats.add_assign(UploadSummary {
        uploaded_file_count: 1,
        uploaded_file_bytes: 100,
        upload_wall_time: TimeSpan::new(1, 600_000_000),
    });
    stats.add_assign(UploadSummary {
        uploaded_file_count: 2,
        uploaded_file_bytes: 50,
        upload_wall_time: TimeSpan::new(0, 700_000_000),
    });

    assert_eq!(stats.uploaded_file_count, 3);
    assert_eq!(stats.uploaded_bytes, 150);
    // 1.6 s + 0.7 s carries into a whole second
    assert_eq!(stats.upload, TimeSpan::new(2, 300_000_000));
}

#[test]
fn merge_leaves_unrelated_fields_alone() {
    let mut stats = ExecutionStats::default();
    stats.remote_queue = Some(TimeSpan::new(4, 0));
    stats.was_cache_hit = true;
    stats.add_assign(UploadSummary {
        uploaded_file_count: 5,
        uploaded_file_bytes: 10,
        upload_wall_time: TimeSpan::new(0, 1),
    });
    assert_eq!(stats.remote_queue, Some(TimeSpan::new(4, 0)));
    assert!(stats.was_cache_hit);
    assert_eq!(stats.uploaded_file_count, 5);
}

#[test]
fn default_stats_are_zero() {
    let stats = ExecutionStats::default();
    assert_eq!(stats.uploaded_bytes, 0);
    assert_eq!(stats.uploaded_file_count, 0);
    assert_eq!(stats.upload, TimeSpan::zero());
    assert_eq!(stats.remote_queue, None);
    assert!(!stats.was_cache_hit);
}

#[test]
fn stats_equality_is_structural() {
    let mut a = ExecutionStats::default();
    let b = ExecutionStats::default();
    assert!(a == b);
    a.uploaded_bytes = 1;
    assert!(a != b);
}

#[test]
fn time_span_plus_carries_nanos() {
    let a = TimeSpan::new(1, 999_999_999);
    let b = TimeSpan::new(0, 2);
    let c = a.plus(b);
    assert_eq!(c, TimeSpan::new(2, 1));
}
