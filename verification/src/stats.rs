//! Per-attempt execution statistics and the upload-summary merge.

use vstd::prelude::*;
use crate::time_span::TimeSpan;

verus! {

/// Accounting for one upload performed while preparing an execution:
/// how many files went up, how many bytes they held, and how long the
/// upload took on the wall clock.
#[derive(Clone, Copy, Debug)]
pub struct UploadSummary {
    pub uploaded_file_count: usize,
    pub uploaded_file_bytes: usize,
    pub upload_wall_time: TimeSpan,
}

/// Statistics accumulated over one physical execution attempt.
///
/// The default value is all-zero/empty.  The only combining operation is
/// [`ExecutionStats::add_assign`], which folds an [`UploadSummary`] into the
/// three upload fields and touches nothing else.
#[derive(Clone, Copy, Debug)]
pub struct ExecutionStats {
    pub uploaded_bytes: usize,
    pub uploaded_file_count: usize,
    pub upload: TimeSpan,
    pub remote_queue: Option<TimeSpan>,
    pub remote_input_fetch: Option<TimeSpan>,
    pub remote_execution: Option<TimeSpan>,
    pub remote_output_store: Option<TimeSpan>,
    pub was_cache_hit: bool,
}

impl ExecutionStats {
    /// All counters zero, all durations zero or absent, no cache hit.
    pub open spec fn is_zero(self) -> bool {
        &&& self.uploaded_bytes == 0
        &&& self.uploaded_file_count == 0
        &&& self.upload.secs == 0
        &&& self.upload.nanos == 0
        &&& self.remote_queue is None
        &&& self.remote_input_fetch is None
        &&& self.remote_execution is None
        &&& self.remote_output_store is None
        &&& self.was_cache_hit == false
    }

    /// Both duration-bearing fields that the merge reads are well formed.
    pub open spec fn wf(self) -> bool {
        self.upload.wf()
    }

    /// Folds an upload summary into the accumulator: the uploaded-file
    /// count, uploaded-byte count and upload duration are incremented by
    /// the summary's corresponding fields; every other field is untouched.
    pub fn add_assign(&mut self, summary: UploadSummary)
        requires
            old(self).wf(),
            summary.upload_wall_time.wf(),
            old(self).uploaded_file_count + summary.uploaded_file_count <= usize::MAX,
            old(self).uploaded_bytes + summary.uploaded_file_bytes <= usize::MAX,
            old(self).upload.secs + summary.upload_wall_time.secs < u64::MAX,
        ensures
            final(self).wf(),
            final(self).uploaded_file_count == old(self).uploaded_file_count
                + summary.uploaded_file_count,
            final(self).uploaded_bytes == old(self).uploaded_bytes + summary.uploaded_file_bytes,
            final(self).upload.total_nanos() == old(self).upload.total_nanos()
                + summary.upload_wall_time.total_nanos(),
            final(self).remote_queue == old(self).remote_queue,
            final(self).remote_input_fetch == old(self).remote_input_fetch,
            final(self).remote_execution == old(self).remote_execution,
            final(self).remote_output_store == old(self).remote_output_store,
            final(self).was_cache_hit == old(self).was_cache_hit,
    {
        self.uploaded_file_count = self.uploaded_file_count + summary.uploaded_file_count;
        self.uploaded_bytes = self.uploaded_bytes + summary.uploaded_file_bytes;
        self.upload = self.upload.plus(summary.upload_wall_time);
    }
}

impl Default for ExecutionStats {
    /// The zero-valued statistics record.
    fn default() -> (r: ExecutionStats)
        ensures
            r.is_zero(),
            r.wf(),
    {
        ExecutionStats {
            uploaded_bytes: 0,
            uploaded_file_count: 0,
            upload: TimeSpan::zero(),
            remote_queue: None,
            remote_input_fetch: None,
            remote_execution: None,
            remote_output_store: None,
            was_cache_hit: false,
        }
    }
}

impl PartialEq for ExecutionStats {
    fn eq(&self, other: &ExecutionStats) -> (r: bool) {
        self.uploaded_bytes == other.uploaded_bytes
            && self.uploaded_file_count == other.uploaded_file_count
            && self.upload == other.upload
            && opt_span_eq(&self.remote_queue, &other.remote_queue)
            && opt_span_eq(&self.remote_input_fetch, &other.remote_input_fetch)
            && opt_span_eq(&self.remote_execution, &other.remote_execution)
            && opt_span_eq(&self.remote_output_store, &other.remote_output_store)
            && self.was_cache_hit == other.was_cache_hit
    }
}

impl Eq for ExecutionStats {}

impl vstd::std_specs::cmp::PartialEqSpecImpl for ExecutionStats {
    open spec fn obeys_eq_spec() -> bool {
        true
    }

    open spec fn eq_spec(&self, other: &ExecutionStats) -> bool {
        &&& self.uploaded_bytes == other.uploaded_bytes
        &&& self.uploaded_file_count == other.uploaded_file_count
        &&& self.upload == other.upload
        &&& self.remote_queue == other.remote_queue
        &&& self.remote_input_fetch == other.remote_input_fetch
        &&& self.remote_execution == other.remote_execution
        &&& self.remote_output_store == other.remote_output_store
        &&& self.was_cache_hit == other.was_cache_hit
    }
}

/// Structural equality of two optional time spans.
fn opt_span_eq(a: &Option<TimeSpan>, b: &Option<TimeSpan>) -> (r: bool)
    ensures
        r == (a == b),
{
    match (a, b) {
        (Some(x), Some(y)) => *x == *y,
        (None, None) => true,
        _ => false,
    }
}

} // verus!
