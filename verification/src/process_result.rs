//! The outcome of one full process execution.

use vstd::prelude::*;
use crate::digest::Digest;
use crate::stats::ExecutionStats;

verus! {

/// The result of running a process: captured output streams, the exit
/// status, a digest of the captured output file tree, and one statistics
/// record per physical attempt made to produce this result.
///
/// Equality is full structural equality of all fields — unlike a request,
/// a result has no field excluded from comparison.
#[derive(Clone, Debug)]
pub struct FallibleExecuteProcessResult {
    pub stdout: Vec<u8>,
    pub stderr: Vec<u8>,
    pub exit_code: i32,
    pub output_directory: Digest,
    pub execution_attempts: Vec<ExecutionStats>,
}

impl FallibleExecuteProcessResult {
    /// The same result with its attempt history cleared; every other field
    /// is kept unchanged.
    pub fn without_execution_attempts(self) -> (r: Self)
        ensures
            r.stdout@ == self.stdout@,
            r.stderr@ == self.stderr@,
            r.exit_code == self.exit_code,
            r.output_directory == self.output_directory,
            r.execution_attempts@ == Seq::<ExecutionStats>::empty(),
    {
        let mut cleared = self;
        cleared.execution_attempts = Vec::new();
        proof {
            assert(cleared.execution_attempts@ =~= Seq::<ExecutionStats>::empty());
        }
        cleared
    }
}

impl PartialEq for FallibleExecuteProcessResult {
    fn eq(&self, other: &FallibleExecuteProcessResult) -> (r: bool) {
        let r = self.stdout == other.stdout
            && self.stderr == other.stderr
            && self.exit_code == other.exit_code
            && self.output_directory == other.output_directory
            && self.execution_attempts == other.execution_attempts;
        proof {
            if r {
                assert(self.stdout@ =~= other.stdout@);
                assert(self.stderr@ =~= other.stderr@);
                assert(self.execution_attempts@ =~= other.execution_attempts@);
            }
        }
        r
    }
}

impl Eq for FallibleExecuteProcessResult {}

impl vstd::std_specs::cmp::PartialEqSpecImpl for FallibleExecuteProcessResult {
    open spec fn obeys_eq_spec() -> bool {
        true
    }

    open spec fn eq_spec(&self, other: &FallibleExecuteProcessResult) -> bool {
        &&& self.stdout@ == other.stdout@
        &&& self.stderr@ == other.stderr@
        &&& self.exit_code == other.exit_code
        &&& self.output_directory.fingerprint@ == other.output_directory.fingerprint@
        &&& self.output_directory.size_bytes == other.output_directory.size_bytes
        &&& self.execution_attempts@ == other.execution_attempts@
    }
}

} // verus!
