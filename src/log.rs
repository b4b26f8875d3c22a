//! Diagnostic log lines handed to consumers.
use vstd::prelude::*;

verus! {

/// One diagnostic line with its time stamp.
#[derive(Clone, Debug)]
pub struct BackendLog {
    pub t_ms: u64,
    pub msg: String,
}

impl BackendLog {
    pub fn new(t_ms: u64, msg: String) -> (r: BackendLog)
        ensures
            r.t_ms == t_ms,
            r.msg@ == msg@,
    {
        BackendLog { t_ms, msg }
    }
}

} // verus!
