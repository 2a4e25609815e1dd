//! Settings of the delivery client and of the process, as plain values.

use vstd::prelude::*;
use vstd::string::StringExecFns;

verus! {

/// The longest that one HTTP request may take, in seconds.
pub const REQUEST_TIMEOUT_SECS: u64 = 10;

/// How a failed delivery is tried again: a bounded number of times, waiting
/// longer each time, never longer than a maximum. After the last try the
/// delivery is given up.
#[derive(Clone, Copy, Debug, PartialEq, Eq, Structural)]
pub struct RetryPolicy {
    pub max_n_retries: u32,
    pub min_retry_interval_ms: u64,
    pub max_retry_interval_ms: u64,
    pub backoff_exponent: u32,
}

impl RetryPolicy {
    /// Whether the policy makes sense: the waits are ordered, and they grow.
    pub open spec fn well_formed(self) -> bool {
        self.min_retry_interval_ms <= self.max_retry_interval_ms && self.backoff_exponent >= 1
    }

    /// The policy of the delivery client: three retries, waits from a tenth
    /// of a second, doubling, up to the request timeout.
    pub fn transport() -> (r: RetryPolicy)
        ensures
            r == (RetryPolicy {
                max_n_retries: 3,
                min_retry_interval_ms: 100,
                max_retry_interval_ms: 10000,
                backoff_exponent: 2,
            }),
            r.well_formed(),
    {
        RetryPolicy {
            max_n_retries: 3,
            min_retry_interval_ms: 100,
            max_retry_interval_ms: REQUEST_TIMEOUT_SECS * 1000,
            backoff_exponent: 2,
        }
    }
}

/// Whether the arguments of the process ask for the documentation of the
/// configuration instead of a running server: the program's name followed
/// by `--print-config-docs` and nothing else.
pub fn wants_config_docs(args: &Vec<String>) -> (r: bool)
    ensures
        r == (args@.len() == 2 && args@[1]@ == "--print-config-docs"@),
{
    if args.len() != 2 {
        return false;
    }
    let flag = String::from_str("--print-config-docs");
    args[1] == flag
}

} // verus!
