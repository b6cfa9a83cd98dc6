//! Settings of the error-reporting service.
use vstd::prelude::*;

verus! {

/// Where errors are reported.
#[derive(Debug)]
pub struct SentrySettings {
    pub address: String,
}

} // verus!
