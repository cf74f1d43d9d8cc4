//! What a caller configures: the adapter, the name to look for, the budget.

use vstd::prelude::*;
use crate::span::{Span, NANOS_PER_SEC};

verus! {

/// Seconds that a search lasts unless configured otherwise.
pub const DEFAULT_SEARCH_SECS: u64 = 20u64;

/// Settings of one connection attempt.
#[derive(Debug, Clone, PartialEq, Eq)]
pub struct Options {
    /// Position of the adapter to use among those that the platform lists.
    pub adaptor: usize,
    /// Prefix that the advertised local name of the device must start with.
    pub local_name: String,
    /// Wall-clock budget of the search.
    pub search_timeout: Span,
}

impl Options {
    /// Settings from their three parts.
    pub fn new(adaptor: usize, local_name: String, search_timeout: Span) -> (r: Options)
        ensures
            r.adaptor == adaptor,
            r.local_name == local_name,
            r.search_timeout == search_timeout,
    {
        Options { adaptor, local_name, search_timeout }
    }
}

impl Default for Options {
    /// The first adapter, the name prefix `J1`, twenty seconds.
    fn default() -> (r: Options)
        ensures
            r.adaptor == 0,
            r.local_name@ == "J1"@,
            r.search_timeout.as_nanos() == DEFAULT_SEARCH_SECS * NANOS_PER_SEC,
    {
        Options {
            adaptor: 0,
            local_name: "J1".to_owned(),
            search_timeout: Span::from_secs(DEFAULT_SEARCH_SECS),
        }
    }
}

} // verus!
