//! The `cache` command and its messages.
use vstd::prelude::*;
use crate::text::{concat2, concat3};

verus! {

/// Refresh or clear the downloaded data of the providers.
#[derive(Debug, Clone, Copy, PartialEq, Eq, Structural)]
pub enum CacheCommand {
    Refresh,
    Clear,
}

/// What is reported after refreshing a provider's data.
pub fn refresh_message(provider: &str, result: &Result<(), String>) -> (r: String)
    ensures
        result is Ok ==> r@ == "\n✓ Cache refreshed for "@ + provider@,
        result matches Err(e) ==> r@ == "Warning: Failed to refresh cache for "@ + provider@ + ": "@ + e@,
{
    match result {
        Ok(()) => concat2("\n✓ Cache refreshed for ", provider),
        Err(e) => {
            let a = concat3("Warning: Failed to refresh cache for ", provider, ": ");
            concat2(a.as_str(), e.as_str())
        },
    }
}

/// What is reported after clearing a provider's data.
pub fn clear_message(provider: &str, result: &Result<(), String>) -> (r: String)
    ensures
        result is Ok ==> r@ == "Cache cleared for "@ + provider@,
        result matches Err(e) ==> r@ == "Warning: Failed to clear cache for "@ + provider@ + ": "@ + e@,
{
    match result {
        Ok(()) => concat2("Cache cleared for ", provider),
        Err(e) => {
            let a = concat3("Warning: Failed to clear cache for ", provider, ": ");
            concat2(a.as_str(), e.as_str())
        },
    }
}

} // verus!
