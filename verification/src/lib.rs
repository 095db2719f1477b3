//! Synchronization engine for a wallet's transaction history against a
//! remote, rate-limited block-explorer style data service.
//!
//! The verified core covers the rate-limit-aware retry policy, the paginating
//! script-history collector, the in-memory transaction index, and the
//! four-stage sync driver that turns discovered histories into an ordered,
//! fully resolved batch. Network transport and persistence live outside the
//! library and exchange plain values with it.

pub mod collector;
pub mod driver;
pub mod errors;
pub mod fetcher;
pub mod index;
pub mod records;

use vstd::prelude::*;

verus! {

/// What the engine can do for its callers.
#[derive(Clone, Copy, Debug, PartialEq, Eq, Structural)]
pub enum Capability {
    /// Retrieve a wallet's full transaction history.
    FullHistory,
    /// Look up arbitrary transactions by id.
    GetAnyTx,
    /// Provide accurate (not heuristic) fee-rate estimates.
    AccurateFees,
}

/// The capabilities the engine advertises to callers.
pub fn get_capabilities() -> (caps: Vec<Capability>)
    ensures
        caps@ == seq![Capability::FullHistory, Capability::GetAnyTx, Capability::AccurateFees],
{
    let mut caps: Vec<Capability> = Vec::new();
    caps.push(Capability::FullHistory);
    caps.push(Capability::GetAnyTx);
    caps.push(Capability::AccurateFees);
    proof {
        assert(caps@ =~= seq![
            Capability::FullHistory,
            Capability::GetAnyTx,
            Capability::AccurateFees,
        ]);
    }
    caps
}

} // verus!
