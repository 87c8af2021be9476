//! Orchestration logic of a foreign-exchange swap protocol run by liquidity
//! nodes on top of a transactional ledger: rate registry, quote calculation,
//! request and settlement decisions, and the per-swap monitor state machine.
use vstd::prelude::*;

pub mod account;
pub mod decimal;
pub mod event;
pub mod initiator;
pub mod monitor;
pub mod node;
pub mod registry;
pub mod setup;

verus! {

/// Name of the ledger action that carries swap events.
pub const FX_SWAP_ACTION: &'static str = "m10.fx.swap";

/// Type tag of the transfer metadata that carries an execute directive.
pub const FX_SWAP_METADATA: &'static str = "m10.fx.execute";

/// Marker for the swap-execution metadata type of a transfer.
pub struct FxSwapMetadata;

impl FxSwapMetadata {
    /// The type tag under which an execute directive travels in transfer metadata.
    pub fn type_url() -> (r: &'static str)
        ensures
            r@ == FX_SWAP_METADATA@,
    {
        FX_SWAP_METADATA
    }
}

/// Ledger address used when the configuration names none.
pub fn default_address() -> (r: String)
    ensures
        r@ == "https://develop.m10.net"@,
{
    String::from_str("https://develop.m10.net")
}

} // verus!
