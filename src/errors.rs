//! Failures of the swap collaborators.
use vstd::prelude::*;

verus! {

/// Why a quote, a swap transaction or its submission failed.
#[derive(Debug, Clone)]
pub enum SwapError {
    InvalidAmount,
    QuoteExpired,
    JupiterApi(String),
    NetworkTimeout,
    Rpc(String),
    Serialization,
    Signing,
}

} // verus!
