//! What the swap collaborators are asked for: quote requests, swap-request
//! settings, and the bytes of a swap transaction handed back to be signed.
use vstd::prelude::*;

use crate::errors::SwapError;
use crate::priority::PriorityLevel;

verus! {

/// Mint of wrapped SOL.
pub const WSOL_MINT: &'static str = "So11111111111111111111111111111111111111112";

/// Mint of USDC.
pub const USDC_MINT: &'static str = "EPjFWdd5AufqSSqeM2qN1xzybapC8G4wEGGkZwyTDt1v";

/// Default priority fee, in lamports.
pub const DEFAULT_PRIORITY_FEE_LAMPORTS: u64 = 500_000;

/// Upper bound on the priority fee of one swap, in lamports.
pub const MAX_COMPUTE_LAMPORTS: u64 = 1_000_000;

/// Age after which a quote is stale, in milliseconds.
pub const MAX_QUOTE_AGE_MS: u64 = 2_000;

/// Slippage allowed on every swap, in basis points.
pub const SLIPPAGE_BPS: u16 = 50;

/// A request for a swap quote: trade `amount` base units of `input_mint`
/// for `output_mint`.
#[derive(Debug, Clone)]
pub struct QuoteRequest {
    pub input_mint: String,
    pub output_mint: String,
    pub amount: u64,
    pub slippage_bps: u16,
}

/// Whether `q` asks for exactly the given swap.
pub open spec fn requests(q: QuoteRequest, input_mint: Seq<char>, output_mint: Seq<char>, amount: u64, slippage_bps: u16) -> bool {
    &&& q.input_mint@ == input_mint
    &&& q.output_mint@ == output_mint
    &&& q.amount == amount
    &&& q.slippage_bps == slippage_bps
}

/// The quote request for a swap, refused with `InvalidAmount` when the amount is zero.
pub fn quote_request(input_mint: &str, output_mint: &str, amount: u64, slippage_bps: u16) -> (r: Result<
    QuoteRequest,
    SwapError,
>)
    ensures
        match r {
            Ok(q) => amount != 0 && requests(q, input_mint@, output_mint@, amount, slippage_bps),
            Err(e) => amount == 0 && e is InvalidAmount,
        },
{
    if amount == 0 {
        return Err(SwapError::InvalidAmount);
    }
    Ok(QuoteRequest {
        input_mint: input_mint.to_string(),
        output_mint: output_mint.to_string(),
        amount,
        slippage_bps,
    })
}

/// The quote request for buying SOL with `amount` base units of `input_mint`.
pub fn buy_quote_request(input_mint: &str, amount: u64, slippage_bps: u16) -> (r: Result<
    QuoteRequest,
    SwapError,
>)
    ensures
        match r {
            Ok(q) => amount != 0 && requests(q, input_mint@, WSOL_MINT@, amount, slippage_bps),
            Err(e) => amount == 0 && e is InvalidAmount,
        },
{
    quote_request(input_mint, WSOL_MINT, amount, slippage_bps)
}

/// The quote request for selling `amount` lamports of SOL for `output_mint`.
pub fn sell_quote_request(output_mint: &str, amount: u64, slippage_bps: u16) -> (r: Result<
    QuoteRequest,
    SwapError,
>)
    ensures
        match r {
            Ok(q) => amount != 0 && requests(q, WSOL_MINT@, output_mint@, amount, slippage_bps),
            Err(e) => amount == 0 && e is InvalidAmount,
        },
{
    quote_request(WSOL_MINT, output_mint, amount, slippage_bps)
}

/// How the swap service is asked to build a transaction from a quote.
#[derive(Debug, Clone, Copy, PartialEq, Eq, Structural)]
pub struct SwapSettings {
    pub dynamic_compute_unit_limit: bool,
    pub dynamic_slippage: bool,
    pub max_lamports: u64,
    pub priority: PriorityLevel,
}

/// Settings with dynamic compute limit and slippage, the fee capped at
/// `MAX_COMPUTE_LAMPORTS`, and the given priority.
pub fn swap_settings(priority: PriorityLevel) -> (r: SwapSettings)
    ensures
        r == (SwapSettings {
            dynamic_compute_unit_limit: true,
            dynamic_slippage: true,
            max_lamports: MAX_COMPUTE_LAMPORTS,
            priority,
        }),
{
    SwapSettings {
        dynamic_compute_unit_limit: true,
        dynamic_slippage: true,
        max_lamports: MAX_COMPUTE_LAMPORTS,
        priority,
    }
}

/// Buys bid a high priority.
pub fn buy_swap_settings() -> (r: SwapSettings)
    ensures
        r == swap_settings_spec(PriorityLevel::High),
{
    swap_settings(PriorityLevel::High)
}

/// Sells bid a medium priority.
pub fn sell_swap_settings() -> (r: SwapSettings)
    ensures
        r == swap_settings_spec(PriorityLevel::Medium),
{
    swap_settings(PriorityLevel::Medium)
}

/// The settings that `swap_settings` gives for `priority`.
pub open spec fn swap_settings_spec(priority: PriorityLevel) -> SwapSettings {
    SwapSettings {
        dynamic_compute_unit_limit: true,
        dynamic_slippage: true,
        max_lamports: MAX_COMPUTE_LAMPORTS,
        priority,
    }
}

/// The swap service's answer to a swap request: the unsigned transaction,
/// as base64 text.
#[derive(Debug, Clone)]
pub struct JupiterSwapResponse {
    pub swap_transaction: String,
}

/// The bytes that a text decodes to as standard, padded base64, or `None`
/// where it is not such base64.
pub uninterp spec fn base64_decoded(text: Seq<char>) -> Option<Seq<u8>>;

/// Relies on `base64::decode` (0.21, standard alphabet with padding): it
/// returns the decoded bytes, or an error where the text is not valid base64,
/// and the outcome depends on the text alone.
#[verifier::external_body]
#[allow(deprecated)]
fn decode_base64(text: &str) -> (r: Option<Vec<u8>>)
    ensures
        match r {
            Some(bytes) => base64_decoded(text@) == Some(bytes@),
            None => base64_decoded(text@) is None,
        },
{
    base64::decode(text).ok()
}

/// The transaction bytes out of a decoding outcome; a text that did not
/// decode is a serialization failure.
pub fn transaction_bytes(decoded: Option<Vec<u8>>) -> (r: Result<Vec<u8>, SwapError>)
    ensures
        match decoded {
            Some(bytes) => r matches Ok(b) && b@ == bytes@,
            None => r matches Err(e) && e is Serialization,
        },
{
    match decoded {
        Some(bytes) => Ok(bytes),
        None => Err(SwapError::Serialization),
    }
}

/// The bytes of a swap transaction that the swap service handed back as
/// base64 text, or `Serialization` where the text is not valid base64.
pub fn decode_transaction(base64_tx: &str) -> (r: Result<Vec<u8>, SwapError>)
    ensures
        match base64_decoded(base64_tx@) {
            Some(bytes) => r matches Ok(b) && b@ == bytes,
            None => r matches Err(e) && e is Serialization,
        },
{
    transaction_bytes(decode_base64(base64_tx))
}

} // verus!
