use step_trader::errors::SwapError;
use step_trader::priority::PriorityLevel;
use step_trader::swap::{
    buy_quote_request, buy_swap_settings, decode_transaction, quote_request, sell_quote_request,
    sell_swap_settings, transaction_bytes, MAX_COMPUTE_LAMPORTS, USDC_MINT, WSOL_MINT,
};

#[test]
fn priority_names() {
    assert_eq!(PriorityLevel::Low.as_str(), "low");
    assert_eq!(PriorityLevel::Medium.as_str(), "medium");
    assert_eq!(PriorityLevel::High.as_str(), "high");
}

#[test]
fn zero_amount_is_invalid() {
    assert!(matches!(quote_request("a", "b", 0, 50), Err(SwapError::InvalidAmount)));
    assert!(matches!(buy_quote_request(USDC_MINT, 0, 50), Err(SwapError::InvalidAmount)));
    assert!(matches!(sell_quote_request(USDC_MINT, 0, 50), Err(SwapError::InvalidAmount)));
}

#[test]
fn buy_quote_goes_to_wsol() {
    let q = buy_quote_request(USDC_MINT, 750_000, 50).unwrap();
    assert_eq!(q.input_mint, USDC_MINT);
    assert_eq!(q.output_mint, WSOL_MINT);
    assert_eq!(q.amount, 750_000);
    assert_eq!(q.slippage_bps, 50);
}

#[test]
fn sell_quote_comes_from_wsol() {
    let q = sell_quote_request(USDC_MINT, 5_000_000, 30).unwrap();
    assert_eq!(q.input_mint, WSOL_MINT);
    assert_eq!(q.output_mint, USDC_MINT);
    assert_eq!(q.amount, 5_000_000);
    assert_eq!(q.slippage_bps, 30);
}

#[test]
fn swap_settings_by_side() {
    let b = buy_swap_settings();
    let s = sell_swap_settings();
    assert_eq!(b.priority, PriorityLevel::High);
    assert_eq!(s.priority, PriorityLevel::Medium);
    assert_eq!(b.max_lamports, MAX_COMPUTE_LAMPORTS);
    assert!(b.dynamic_compute_unit_limit && b.dynamic_slippage);
    assert!(s.dynamic_compute_unit_limit && s.dynamic_slippage);
}

#[test]
fn decode_valid_base64() {
    assert_eq!(decode_transaction("aGVsbG8=").unwrap(), b"hello".to_vec());
    assert_eq!(decode_transaction("AAEC").unwrap(), vec![0u8, 1, 2]);
    assert_eq!(decode_transaction("").unwrap(), Vec::<u8>::new());
}

#[test]
fn decode_invalid_base64_is_serialization_error() {
    assert!(matches!(decode_transaction("not base64!"), Err(SwapError::Serialization)));
    assert!(matches!(decode_transaction("aGVsbG8"), Err(SwapError::Serialization)));
}

#[test]
fn transaction_bytes_maps_outcome() {
    assert_eq!(transaction_bytes(Some(vec![7u8])).unwrap(), vec![7u8]);
    assert!(matches!(transaction_bytes(None), Err(SwapError::Serialization)));
}
