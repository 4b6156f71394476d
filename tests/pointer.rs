use step_trader::pointer::{Pointer, PointerSignal};
use step_trader::strategy::{BUY_TRIGGER_MICRO_USD, SELL_TRIGGER_MICRO_USD};

const R: u64 = 150_000_000;

fn anchored(reference: u64) -> Pointer {
    let mut p = Pointer::new();
    assert_eq!(p.update(reference), None);
    p
}

#[test]
fn first_update_emits_nothing() {
    let mut p = Pointer::new();
    assert_eq!(p.update(R), None);
    // anchored at R: the exact buy trigger from R fires
    assert_eq!(p.update(R - BUY_TRIGGER_MICRO_USD), Some(PointerSignal::BuyStep));
}

#[test]
fn first_update_even_far_from_anything_emits_nothing() {
    let mut p = Pointer::new();
    assert_eq!(p.update(1), None);
    assert_eq!(p.update(1), None);
}

#[test]
fn drop_of_buy_trigger_buys() {
    let mut p = anchored(R);
    assert_eq!(p.update(R - BUY_TRIGGER_MICRO_USD), Some(PointerSignal::BuyStep));
    // re-anchored at R - b: a further exact drop fires again
    assert_eq!(
        p.update(R - 2 * BUY_TRIGGER_MICRO_USD),
        Some(PointerSignal::BuyStep)
    );
}

#[test]
fn drop_just_short_of_buy_trigger_is_silent() {
    let mut p = anchored(R);
    assert_eq!(p.update(R - BUY_TRIGGER_MICRO_USD + 1), None);
    // reference unchanged
    assert_eq!(p.update(R - BUY_TRIGGER_MICRO_USD), Some(PointerSignal::BuyStep));
}

#[test]
fn rise_of_sell_trigger_sells() {
    let mut p = anchored(R);
    assert_eq!(p.update(R + SELL_TRIGGER_MICRO_USD), Some(PointerSignal::SellStep));
    assert_eq!(
        p.update(R + 2 * SELL_TRIGGER_MICRO_USD),
        Some(PointerSignal::SellStep)
    );
}

#[test]
fn rise_just_short_of_sell_trigger_is_silent() {
    let mut p = anchored(R);
    assert_eq!(p.update(R + SELL_TRIGGER_MICRO_USD - 1), None);
    assert_eq!(p.update(R + SELL_TRIGGER_MICRO_USD), Some(PointerSignal::SellStep));
}

#[test]
fn large_move_emits_one_signal() {
    let mut p = anchored(R);
    assert_eq!(
        p.update(R - 10 * BUY_TRIGGER_MICRO_USD),
        Some(PointerSignal::BuyStep)
    );
    assert_eq!(p.update(R - 10 * BUY_TRIGGER_MICRO_USD), None);
}

#[test]
fn ratchet_judges_against_new_reference() {
    let mut p = anchored(R);
    assert_eq!(p.update(R - BUY_TRIGGER_MICRO_USD), Some(PointerSignal::BuyStep));
    // back up by the sell trigger from the new reference, not from R
    assert_eq!(
        p.update(R - BUY_TRIGGER_MICRO_USD + SELL_TRIGGER_MICRO_USD),
        Some(PointerSignal::SellStep)
    );
}

#[test]
fn two_half_drops_fire_on_unmoved_reference() {
    let half = BUY_TRIGGER_MICRO_USD / 2;
    let mut p = anchored(R);
    assert_eq!(p.update(R - half), None);
    assert_eq!(p.update(R - 2 * half), Some(PointerSignal::BuyStep));
}

#[test]
fn two_half_drops_after_a_step_do_not_fire() {
    let half = BUY_TRIGGER_MICRO_USD / 2;
    let mut p = anchored(R);
    // a sell step moves the reference to R + s
    let top = R + SELL_TRIGGER_MICRO_USD;
    assert_eq!(p.update(top), Some(PointerSignal::SellStep));
    assert_eq!(p.update(top - half), None);
    assert_eq!(p.update(top - half + 1), None);
}
