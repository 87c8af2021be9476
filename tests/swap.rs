use core::cmp::Ordering;
use fx_swap::account::AccountId;
use fx_swap::decimal::Dec;
use fx_swap::event::{Event, Execute, Quote, Request};
use fx_swap::initiator::{accept_quote, new_request, quoted_amount};
use fx_swap::monitor::{SwapAction, SwapEvent, SwapMonitor, SwapState, Timestamp};
use fx_swap::node::{classify_reply, monitor_for, same_context, Reply};
use fx_swap::registry::{currency_key, Ledger, RateError, Registry};
use fx_swap::{default_address, FxSwapMetadata, FX_SWAP_ACTION, FX_SWAP_METADATA};

const USD_LIQUIDITY: &str = "00000000000000000000000000000a01";
const EUR_LIQUIDITY: &str = "00000000000000000000000000000e01";

fn dec(m: i128, s: u32) -> Dec {
    Dec::from_parts(m, s).unwrap()
}

fn account(raw: u128) -> AccountId {
    AccountId { raw }
}

fn usd_node() -> Ledger {
    Ledger::new("USD", USD_LIQUIDITY, dec(1, 0)).unwrap()
}

fn eur_node() -> Ledger {
    Ledger::new("EUR", EUR_LIQUIDITY, dec(9, 1)).unwrap()
}

fn registry() -> Registry {
    let mut r = Registry::new();
    r.insert(usd_node());
    r.insert(eur_node());
    r
}

fn alice() -> AccountId {
    account(0xa11ce)
}

fn bob() -> AccountId {
    account(0xb0b)
}

fn request() -> Request {
    Request { from: alice(), to: bob(), amount: dec(100, 0) }
}

fn at(secs: u64) -> Timestamp {
    Timestamp { secs, nanos: 0 }
}

fn same(a: Dec, b: Dec) -> bool {
    a.compare(&b) == Ordering::Equal
}

fn execute(valid_until: u64) -> Execute {
    let quote = Quote { request: request(), rate: dec(9, 1), intermediary: account(0xa01) };
    accept_quote(&quote, dec(5, 2), at(valid_until - 300), None).unwrap()
}

fn armed(valid_until: u64) -> SwapMonitor {
    let reg = registry();
    SwapMonitor::new(&reg, execute(valid_until), vec![7, 7], "usd".to_string(), "eur".to_string())
        .unwrap()
}

#[test]
fn constants_and_defaults() {
    assert_eq!(FX_SWAP_ACTION, "m10.fx.swap");
    assert_eq!(FX_SWAP_METADATA, "m10.fx.execute");
    assert_eq!(FxSwapMetadata::type_url(), "m10.fx.execute");
    assert_eq!(default_address(), "https://develop.m10.net");
}

#[test]
fn ledger_keys_currency_in_lower_case() {
    let l = usd_node();
    assert_eq!(l.currency, "usd");
    assert_eq!(l.liquidity, account(0xa01));
    assert_eq!(currency_key("EuR"), "eur");
    assert!(Ledger::new("USD", "xyz", dec(1, 0)).is_err());
}

#[test]
fn registry_lookup_and_replacement() {
    let mut r = registry();
    assert_eq!(r.get("usd").unwrap().liquidity, account(0xa01));
    assert!(r.get("USD").is_none());
    assert!(r.get("btc").is_none());
    r.insert(Ledger::new("usd", EUR_LIQUIDITY, dec(2, 0)).unwrap());
    assert_eq!(r.get("usd").unwrap().liquidity, account(0xe01));
    assert!(same(r.get("usd").unwrap().base_rate, dec(2, 0)));
}

#[test]
fn rate_is_ratio_of_base_rates() {
    let r = registry();
    assert!(same(r.rate("usd", "eur").unwrap(), dec(9, 1)));
    assert_eq!(r.rate("usd", "gbp"), Err(RateError::UnknownCurrency));
    assert_eq!(r.rate("gbp", "usd"), Err(RateError::UnknownCurrency));
}

#[test]
fn rate_to_itself_is_one() {
    let r = registry();
    assert!(same(r.rate("usd", "usd").unwrap(), Dec::one()));
    assert!(same(r.rate("eur", "eur").unwrap(), Dec::one()));
}

#[test]
fn rates_both_ways_multiply_to_one() {
    let r = registry();
    let there = r.rate("usd", "eur").unwrap();
    let back = r.rate("eur", "usd").unwrap();
    let p = there.checked_mul(&back).unwrap();
    let eps = dec(1, 20);
    assert!(p.le(&Dec::one().checked_add(&eps).unwrap()));
    assert!(Dec::one().checked_sub(&eps).unwrap().le(&p));
}

#[test]
fn zero_base_rate_gives_invalid_rate() {
    let mut r = registry();
    r.insert(Ledger::new("xau", USD_LIQUIDITY, dec(0, 0)).unwrap());
    assert_eq!(r.rate("xau", "usd"), Err(RateError::InvalidRate));
}

#[test]
fn source_node_quotes_request() {
    let reg = registry();
    let reply = usd_node()
        .quote_request(&reg, request(), "usd", "eur", vec![1, 2, 3])
        .unwrap()
        .unwrap();
    assert!(same(reply.quote.rate, dec(9, 1)));
    assert_eq!(reply.quote.intermediary, account(0xa01));
    assert_eq!(reply.quote.request, request());
    assert_eq!(reply.sender, account(0xa01));
    assert_eq!(reply.target, alice());
    assert_eq!(reply.context, vec![1, 2, 3]);
}

#[test]
fn other_node_ignores_request() {
    let reg = registry();
    let r = eur_node().quote_request(&reg, request(), "usd", "eur", vec![1]);
    assert!(matches!(r, Ok(None)));
}

#[test]
fn quote_for_unknown_target_fails() {
    let reg = registry();
    let r = usd_node().quote_request(&reg, request(), "usd", "gbp", vec![1]);
    assert!(matches!(r, Err(RateError::UnknownCurrency)));
}

#[test]
fn monitor_only_for_execute_events() {
    let reg = registry();
    let ex = execute(1_000);
    let m = monitor_for(&reg, Event::Execute(ex), vec![9], "usd".into(), "eur".into())
        .unwrap()
        .unwrap();
    assert_eq!(m.state, SwapState::Armed);
    assert_eq!(m.liquidity, account(0xe01));
    assert_eq!(m.context, vec![9]);
    assert!(monitor_for(&reg, Event::Completed, vec![9], "usd".into(), "eur".into()).is_none());
    let missing = monitor_for(&reg, Event::Execute(ex), vec![9], "usd".into(), "gbp".into());
    assert!(matches!(missing, Some(Err(RateError::UnknownCurrency))));
}

#[test]
fn execute_limits_from_margin() {
    let ex = execute(1_000);
    assert!(same(ex.upper_limit, dec(945, 3)));
    assert!(same(ex.lower_limits, dec(855, 3)));
    assert_eq!(ex.valid_until, 1_000);
    assert_eq!(ex.request, request());
}

#[test]
fn execute_default_and_given_validity() {
    let quote = Quote { request: request(), rate: dec(9, 1), intermediary: account(1) };
    let e = accept_quote(&quote, dec(1, 1), Timestamp { secs: 50, nanos: 999 }, Some(10)).unwrap();
    assert_eq!(e.valid_until, 60);
    assert!(accept_quote(&quote, dec(1, 1), at(u64::MAX - 5), None).is_none());
}

#[test]
fn initiator_transfer_amount() {
    let quote = Quote { request: request(), rate: dec(9, 1), intermediary: account(1) };
    assert_eq!(quoted_amount(&quote), Some(90));
}

#[test]
fn request_from_minor_units() {
    let r = new_request(alice(), bob(), 10_000, 2).unwrap();
    assert!(same(r.amount, dec(100, 0)));
    assert_eq!(r.from, alice());
    assert!(new_request(alice(), bob(), 1, 29).is_none());
    let large = new_request(alice(), bob(), u64::MAX, 0).unwrap();
    assert_eq!(large.amount, dec(u64::MAX as i128, 0));
}

#[test]
fn monitor_stays_armed_inside_band() {
    let mut m = armed(1_000);
    for rate in [dec(9, 1), dec(855, 3), dec(9449, 4)] {
        let a = m.step(SwapEvent::Tick { rate: Some(rate), now: at(999) });
        assert_eq!(a, SwapAction::Wait);
        assert_eq!(m.state, SwapState::Armed);
    }
    let a = m.step(SwapEvent::Tick { rate: None, now: at(5_000) });
    assert_eq!(a, SwapAction::Wait);
    assert_eq!(m.state, SwapState::Armed);
}

#[test]
fn monitor_settles_at_upper_limit() {
    let mut m = armed(1_000);
    let a = m.step(SwapEvent::Tick { rate: Some(dec(945, 3)), now: at(10) });
    assert_eq!(a, SwapAction::Transfer { from: account(0xe01), to: bob(), amount: 94 });
    assert_eq!(m.state, SwapState::Transferring { amount: 94 });
}

#[test]
fn monitor_settles_below_lower_limit() {
    let mut m = armed(1_000);
    let a = m.step(SwapEvent::Tick { rate: Some(dec(8549, 4)), now: at(10) });
    assert_eq!(a, SwapAction::Transfer { from: account(0xe01), to: bob(), amount: 85 });
}

#[test]
fn monitor_settles_once() {
    let mut m = armed(1_000);
    let first = m.step(SwapEvent::Tick { rate: Some(dec(8, 1)), now: at(10) });
    assert!(matches!(first, SwapAction::Transfer { .. }));
    let again = m.step(SwapEvent::Tick { rate: Some(dec(7, 1)), now: at(20) });
    assert_eq!(again, SwapAction::Wait);
    let announce = m.step(SwapEvent::TransferSubmitted);
    assert_eq!(announce, SwapAction::AnnounceCompleted { from: account(0xe01), to: alice() });
    assert_eq!(m.step(SwapEvent::TransferSubmitted), SwapAction::Wait);
    assert_eq!(m.step(SwapEvent::CompletionAnnounced), SwapAction::Finish);
    assert_eq!(m.state, SwapState::Completed);
    let late = m.step(SwapEvent::Tick { rate: Some(dec(1, 1)), now: at(30) });
    assert_eq!(late, SwapAction::Finish);
}

#[test]
fn monitor_gives_up_on_failed_submission() {
    let mut m = armed(1_000);
    m.step(SwapEvent::Tick { rate: Some(dec(8, 1)), now: at(10) });
    assert_eq!(m.step(SwapEvent::SubmissionFailed), SwapAction::Abort);
    assert_eq!(m.state, SwapState::Failed);
    assert_eq!(m.step(SwapEvent::TransferSubmitted), SwapAction::Abort);
}

#[test]
fn settle_aborts_without_amount() {
    let mut m = armed(1_000);
    assert_eq!(m.settle(None), SwapAction::Abort);
    assert_eq!(m.state, SwapState::Failed);
    let mut n = armed(1_000);
    assert_eq!(n.settle(Some(dec(-3, 0))), SwapAction::Abort);
    let mut k = armed(1_000);
    let a = k.settle(Some(dec(1234, 1)));
    assert_eq!(a, SwapAction::Transfer { from: account(0xe01), to: bob(), amount: 123 });
}

#[test]
fn end_to_end_band_breach() {
    let reg = registry();
    let reply = usd_node()
        .quote_request(&reg, request(), "usd", "eur", vec![4, 2])
        .unwrap()
        .unwrap();
    assert!(same(reply.quote.rate, dec(9, 1)));
    let ex = accept_quote(&reply.quote, dec(5, 2), at(0), None).unwrap();
    assert!(same(ex.upper_limit, dec(945, 3)));
    assert!(same(ex.lower_limits, dec(855, 3)));
    let mut m = monitor_for(&reg, Event::Execute(ex), reply.context.clone(), "usd".into(), "eur".into())
        .unwrap()
        .unwrap();
    let a = m.step(SwapEvent::Tick { rate: Some(dec(80, 2)), now: at(1) });
    assert_eq!(a, SwapAction::Transfer { from: account(0xe01), to: bob(), amount: 80 });
    let b = m.step(SwapEvent::TransferSubmitted);
    assert_eq!(b, SwapAction::AnnounceCompleted { from: account(0xe01), to: alice() });
    assert_eq!(m.context, vec![4, 2]);
    assert_eq!(classify_reply(&vec![4, 2], &m.context, Some(Event::Completed)), Reply::Completed);
}

#[test]
fn end_to_end_deadline() {
    let reg = registry();
    let mut m = armed(1_000);
    assert_eq!(m.tick(&reg, at(1_000)), SwapAction::Wait);
    let a = m.tick(&reg, Timestamp { secs: 1_000, nanos: 1 });
    assert_eq!(a, SwapAction::Transfer { from: account(0xe01), to: bob(), amount: 90 });
}

#[test]
fn tick_skips_zero_base_rate() {
    let mut reg = registry();
    reg.insert(Ledger::new("xau", USD_LIQUIDITY, dec(0, 0)).unwrap());
    let mut m = SwapMonitor::new(&reg, execute(1_000), vec![1], "xau".into(), "eur".into()).unwrap();
    assert_eq!(m.tick(&reg, at(5_000)), SwapAction::Wait);
    assert_eq!(m.state, SwapState::Armed);
}

#[test]
fn tick_skips_unreadable_rate() {
    let reg = registry();
    let mut m = SwapMonitor::new(&reg, execute(1_000), vec![1], "gbp".into(), "eur".into()).unwrap();
    assert_eq!(m.tick(&reg, at(5_000)), SwapAction::Wait);
    assert_eq!(m.state, SwapState::Armed);
}

#[test]
fn replies_of_other_swaps_are_set_aside() {
    let quote = Quote { request: request(), rate: dec(9, 1), intermediary: account(1) };
    let mine = vec![1, 2, 3];
    let theirs = vec![1, 2, 4];
    assert_eq!(classify_reply(&mine, &theirs, Some(Event::Quote(quote))), Reply::OtherSwap);
    assert_eq!(classify_reply(&mine, &mine, Some(Event::Quote(quote))), Reply::Quote(quote));
    assert_eq!(classify_reply(&mine, &mine, Some(Event::Request(request()))), Reply::Invalid);
    assert_eq!(classify_reply(&mine, &mine, None), Reply::Invalid);
    assert!(same_context(&mine, &vec![1, 2, 3]));
    assert!(!same_context(&mine, &vec![1, 2]));
}

#[test]
fn contexts_keep_quotes_apart() {
    let reg = registry();
    let a = usd_node().quote_request(&reg, request(), "usd", "eur", vec![1]).unwrap().unwrap();
    let b = usd_node().quote_request(&reg, request(), "usd", "eur", vec![2]).unwrap().unwrap();
    assert_eq!(classify_reply(&vec![1], &b.context, Some(Event::Quote(b.quote))), Reply::OtherSwap);
    assert_eq!(classify_reply(&vec![2], &a.context, Some(Event::Quote(a.quote))), Reply::OtherSwap);
}
