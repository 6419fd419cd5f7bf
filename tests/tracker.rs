use density_tracker::event::{Action, MarketEvent, Side};
use density_tracker::tracker::{replay, ActionTracker, Outcome, Ratio};
use density_tracker::window::{RollingWindow, MAX_VALUES};

fn quote(bid_px: i64, bid_sz: u32, bid_ct: u32, ask_px: i64, ask_sz: u32, ask_ct: u32) -> MarketEvent {
    MarketEvent {
        action: Action::Modify,
        side: Side::Neither,
        size: 0,
        bid_px,
        bid_sz,
        bid_ct,
        ask_px,
        ask_sz,
        ask_ct,
    }
}

fn trade(side: Side, size: u32, bid_px: i64, bid_sz: u32, bid_ct: u32, ask_px: i64, ask_sz: u32, ask_ct: u32) -> MarketEvent {
    MarketEvent {
        action: Action::Trade,
        side,
        size,
        bid_px,
        bid_sz,
        bid_ct,
        ask_px,
        ask_sz,
        ask_ct,
    }
}

fn value(r: Ratio) -> f64 {
    r.num as f64 / r.den as f64
}

#[test]
fn codes_map_to_actions_and_sides() {
    assert_eq!(Action::from_code(b'T'), Action::Trade);
    assert_eq!(Action::from_code(b'R'), Action::Clear);
    assert_eq!(Action::from_code(b'A'), Action::Add);
    assert_eq!(Action::from_code(b'C'), Action::Cancel);
    assert_eq!(Action::from_code(b'M'), Action::Modify);
    assert_eq!(Action::from_code(b'F'), Action::Fill);
    assert_eq!(Action::from_code(b'N'), Action::Other);
    assert_eq!(Side::from_code(b'A'), Side::Ask);
    assert_eq!(Side::from_code(b'B'), Side::Bid);
    assert_eq!(Side::from_code(b'N'), Side::Neither);
}

#[test]
fn fresh_tracker_is_empty() {
    let t = ActionTracker::new();
    assert!(t.pending_trade().is_none());
    assert!(t.bid_ratios().is_empty());
    assert!(t.ask_ratios().is_empty());
    assert!(t.buy_sizes().is_empty());
    assert!(t.sell_sizes().is_empty());
    let d = ActionTracker::default();
    assert!(d.pending_trade().is_none());
}

#[test]
fn trade_after_trade_is_suppressed_and_replaces_pending() {
    let mut t = ActionTracker::new();
    let first = trade(Side::Ask, 5, 100, 100, 10, 101, 80, 8);
    let second = trade(Side::Bid, 7, 100, 90, 9, 101, 80, 8);
    assert_eq!(t.process(&first), Outcome::Updated { bid_ratio: None, ask_ratio: None });
    assert_eq!(t.process(&second), Outcome::Suppressed);
    assert_eq!(t.pending_trade(), Some(second));
    assert_eq!(t.sell_sizes().len(), 1);
    assert_eq!(t.buy_sizes().len(), 0);
}

#[test]
fn same_price_consumption_gives_fifteen() {
    let mut t = ActionTracker::new();
    t.process(&trade(Side::Ask, 60, 500, 100, 10, 501, 70, 7));
    let out = t.process(&quote(500, 40, 6, 501, 70, 7));
    let expected = Ratio { num: 60, den: 4 };
    assert_eq!(out, Outcome::Updated { bid_ratio: Some(expected), ask_ratio: None });
    assert_eq!(value(expected), 15.0);
    assert_eq!(t.bid_ratios().len(), 1);
    assert_eq!(*t.bid_ratios().get(0), expected);
    assert!(t.ask_ratios().is_empty());
    assert!(t.pending_trade().is_none());
}

#[test]
fn price_move_consumes_whole_level() {
    let mut t = ActionTracker::new();
    t.process(&trade(Side::Ask, 50, 500, 50, 5, 501, 70, 7));
    let out = t.process(&quote(499, 30, 3, 501, 70, 7));
    let expected = Ratio { num: 50, den: 5 };
    assert_eq!(out, Outcome::Updated { bid_ratio: Some(expected), ask_ratio: None });
    assert_eq!(value(expected), 10.0);
}

#[test]
fn buy_trade_consumes_ask_side() {
    let mut t = ActionTracker::new();
    t.process(&trade(Side::Bid, 12, 500, 50, 5, 501, 90, 9));
    let out = t.process(&quote(500, 50, 5, 501, 30, 3));
    assert_eq!(out, Outcome::Updated { bid_ratio: None, ask_ratio: Some(Ratio { num: 60, den: 6 }) });
    assert_eq!(t.ask_ratios().len(), 1);
    assert!(t.bid_ratios().is_empty());
    assert_eq!(t.buy_sizes().total(), 12);
}

#[test]
fn ratio_is_floored_at_one_hundredth() {
    let mut t = ActionTracker::new();
    t.process(&trade(Side::Ask, 1, 500, 1, 1000, 501, 70, 7));
    let out = t.process(&quote(499, 1, 1, 501, 70, 7));
    let expected = Ratio { num: 1, den: 100 };
    assert_eq!(out, Outcome::Updated { bid_ratio: Some(expected), ask_ratio: None });
    assert_eq!(value(expected), 0.01);
}

#[test]
fn nothing_consumed_gives_no_ratio() {
    let mut t = ActionTracker::new();
    t.process(&trade(Side::Ask, 5, 500, 40, 4, 501, 70, 7));
    let out = t.process(&quote(500, 50, 6, 501, 70, 7));
    assert_eq!(out, Outcome::Updated { bid_ratio: None, ask_ratio: None });
    assert!(t.bid_ratios().is_empty());
    assert!(t.pending_trade().is_none());
}

#[test]
fn clear_drops_pending_trade() {
    let mut t = ActionTracker::new();
    t.process(&trade(Side::Ask, 5, 500, 100, 10, 501, 70, 7));
    let mut clear = quote(0, 0, 0, 0, 0, 0);
    clear.action = Action::Clear;
    assert_eq!(t.process(&clear), Outcome::Suppressed);
    assert!(t.pending_trade().is_none());
    assert!(t.bid_ratios().is_empty());
    let out = t.process(&quote(500, 40, 6, 501, 70, 7));
    assert_eq!(out, Outcome::Updated { bid_ratio: None, ask_ratio: None });
}

#[test]
fn quote_without_pending_trade_changes_nothing() {
    let mut t = ActionTracker::new();
    let out = t.process(&quote(500, 40, 6, 501, 70, 7));
    assert_eq!(out, Outcome::Updated { bid_ratio: None, ask_ratio: None });
    assert!(t.pending_trade().is_none());
}

#[test]
fn window_evicts_oldest_past_capacity() {
    let mut w: RollingWindow<u32> = RollingWindow::new();
    for v in 0..200u32 {
        w.push(v);
    }
    assert_eq!(w.len(), MAX_VALUES);
    assert_eq!(*w.get(0), 0);
    w.push(200);
    assert_eq!(w.len(), 200);
    assert_eq!(*w.get(0), 1);
    assert_eq!(*w.get(199), 200);
    assert_eq!(w.total(), (1..=200u64).sum::<u64>());
}

#[test]
fn window_total_is_sum_of_retained() {
    let mut w: RollingWindow<u32> = RollingWindow::new();
    assert_eq!(w.total(), 0);
    w.push(u32::MAX);
    w.push(u32::MAX);
    w.push(3);
    assert_eq!(w.total(), 2 * (u32::MAX as u64) + 3);
    assert_eq!(w.len(), 3);
}

#[test]
fn trade_sizes_keep_last_two_hundred() {
    let mut t = ActionTracker::new();
    for k in 0..250u32 {
        t.process(&trade(Side::Bid, k, 500, 10, 1, 501, 10, 1));
        t.process(&quote(500, 10, 1, 501, 10, 1));
    }
    assert_eq!(t.buy_sizes().len(), 200);
    assert_eq!(*t.buy_sizes().get(0), 50);
    assert_eq!(t.buy_sizes().total(), (50..250u64).sum::<u64>());
    assert!(t.sell_sizes().is_empty());
}

#[test]
fn replay_is_deterministic() {
    let events = vec![
        trade(Side::Ask, 60, 500, 100, 10, 501, 70, 7),
        quote(500, 40, 6, 501, 70, 7),
        trade(Side::Bid, 9, 500, 40, 6, 501, 70, 7),
        trade(Side::Bid, 4, 500, 40, 6, 501, 60, 6),
        quote(500, 40, 6, 502, 20, 2),
    ];
    let a = replay(&events);
    let b = replay(&events);
    assert_eq!(a, b);
    assert_eq!(a.len(), 5);
    assert_eq!(a[1], Outcome::Updated { bid_ratio: Some(Ratio { num: 60, den: 4 }), ask_ratio: None });
    assert_eq!(a[3], Outcome::Suppressed);
    assert_eq!(a[4], Outcome::Updated { bid_ratio: None, ask_ratio: Some(Ratio { num: 60, den: 6 }) });
}
