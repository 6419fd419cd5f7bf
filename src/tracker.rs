use crate::event::{Action, MarketEvent, Side};
use crate::window::{bounded_push, RollingWindow, MAX_VALUES};
use vstd::prelude::*;

verus! {

/// A density ratio `num / den`: the size consumed at a level divided by the
/// number of orders consumed, never below one hundredth.
#[derive(Clone, Copy, Debug, PartialEq, Eq, Structural)]
pub struct Ratio {
    pub num: u32,
    pub den: u32,
}

/// What one event produced.
#[derive(Clone, Copy, Debug, PartialEq, Eq, Structural)]
pub enum Outcome {
    /// Reconciliation was skipped: every derived metric is absent for this event.
    Suppressed,
    /// The event was taken in; the ratios it produced, if any.
    Updated { bid_ratio: Option<Ratio>, ask_ratio: Option<Ratio> },
}

/// The tracker's state: the pending trade and the four windows.
pub struct TrackerState {
    pub pending: Option<MarketEvent>,
    pub bid: Seq<Ratio>,
    pub ask: Seq<Ratio>,
    pub buy: Seq<u32>,
    pub sell: Seq<u32>,
}

pub open spec fn initial_state() -> TrackerState {
    TrackerState {
        pending: None,
        bid: Seq::empty(),
        ask: Seq::empty(),
        buy: Seq::empty(),
        sell: Seq::empty(),
    }
}

pub open spec fn sat_sub(a: u32, b: u32) -> u32 {
    if a >= b {
        (a - b) as u32
    } else {
        0
    }
}

/// The (size, count) consumed at one level: the drop from `prev` to `cur`
/// when the price stayed, everything that rested at `prev` when it moved.
pub open spec fn consumed(prev_px: i64, prev_sz: u32, prev_ct: u32, px: i64, sz: u32, ct: u32) -> (
    u32,
    u32,
) {
    if prev_px == px {
        (sat_sub(prev_sz, sz), sat_sub(prev_ct, ct))
    } else {
        (prev_sz, prev_ct)
    }
}

/// `size / count`, floored at 1/100, when both are positive.
pub open spec fn density_ratio(size: u32, count: u32) -> Option<Ratio> {
    if size > 0 && count > 0 {
        if 100 * size >= count {
            Some(Ratio { num: size, den: count })
        } else {
            Some(Ratio { num: 1, den: 100 })
        }
    } else {
        None
    }
}

/// The bid-side ratio that `cur` yields against the pending trade `last`:
/// only a trade on the ask side (a sell hitting the bid) consumes the bid.
pub open spec fn bid_ratio_of(last: MarketEvent, cur: MarketEvent) -> Option<Ratio> {
    if last.side == Side::Ask {
        let c = consumed(last.bid_px, last.bid_sz, last.bid_ct, cur.bid_px, cur.bid_sz, cur.bid_ct);
        density_ratio(c.0, c.1)
    } else {
        None
    }
}

/// The ask-side ratio that `cur` yields against the pending trade `last`:
/// only a trade on the bid side (a buy hitting the ask) consumes the ask.
pub open spec fn ask_ratio_of(last: MarketEvent, cur: MarketEvent) -> Option<Ratio> {
    if last.side == Side::Bid {
        let c = consumed(last.ask_px, last.ask_sz, last.ask_ct, cur.ask_px, cur.ask_sz, cur.ask_ct);
        density_ratio(c.0, c.1)
    } else {
        None
    }
}

pub open spec fn push_some<T>(s: Seq<T>, v: Option<T>) -> Seq<T> {
    match v {
        Some(x) => bounded_push(s, x),
        None => s,
    }
}

/// One event taken into the state: the next state and what the event produced.
pub open spec fn step(st: TrackerState, ev: MarketEvent) -> (TrackerState, Outcome) {
    match st.pending {
        Some(last) => {
            if ev.action == Action::Trade {
                (TrackerState { pending: Some(ev), ..st }, Outcome::Suppressed)
            } else if ev.action == Action::Clear {
                (TrackerState { pending: None, ..st }, Outcome::Suppressed)
            } else {
                let b = bid_ratio_of(last, ev);
                let a = ask_ratio_of(last, ev);
                (
                    TrackerState {
                        pending: None,
                        bid: push_some(st.bid, b),
                        ask: push_some(st.ask, a),
                        ..st
                    },
                    Outcome::Updated { bid_ratio: b, ask_ratio: a },
                )
            }
        },
        None => {
            let out = Outcome::Updated { bid_ratio: None, ask_ratio: None };
            if ev.action == Action::Trade {
                let buy = if ev.side == Side::Bid {
                    bounded_push(st.buy, ev.size)
                } else {
                    st.buy
                };
                let sell = if ev.side == Side::Ask {
                    bounded_push(st.sell, ev.size)
                } else {
                    st.sell
                };
                (TrackerState { pending: Some(ev), buy, sell, ..st }, out)
            } else {
                (st, out)
            }
        },
    }
}

/// Tracks trades against the book updates that follow them and keeps rolling
/// windows of density ratios (bid, ask) and of traded sizes (buy, sell).
pub struct ActionTracker {
    last_trade: Option<MarketEvent>,
    recent_bid_ratios: RollingWindow<Ratio>,
    recent_ask_ratios: RollingWindow<Ratio>,
    recent_buy_sizes: RollingWindow<u32>,
    recent_sell_sizes: RollingWindow<u32>,
}

impl View for ActionTracker {
    type V = TrackerState;

    closed spec fn view(&self) -> TrackerState {
        TrackerState {
            pending: self.last_trade,
            bid: self.recent_bid_ratios@,
            ask: self.recent_ask_ratios@,
            buy: self.recent_buy_sizes@,
            sell: self.recent_sell_sizes@,
        }
    }
}

pub open spec fn state_wf(st: TrackerState) -> bool {
    &&& st.bid.len() <= MAX_VALUES
    &&& st.ask.len() <= MAX_VALUES
    &&& st.buy.len() <= MAX_VALUES
    &&& st.sell.len() <= MAX_VALUES
}

fn reconcile_level(prev_px: i64, prev_sz: u32, prev_ct: u32, px: i64, sz: u32, ct: u32) -> (r:
    Option<Ratio>)
    ensures
        ({
            let c = consumed(prev_px, prev_sz, prev_ct, px, sz, ct);
            r == density_ratio(c.0, c.1)
        }),
{
    let (size, count) = if prev_px == px {
        (prev_sz.saturating_sub(sz), prev_ct.saturating_sub(ct))
    } else {
        (prev_sz, prev_ct)
    };
    if size > 0 && count > 0 {
        if 100 * (size as u64) >= count as u64 {
            Some(Ratio { num: size, den: count })
        } else {
            Some(Ratio { num: 1, den: 100 })
        }
    } else {
        None
    }
}

impl ActionTracker {
    pub open spec fn wf(&self) -> bool {
        state_wf(self@)
    }

    pub fn new() -> (r: Self)
        ensures
            r@ == initial_state(),
            r.wf(),
    {
        ActionTracker {
            last_trade: None,
            recent_bid_ratios: RollingWindow::new(),
            recent_ask_ratios: RollingWindow::new(),
            recent_buy_sizes: RollingWindow::new(),
            recent_sell_sizes: RollingWindow::new(),
        }
    }

    /// Takes one event of the stream in order.
    pub fn process(&mut self, ev: &MarketEvent) -> (r: Outcome)
        requires
            old(self).wf(),
        ensures
            final(self).wf(),
            final(self)@ == step(old(self)@, *ev).0,
            r == step(old(self)@, *ev).1,
    {
        if self.last_trade.is_some() && ev.action == Action::Trade {
            self.last_trade = Some(*ev);
            return Outcome::Suppressed;
        }
        match self.last_trade {
            Some(last) => {
                if ev.action == Action::Clear {
                    self.last_trade = None;
                    return Outcome::Suppressed;
                }
                let b = if last.side == Side::Ask {
                    reconcile_level(last.bid_px, last.bid_sz, last.bid_ct, ev.bid_px, ev.bid_sz, ev.bid_ct)
                } else {
                    None
                };
                let a = if last.side == Side::Bid {
                    reconcile_level(last.ask_px, last.ask_sz, last.ask_ct, ev.ask_px, ev.ask_sz, ev.ask_ct)
                } else {
                    None
                };
                if let Some(x) = b {
                    self.recent_bid_ratios.push(x);
                }
                if let Some(x) = a {
                    self.recent_ask_ratios.push(x);
                }
                self.last_trade = None;
                Outcome::Updated { bid_ratio: b, ask_ratio: a }
            },
            None => {
                if ev.action == Action::Trade {
                    self.last_trade = Some(*ev);
                    if ev.side == Side::Bid {
                        self.recent_buy_sizes.push(ev.size);
                    } else if ev.side == Side::Ask {
                        self.recent_sell_sizes.push(ev.size);
                    }
                }
                Outcome::Updated { bid_ratio: None, ask_ratio: None }
            },
        }
    }

    /// The pending trade, if one waits for the next book update.
    pub fn pending_trade(&self) -> (r: Option<MarketEvent>)
        ensures
            r == self@.pending,
    {
        self.last_trade
    }

    pub fn bid_ratios(&self) -> (r: &RollingWindow<Ratio>)
        ensures
            r@ == self@.bid,
    {
        &self.recent_bid_ratios
    }

    pub fn ask_ratios(&self) -> (r: &RollingWindow<Ratio>)
        ensures
            r@ == self@.ask,
    {
        &self.recent_ask_ratios
    }

    pub fn buy_sizes(&self) -> (r: &RollingWindow<u32>)
        ensures
            r@ == self@.buy,
    {
        &self.recent_buy_sizes
    }

    pub fn sell_sizes(&self) -> (r: &RollingWindow<u32>)
        ensures
            r@ == self@.sell,
    {
        &self.recent_sell_sizes
    }
}


impl Default for ActionTracker {
    fn default() -> (r: Self)
        ensures
            r@ == initial_state(),
            r.wf(),
    {
        ActionTracker::new()
    }
}

/// The state reached from `st` by taking `evs` in order, and the outcome of
/// each event.
pub open spec fn run(st: TrackerState, evs: Seq<MarketEvent>) -> (TrackerState, Seq<Outcome>)
    decreases evs.len(),
{
    if evs.len() == 0 {
        (st, Seq::empty())
    } else {
        let prev = run(st, evs.drop_last());
        let next = step(prev.0, evs.last());
        (next.0, prev.1.push(next.1))
    }
}

proof fn lemma_step_wf(st: TrackerState, ev: MarketEvent)
    requires
        state_wf(st),
    ensures
        state_wf(step(st, ev).0),
{
}

proof fn lemma_run_wf(st: TrackerState, evs: Seq<MarketEvent>)
    requires
        state_wf(st),
    ensures
        state_wf(run(st, evs).0),
        run(st, evs).1.len() == evs.len(),
    decreases evs.len(),
{
    if evs.len() > 0 {
        lemma_run_wf(st, evs.drop_last());
        lemma_step_wf(run(st, evs.drop_last()).0, evs.last());
    }
}

/// Feeds `events` in order to a freshly constructed tracker and returns the
/// outcome of each.
pub fn replay(events: &Vec<MarketEvent>) -> (r: Vec<Outcome>)
    ensures
        r@ == run(initial_state(), events@).1,
{
    let mut tracker = ActionTracker::new();
    let mut outs: Vec<Outcome> = Vec::new();
    let mut i: usize = 0;
    while i < events.len()
        invariant
            i <= events@.len(),
            tracker.wf(),
            tracker@ == run(initial_state(), events@.take(i as int)).0,
            outs@ == run(initial_state(), events@.take(i as int)).1,
        decreases events@.len() - i,
    {
        proof {
            assert(events@.take(i + 1).drop_last() =~= events@.take(i as int));
        }
        let o = tracker.process(&events[i]);
        outs.push(o);
        i = i + 1;
    }
    proof {
        assert(events@.take(i as int) =~= events@);
    }
    outs
}

/// Replaying one event sequence from a fresh tracker always gives the same
/// outcomes and the same final state.
pub proof fn lemma_replay_deterministic(a: Seq<MarketEvent>, b: Seq<MarketEvent>)
    requires
        a == b,
    ensures
        run(initial_state(), a).1 == run(initial_state(), b).1,
        run(initial_state(), a).0 == run(initial_state(), b).0,
        run(initial_state(), a).1.len() == a.len(),
{
    lemma_run_wf(initial_state(), a);
}

/// A trade that arrives while another is pending yields no metrics and becomes
/// the pending trade itself; the windows are left as they were.
pub proof fn lemma_trade_after_trade(st: TrackerState, ev: MarketEvent)
    requires
        st.pending is Some,
        ev.action == Action::Trade,
    ensures
        step(st, ev).1 == Outcome::Suppressed,
        step(st, ev).0.pending == Some(ev),
        step(st, ev).0.bid == st.bid,
        step(st, ev).0.ask == st.ask,
        step(st, ev).0.buy == st.buy,
        step(st, ev).0.sell == st.sell,
{
}

/// A clear that arrives while a trade is pending yields no metrics and drops
/// the pending trade without reconciling it.
pub proof fn lemma_clear_drops_pending(st: TrackerState, ev: MarketEvent)
    requires
        st.pending is Some,
        ev.action == Action::Clear,
    ensures
        step(st, ev).1 == Outcome::Suppressed,
        step(st, ev).0.pending is None,
        step(st, ev).0.bid == st.bid,
        step(st, ev).0.ask == st.ask,
        step(st, ev).0.buy == st.buy,
        step(st, ev).0.sell == st.sell,
{
}

/// A sell trade reconciled against a bid at an unchanged price consumes the
/// drop in resting size and order count; the ask side is untouched.
pub proof fn lemma_same_price_bid_consumption(st: TrackerState, ev: MarketEvent)
    requires
        st.pending is Some,
        st.pending->0.side == Side::Ask,
        ev.action != Action::Trade,
        ev.action != Action::Clear,
        ev.bid_px == st.pending->0.bid_px,
        ev.bid_sz < st.pending->0.bid_sz,
        ev.bid_ct < st.pending->0.bid_ct,
    ensures
        ({
            let last = st.pending->0;
            let r = density_ratio(
                (last.bid_sz - ev.bid_sz) as u32,
                (last.bid_ct - ev.bid_ct) as u32,
            );
            &&& r is Some
            &&& step(st, ev).1 == Outcome::Updated { bid_ratio: r, ask_ratio: None }
            &&& step(st, ev).0.bid == bounded_push(st.bid, r->0)
            &&& step(st, ev).0.ask == st.ask
            &&& step(st, ev).0.pending is None
        }),
{
}

/// A trade reconciled against a level whose price moved attributes the whole
/// size and order count that rested there before as consumed.
pub proof fn lemma_price_move_consumes_level(st: TrackerState, ev: MarketEvent)
    requires
        st.pending is Some,
        ev.action != Action::Trade,
        ev.action != Action::Clear,
    ensures
        ({
            let last = st.pending->0;
            &&& (last.side == Side::Ask && ev.bid_px != last.bid_px) ==> step(st, ev).1
                == Outcome::Updated {
                bid_ratio: density_ratio(last.bid_sz, last.bid_ct),
                ask_ratio: None,
            }
            &&& (last.side == Side::Bid && ev.ask_px != last.ask_px) ==> step(st, ev).1
                == Outcome::Updated {
                bid_ratio: None,
                ask_ratio: density_ratio(last.ask_sz, last.ask_ct),
            }
        }),
{
}

} // verus!
