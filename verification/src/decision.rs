//! The decision engine: what a change of the pool's price asks of a slot.
//!
//! A slot that is not long buys when the price has dropped by the entry
//! percentage since the last event. A long slot sells when the price has
//! risen by the take-profit percentage over the buy price, when it has fallen
//! by the stop-loss percentage under it, when its owner asked to stop, or
//! when it has been held for longer than the strategy allows; where several
//! of these hold, the first in this order decides. A slot with a transaction
//! in flight does nothing.

use crate::price::{ratio_at_least, spec_ratio_at_least};
use crate::slot::{RealPoolInfo, RealPoolInfoView, SlotState};
use vstd::prelude::*;

verus! {

/// What the engine asks for.
#[derive(Clone, Copy, Debug, PartialEq, Eq, Structural)]
pub enum Decision {
    /// Nothing.
    Hold,
    /// Buy: the entry condition is met.
    Buy,
    /// Sell: the take-profit level is reached.
    SellTakeProfit,
    /// Sell: the stop-loss level is reached.
    SellStopLoss,
    /// Sell: the owner stopped the bot while it was long.
    SellForced,
    /// Sell: the position was held for longer than the strategy allows.
    SellTimeout,
}

impl Decision {
    /// Whether the decision is one of the four sells.
    pub open spec fn is_sell(self) -> bool {
        self == Decision::SellTakeProfit || self == Decision::SellStopLoss || self
            == Decision::SellForced || self == Decision::SellTimeout
    }
}

/// The entry condition: both prices are positive and the drop from `prev` to
/// `new` is at least `entry_percent` millionths of `prev`.
pub open spec fn buy_condition(prev: u128, new: u128, entry_percent: u64) -> bool {
    &&& prev > 0
    &&& new > 0
    &&& new <= prev
    &&& spec_ratio_at_least(prev - new, prev as int, entry_percent as int)
}

/// The take-profit condition: a positive buy price is known and the rise
/// from it to `new` is at least `take_profit` millionths of it.
pub open spec fn take_profit_condition(
    new: u128,
    bought_price: Option<u128>,
    take_profit: u64,
) -> bool {
    &&& bought_price is Some
    &&& bought_price->Some_0 > 0
    &&& new >= bought_price->Some_0
    &&& spec_ratio_at_least(
        new - bought_price->Some_0,
        bought_price->Some_0 as int,
        take_profit as int,
    )
}

/// The stop-loss condition: a positive buy price is known and the fall from
/// it to `new` is at least `stop_loss` millionths of it.
pub open spec fn stop_loss_condition(new: u128, bought_price: Option<u128>, stop_loss: u64) -> bool {
    &&& bought_price is Some
    &&& bought_price->Some_0 > 0
    &&& new <= bought_price->Some_0
    &&& spec_ratio_at_least(
        bought_price->Some_0 - new,
        bought_price->Some_0 as int,
        stop_loss as int,
    )
}

/// The timeout condition: more than `auto_exit` seconds have passed since
/// the buy.
pub open spec fn timeout_condition(bought_at: Option<i64>, auto_exit: u64, now_ms: i64) -> bool {
    &&& bought_at is Some
    &&& now_ms - bought_at->Some_0 > auto_exit * 1000
}

/// The decision for a slot when the price moves from `prev` to `new` at
/// `now_ms`.
pub open spec fn spec_decision(prev: u128, new: u128, slot: RealPoolInfoView, now_ms: i64) -> Decision {
    let strategy = slot.user_bot_data.bot_setting;
    if slot.exited || slot.signature is Some {
        Decision::Hold
    } else if !slot.is_bought {
        if buy_condition(prev, new, strategy.entry_percent) {
            Decision::Buy
        } else {
            Decision::Hold
        }
    } else if take_profit_condition(new, slot.bought_price, strategy.take_profit) {
        Decision::SellTakeProfit
    } else if stop_loss_condition(new, slot.bought_price, strategy.stop_loss) {
        Decision::SellStopLoss
    } else if strategy.auto_exit == 0 {
        Decision::SellForced
    } else if timeout_condition(slot.bought_at, strategy.auto_exit, now_ms) {
        Decision::SellTimeout
    } else {
        Decision::Hold
    }
}

/// Decides what the move of the price from `prev` to `new` asks of `slot`.
/// Every input has a decision.
pub fn decision_engine(prev: u128, new: u128, slot: &RealPoolInfo, now_ms: i64) -> (out: Decision)
    ensures
        out == spec_decision(prev, new, slot@, now_ms),
{
    let strategy = &slot.user_bot_data.bot_setting;
    if slot.exited || slot.signature.is_some() {
        return Decision::Hold;
    }
    if !slot.is_bought {
        if prev > 0 && new > 0 && new <= prev && ratio_at_least(
            prev - new,
            prev,
            strategy.entry_percent,
        ) {
            return Decision::Buy;
        }
        return Decision::Hold;
    }
    if let Some(bought_price) = slot.bought_price {
        if bought_price > 0 {
            if new >= bought_price && ratio_at_least(
                new - bought_price,
                bought_price,
                strategy.take_profit,
            ) {
                return Decision::SellTakeProfit;
            }
            if new <= bought_price && ratio_at_least(
                bought_price - new,
                bought_price,
                strategy.stop_loss,
            ) {
                return Decision::SellStopLoss;
            }
        }
    }
    if strategy.auto_exit == 0 {
        return Decision::SellForced;
    }
    if let Some(bought_at) = slot.bought_at {
        let held: i128 = now_ms as i128 - bought_at as i128;
        let allowed: i128 = strategy.auto_exit as i128 * 1000;
        if held > allowed {
            return Decision::SellTimeout;
        }
    }
    Decision::Hold
}

/// The slot after the price `new` was seen: the two last prices move on.
pub open spec fn spec_observe(slot: RealPoolInfoView, new: u128) -> RealPoolInfoView {
    RealPoolInfoView { pool_price: slot.latest_pool_price, latest_pool_price: new, ..slot }
}

/// The decision on the slot's last move of the price.
pub open spec fn spec_evaluate(slot: RealPoolInfoView, now_ms: i64) -> Decision {
    spec_decision(slot.pool_price, slot.latest_pool_price, slot, now_ms)
}

/// The slot after `decision` was taken at `now_ms`: a buy writes its price,
/// the last one seen, and its time.
pub open spec fn spec_decided(
    slot: RealPoolInfoView,
    now_ms: i64,
    decision: Decision,
) -> RealPoolInfoView {
    if decision == Decision::Buy {
        RealPoolInfoView {
            bought_price: Some(slot.latest_pool_price),
            bought_at: Some(now_ms),
            ..slot
        }
    } else {
        slot
    }
}

/// Takes in the price `new`.
pub fn observe_price(slot: &mut RealPoolInfo, new: u128)
    ensures
        final(slot)@ == spec_observe(old(slot)@, new),
        old(slot)@.wf() ==> final(slot)@.wf(),
        final(slot)@.state() == old(slot)@.state(),
{
    slot.pool_price = slot.latest_pool_price;
    slot.latest_pool_price = new;
}

/// Decides at `now_ms` on the slot's last move of the price, and before a
/// buy is handed out writes its price and time into the slot. Whether the
/// slot is long changes only on confirmation.
pub fn evaluate(slot: &mut RealPoolInfo, now_ms: i64) -> (out: Decision)
    ensures
        out == spec_evaluate(old(slot)@, now_ms),
        final(slot)@ == spec_decided(old(slot)@, now_ms, out),
        old(slot)@.wf() ==> final(slot)@.wf(),
        final(slot)@.state() == old(slot)@.state(),
{
    let decision = decision_engine(slot.pool_price, slot.latest_pool_price, slot, now_ms);
    if decision == Decision::Buy {
        slot.bought_price = Some(slot.latest_pool_price);
        slot.bought_at = Some(now_ms);
    }
    decision
}

/// Takes in the price `new` seen at `now_ms` and decides on the move from
/// the last price seen.
pub fn on_price_change(slot: &mut RealPoolInfo, new: u128, now_ms: i64) -> (out: Decision)
    ensures
        out == spec_decision(old(slot)@.latest_pool_price, new, old(slot)@, now_ms),
        final(slot)@ == spec_decided(spec_observe(old(slot)@, new), now_ms, out),
        old(slot)@.wf() ==> final(slot)@.wf(),
        final(slot)@.state() == old(slot)@.state(),
{
    observe_price(slot, new);
    evaluate(slot, now_ms)
}

/// A price of zero never buys.
pub proof fn law_zero_price_never_buys(prev: u128, slot: RealPoolInfoView, now_ms: i64)
    ensures
        spec_decision(prev, 0, slot, now_ms) != Decision::Buy,
        spec_decision(0, prev, slot, now_ms) != Decision::Buy,
{
}

/// A long slot whose strategy has `auto_exit` 0 sells at the next event:
/// forced, unless take profit or stop loss hold at that very price.
pub proof fn law_manual_stop_sells(prev: u128, new: u128, slot: RealPoolInfoView, now_ms: i64)
    requires
        slot.state() == SlotState::Long,
        slot.user_bot_data.bot_setting.auto_exit == 0,
    ensures
        spec_decision(prev, new, slot, now_ms).is_sell(),
        spec_decision(prev, new, slot, now_ms) != Decision::SellTimeout,
        !take_profit_condition(new, slot.bought_price, slot.user_bot_data.bot_setting.take_profit)
            && !stop_loss_condition(
            new,
            slot.bought_price,
            slot.user_bot_data.bot_setting.stop_loss,
        ) ==> spec_decision(prev, new, slot, now_ms) == Decision::SellForced,
{
}

/// Where take profit holds for a long slot, it decides, whatever else holds.
pub proof fn law_take_profit_wins(prev: u128, new: u128, slot: RealPoolInfoView, now_ms: i64)
    requires
        slot.state() == SlotState::Long,
        take_profit_condition(new, slot.bought_price, slot.user_bot_data.bot_setting.take_profit),
    ensures
        spec_decision(prev, new, slot, now_ms) == Decision::SellTakeProfit,
{
}

/// The exits are tried in the order take profit, stop loss, forced, timeout.
pub proof fn law_exit_order(prev: u128, new: u128, slot: RealPoolInfoView, now_ms: i64)
    requires
        slot.state() == SlotState::Long,
    ensures
        ({
            let strategy = slot.user_bot_data.bot_setting;
            let d = spec_decision(prev, new, slot, now_ms);
            let tp = take_profit_condition(new, slot.bought_price, strategy.take_profit);
            let sl = stop_loss_condition(new, slot.bought_price, strategy.stop_loss);
            let forced = strategy.auto_exit == 0;
            let timeout = timeout_condition(slot.bought_at, strategy.auto_exit, now_ms);
            &&& d == Decision::SellTakeProfit <==> tp
            &&& d == Decision::SellStopLoss <==> !tp && sl
            &&& d == Decision::SellForced <==> !tp && !sl && forced
            &&& d == Decision::SellTimeout <==> !tp && !sl && !forced && timeout
            &&& d == Decision::Hold <==> !tp && !sl && !forced && !timeout
        }),
{
}

/// A drop of exactly the entry percentage buys.
pub proof fn law_entry_threshold_inclusive(
    prev: u128,
    new: u128,
    slot: RealPoolInfoView,
    now_ms: i64,
)
    requires
        slot.state() == SlotState::Armed,
        0 < new <= prev,
        (prev - new) * 1_000_000 == slot.user_bot_data.bot_setting.entry_percent * prev,
    ensures
        spec_decision(prev, new, slot, now_ms) == Decision::Buy,
{
}

/// While a submitted transaction is not confirmed, nothing fires.
pub proof fn law_pending_signature_holds(
    prev: u128,
    new: u128,
    slot: RealPoolInfoView,
    now_ms: i64,
)
    requires
        slot.signature is Some,
    ensures
        spec_decision(prev, new, slot, now_ms) == Decision::Hold,
{
}

/// Buys come only from armed slots and sells only from long ones.
pub proof fn law_decision_fits_state(prev: u128, new: u128, slot: RealPoolInfoView, now_ms: i64)
    ensures
        spec_decision(prev, new, slot, now_ms) == Decision::Buy ==> slot.state()
            == SlotState::Armed,
        spec_decision(prev, new, slot, now_ms).is_sell() ==> slot.state() == SlotState::Long,
{
}

} // verus!
