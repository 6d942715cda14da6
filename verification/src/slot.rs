//! The position of one user in one pool, and the states it moves through.

use crate::instruction::{clone_instructions, instructions_view, Instruction, InstructionView};
use crate::strategy::{UserBotData, UserBotDataView};
use crate::text::{clone_opt_string, opt_string_view};
use vstd::prelude::*;

verus! {

/// Everything the engine knows of one user's position in one pool.
///
/// Prices are in units of 10^-18 native units per token, amounts in atomic
/// native units, times in milliseconds since the epoch, the return in
/// millionths.
///
/// * `latest_pool_price` is the price seen at the last event, `pool_price`
///   the one seen before it.
/// * `swap_buy_ixs` holds the instructions prepared for the next leg, a buy
///   while `is_bought` is false and a sell while it is true.
/// * `bought_price` and `bought_at` are written together when a buy fires.
/// * `signature` is the signature of a transaction that was submitted and
///   has not yet been seen on the stream.
/// * `start_time` is when the slot was armed.
/// * `fee` adds up the fees of the slot's confirmed transactions.
/// * `exited` is set once a sell is confirmed, until the slot is removed.
#[derive(Debug)]
pub struct RealPoolInfo {
    pub pool_price: u128,
    pub user_bot_data: UserBotData,
    pub latest_pool_price: u128,
    pub swap_buy_ixs: Vec<Instruction>,
    pub is_bought: bool,
    pub bought_price: Option<u128>,
    pub bought_at: Option<i64>,
    pub initial_wsol_balance: Option<u64>,
    pub signature: Option<String>,
    pub start_time: Option<i64>,
    pub last_profit_sol: Option<i128>,
    pub last_input_lamports_delta: Option<i128>,
    pub last_output_lamports_delta: Option<i128>,
    pub last_roi_pct: Option<i128>,
    pub last_duration: Option<i64>,
    pub fee: u64,
    pub exited: bool,
}

/// A position slot.
pub type PositionSlot = RealPoolInfo;

/// Mathematical value of [`RealPoolInfo`].
pub struct RealPoolInfoView {
    pub pool_price: u128,
    pub user_bot_data: UserBotDataView,
    pub latest_pool_price: u128,
    pub swap_buy_ixs: Seq<InstructionView>,
    pub is_bought: bool,
    pub bought_price: Option<u128>,
    pub bought_at: Option<i64>,
    pub initial_wsol_balance: Option<u64>,
    pub signature: Option<Seq<char>>,
    pub start_time: Option<i64>,
    pub last_profit_sol: Option<i128>,
    pub last_input_lamports_delta: Option<i128>,
    pub last_output_lamports_delta: Option<i128>,
    pub last_roi_pct: Option<i128>,
    pub last_duration: Option<i64>,
    pub fee: u64,
    pub exited: bool,
}

impl View for RealPoolInfo {
    type V = RealPoolInfoView;

    open spec fn view(&self) -> RealPoolInfoView {
        RealPoolInfoView {
            pool_price: self.pool_price,
            user_bot_data: self.user_bot_data@,
            latest_pool_price: self.latest_pool_price,
            swap_buy_ixs: instructions_view(self.swap_buy_ixs@),
            is_bought: self.is_bought,
            bought_price: self.bought_price,
            bought_at: self.bought_at,
            initial_wsol_balance: self.initial_wsol_balance,
            signature: opt_string_view(self.signature),
            start_time: self.start_time,
            last_profit_sol: self.last_profit_sol,
            last_input_lamports_delta: self.last_input_lamports_delta,
            last_output_lamports_delta: self.last_output_lamports_delta,
            last_roi_pct: self.last_roi_pct,
            last_duration: self.last_duration,
            fee: self.fee,
            exited: self.exited,
        }
    }
}

/// The states of a slot.
#[derive(Clone, Copy, Debug, PartialEq, Eq, Structural)]
pub enum SlotState {
    /// Waiting for the entry condition, nothing submitted.
    Armed,
    /// A buy was submitted and is not yet confirmed.
    PendingBuy,
    /// Holding tokens, nothing submitted.
    Long,
    /// A sell was submitted and is not yet confirmed.
    PendingSell,
    /// The sell is confirmed; the slot waits to be removed.
    Exited,
}

/// Whether `delta` can be the difference of two 64-bit balances.
pub open spec fn is_balance_delta(delta: int) -> bool {
    -(u64::MAX as int) <= delta <= u64::MAX as int
}

/// The slot that activation creates: armed at `now_ms`, with no price seen,
/// nothing prepared and nothing accounted.
pub open spec fn armed_slot(user: UserBotDataView, now_ms: i64) -> RealPoolInfoView {
    RealPoolInfoView {
        pool_price: 0,
        user_bot_data: user,
        latest_pool_price: 0,
        swap_buy_ixs: Seq::empty(),
        is_bought: false,
        bought_price: None,
        bought_at: None,
        initial_wsol_balance: Some(0),
        signature: None,
        start_time: Some(now_ms),
        last_profit_sol: None,
        last_input_lamports_delta: None,
        last_output_lamports_delta: None,
        last_roi_pct: None,
        last_duration: None,
        fee: 0,
        exited: false,
    }
}

impl RealPoolInfoView {
    /// The state the slot is in. Every slot is in exactly one.
    pub open spec fn state(self) -> SlotState {
        if self.exited {
            SlotState::Exited
        } else if self.is_bought {
            if self.signature is Some {
                SlotState::PendingSell
            } else {
                SlotState::Long
            }
        } else {
            if self.signature is Some {
                SlotState::PendingBuy
            } else {
                SlotState::Armed
            }
        }
    }

    /// What holds of every slot: the buy price and the buy time are set
    /// together, a slot that is long or has a transaction in flight has
    /// both, an exited slot is neither long nor waiting for a confirmation,
    /// and the two balance changes are differences of 64-bit balances.
    pub open spec fn wf(self) -> bool {
        &&& self.bought_price is Some <==> self.bought_at is Some
        &&& self.is_bought || self.signature is Some ==> self.bought_price is Some
        &&& self.exited ==> !self.is_bought && self.signature is None
        &&& self.last_input_lamports_delta is Some ==> is_balance_delta(
            self.last_input_lamports_delta->Some_0 as int,
        )
        &&& self.last_output_lamports_delta is Some ==> is_balance_delta(
            self.last_output_lamports_delta->Some_0 as int,
        )
    }
}

impl RealPoolInfo {
    /// A slot armed at `now_ms` for `user`.
    pub fn new(user: UserBotData, now_ms: i64) -> (out: Self)
        ensures
            out@ == armed_slot(user@, now_ms),
            out@.wf(),
            out@.state() == SlotState::Armed,
    {
        let out = RealPoolInfo {
            pool_price: 0,
            user_bot_data: user,
            latest_pool_price: 0,
            swap_buy_ixs: Vec::new(),
            is_bought: false,
            bought_price: None,
            bought_at: None,
            initial_wsol_balance: Some(0),
            signature: None,
            start_time: Some(now_ms),
            last_profit_sol: None,
            last_input_lamports_delta: None,
            last_output_lamports_delta: None,
            last_roi_pct: None,
            last_duration: None,
            fee: 0,
            exited: false,
        };
        assert(out@.swap_buy_ixs =~= Seq::empty());
        out
    }

    /// Whether the slot is well formed.
    pub fn is_well_formed(&self) -> (out: bool)
        ensures
            out == self@.wf(),
    {
        let dated = self.bought_price.is_some() == self.bought_at.is_some();
        let priced = !(self.is_bought || self.signature.is_some()) || self.bought_price.is_some();
        let settled = !self.exited || (!self.is_bought && self.signature.is_none());
        let input = match self.last_input_lamports_delta {
            Some(delta) => -(u64::MAX as i128) <= delta && delta <= u64::MAX as i128,
            None => true,
        };
        let output = match self.last_output_lamports_delta {
            Some(delta) => -(u64::MAX as i128) <= delta && delta <= u64::MAX as i128,
            None => true,
        };
        dated && priced && settled && input && output
    }

    /// The state the slot is in.
    pub fn state(&self) -> (out: SlotState)
        ensures
            out == self@.state(),
    {
        if self.exited {
            SlotState::Exited
        } else if self.is_bought {
            if self.signature.is_some() {
                SlotState::PendingSell
            } else {
                SlotState::Long
            }
        } else {
            if self.signature.is_some() {
                SlotState::PendingBuy
            } else {
                SlotState::Armed
            }
        }
    }
}

impl Clone for RealPoolInfo {
    fn clone(&self) -> (out: Self)
        ensures
            out@ == self@,
    {
        RealPoolInfo {
            pool_price: self.pool_price,
            user_bot_data: self.user_bot_data.clone(),
            latest_pool_price: self.latest_pool_price,
            swap_buy_ixs: clone_instructions(&self.swap_buy_ixs),
            is_bought: self.is_bought,
            bought_price: self.bought_price,
            bought_at: self.bought_at,
            initial_wsol_balance: self.initial_wsol_balance,
            signature: clone_opt_string(&self.signature),
            start_time: self.start_time,
            last_profit_sol: self.last_profit_sol,
            last_input_lamports_delta: self.last_input_lamports_delta,
            last_output_lamports_delta: self.last_output_lamports_delta,
            last_roi_pct: self.last_roi_pct,
            last_duration: self.last_duration,
            fee: self.fee,
            exited: self.exited,
        }
    }
}

/// Whether a slot in this state may take the signature of a submitted
/// transaction: nothing is in flight, and the leg that was submitted is the
/// one the slot is due for, a sell while long and a buy once a buy has fired.
pub open spec fn accepts_submission(slot: RealPoolInfoView) -> bool {
    &&& !slot.exited
    &&& slot.signature is None
    &&& slot.is_bought || slot.bought_price is Some
}

/// The return of a round trip in millionths: `profit / input`, rounded
/// towards zero, and 0 where nothing was put in.
pub open spec fn spec_roi(profit: int, input: int) -> int {
    if input <= 0 {
        0
    } else if profit >= 0 {
        (profit * 1_000_000) / input
    } else {
        -(((-profit) * 1_000_000) / input)
    }
}

/// `value` cut off at the ends of the 64-bit signed range.
pub open spec fn spec_clamp_i64(value: int) -> i64 {
    if value > i64::MAX {
        i64::MAX
    } else if value < i64::MIN {
        i64::MIN
    } else {
        value as i64
    }
}

/// `fee` added to `total`, cut off at `u64::MAX`.
pub open spec fn spec_add_fee(total: u64, fee: u64) -> u64 {
    if total + fee > u64::MAX {
        u64::MAX
    } else {
        (total + fee) as u64
    }
}

/// The slot after the confirmation of its submitted transaction, seen in an
/// event with fee `fee` that moved the user's wrapped native account from
/// `pre` to `post`.
///
/// The pending signature is cleared, the fee is added and the slot changes
/// sides. Turning long, it notes what was spent. Turning back, it notes what
/// came in, the profit against what the previous exit brought, the return on
/// what was spent, and the time since it was armed, and is marked exited.
pub open spec fn spec_confirmed(
    slot: RealPoolInfoView,
    fee: u64,
    pre: u64,
    post: u64,
    now_ms: i64,
) -> RealPoolInfoView {
    if !slot.is_bought {
        RealPoolInfoView {
            is_bought: true,
            signature: None,
            fee: spec_add_fee(slot.fee, fee),
            last_input_lamports_delta: Some((pre - post) as i128),
            ..slot
        }
    } else {
        let output = post - pre;
        let prior: int = match slot.last_output_lamports_delta {
            Some(prior) => prior as int,
            None => 0,
        };
        let input: int = match slot.last_input_lamports_delta {
            Some(input) => input as int,
            None => 0,
        };
        let profit = output - prior;
        RealPoolInfoView {
            is_bought: false,
            signature: None,
            fee: spec_add_fee(slot.fee, fee),
            last_output_lamports_delta: Some(output as i128),
            last_profit_sol: Some(profit as i128),
            last_roi_pct: Some(spec_roi(profit, input) as i128),
            last_duration: match slot.start_time {
                Some(start) => Some(spec_clamp_i64(now_ms - start)),
                None => slot.last_duration,
            },
            exited: true,
            ..slot
        }
    }
}

/// Whether an event with signature `event_signature` confirms what the slot
/// has in flight.
pub open spec fn is_confirmation(slot: RealPoolInfoView, event_signature: Seq<char>) -> bool {
    slot.signature == Some(event_signature)
}

fn roi_millionths(profit: i128, input: i128) -> (out: i128)
    requires
        -2 * (u64::MAX as int) <= profit <= 2 * (u64::MAX as int),
        is_balance_delta(input as int),
    ensures
        out == spec_roi(profit as int, input as int),
{
    if input <= 0 {
        return 0;
    }
    if profit >= 0 {
        assert((profit * 1_000_000) / (input as int) >= 0) by (nonlinear_arith)
            requires
                profit >= 0,
                input > 0,
        ;
        assert((profit * 1_000_000) / (input as int) <= profit * 1_000_000) by (nonlinear_arith)
            requires
                profit >= 0,
                input > 0,
        ;
        (profit * 1_000_000) / input
    } else {
        let loss: i128 = -profit;
        assert((loss * 1_000_000) / (input as int) >= 0) by (nonlinear_arith)
            requires
                loss >= 0,
                input > 0,
        ;
        assert((loss * 1_000_000) / (input as int) <= loss * 1_000_000) by (nonlinear_arith)
            requires
                loss >= 0,
                input > 0,
        ;
        -((loss * 1_000_000) / input)
    }
}

fn clamp_i64(value: i128) -> (out: i64)
    ensures
        out == spec_clamp_i64(value as int),
{
    if value > i64::MAX as i128 {
        i64::MAX
    } else if value < i64::MIN as i128 {
        i64::MIN
    } else {
        value as i64
    }
}

impl RealPoolInfo {
    /// Notes the signature of a transaction that the relay accepted. A slot
    /// that cannot take one is left as it is, and `false` comes back.
    pub fn record_submission(&mut self, signature: String) -> (out: bool)
        ensures
            out == accepts_submission(old(self)@),
            out ==> final(self)@ == (RealPoolInfoView {
                signature: Some(signature@),
                ..old(self)@
            }),
            !out ==> final(self)@ == old(self)@,
            old(self)@.wf() ==> final(self)@.wf(),
            out && old(self)@.state() == SlotState::Armed ==> final(self)@.state()
                == SlotState::PendingBuy,
            out && old(self)@.state() == SlotState::Long ==> final(self)@.state()
                == SlotState::PendingSell,
    {
        if self.exited || self.signature.is_some() {
            return false;
        }
        if !self.is_bought && self.bought_price.is_none() {
            return false;
        }
        self.signature = Some(signature);
        true
    }

    /// Whether an event with this signature confirms what the slot has in
    /// flight.
    pub fn is_confirmed_by(&self, event_signature: &String) -> (out: bool)
        ensures
            out == is_confirmation(self@, event_signature@),
    {
        match &self.signature {
            Some(pending) => *pending == *event_signature,
            None => false,
        }
    }

    /// Takes in an event with the given signature and fee, in which the
    /// user's wrapped native account went from `pre` to `post`. Where the
    /// signature is the one in flight the slot changes sides and accounts for
    /// the trade; any other event leaves it as it is.
    pub fn confirm(
        &mut self,
        event_signature: &String,
        fee: u64,
        pre: u64,
        post: u64,
        now_ms: i64,
    ) -> (out: bool)
        requires
            old(self)@.wf(),
        ensures
            out == is_confirmation(old(self)@, event_signature@),
            out ==> final(self)@ == spec_confirmed(old(self)@, fee, pre, post, now_ms),
            !out ==> final(self)@ == old(self)@,
            final(self)@.wf(),
            final(self)@.is_bought != old(self)@.is_bought ==> out,
            final(self)@.fee >= old(self)@.fee,
    {
        if !self.is_confirmed_by(event_signature) {
            return false;
        }
        self.signature = None;
        self.fee = self.fee.saturating_add(fee);
        let pre_lamports: i128 = pre as i128;
        let post_lamports: i128 = post as i128;
        if !self.is_bought {
            self.is_bought = true;
            self.last_input_lamports_delta = Some(pre_lamports - post_lamports);
        } else {
            let output: i128 = post_lamports - pre_lamports;
            let prior: i128 = match self.last_output_lamports_delta {
                Some(prior) => prior,
                None => 0,
            };
            let input: i128 = match self.last_input_lamports_delta {
                Some(input) => input,
                None => 0,
            };
            let profit: i128 = output - prior;
            self.is_bought = false;
            self.last_output_lamports_delta = Some(output);
            self.last_profit_sol = Some(profit);
            self.last_roi_pct = Some(roi_millionths(profit, input));
            if let Some(start) = self.start_time {
                self.last_duration = Some(clamp_i64(now_ms as i128 - start as i128));
            }
            self.exited = true;
        }
        true
    }
}

/// The outcome of a trade, as it is kept once the position is closed.
/// `ts` is the time of closing as text; the profit and the fees are in atomic
/// native units, the return in millionths, the duration in milliseconds.
#[derive(Debug)]
pub struct TradeData {
    pub user_id: String,
    pub ts: String,
    pub profit_sol: i128,
    pub fees_lamports: u64,
    pub roi_pct: i128,
    pub program_runtime_ms: i64,
}

/// The record of a realized trade.
pub type TradeRecord = TradeData;

/// Mathematical value of [`TradeData`].
pub struct TradeDataView {
    pub user_id: Seq<char>,
    pub ts: Seq<char>,
    pub profit_sol: i128,
    pub fees_lamports: u64,
    pub roi_pct: i128,
    pub program_runtime_ms: i64,
}

impl View for TradeData {
    type V = TradeDataView;

    open spec fn view(&self) -> TradeDataView {
        TradeDataView {
            user_id: self.user_id@,
            ts: self.ts@,
            profit_sol: self.profit_sol,
            fees_lamports: self.fees_lamports,
            roi_pct: self.roi_pct,
            program_runtime_ms: self.program_runtime_ms,
        }
    }
}

/// The value `given`, or `default` where there is none.
pub open spec fn value_or<T>(given: Option<T>, default: T) -> T {
    match given {
        Some(value) => value,
        None => default,
    }
}

/// The record of the trade that a slot has accounted for; what the slot has
/// not measured counts as 0.
pub open spec fn spec_trade_record(slot: RealPoolInfoView, ts: Seq<char>) -> TradeDataView {
    TradeDataView {
        user_id: slot.user_bot_data.user_id,
        ts,
        profit_sol: value_or(slot.last_profit_sol, 0),
        fees_lamports: slot.fee,
        roi_pct: value_or(slot.last_roi_pct, 0),
        program_runtime_ms: value_or(slot.last_duration, 0),
    }
}

impl TradeData {
    /// The record of the trade that `slot` has accounted for, closed at `ts`.
    pub fn new(slot: &RealPoolInfo, ts: String) -> (out: Self)
        ensures
            out@ == spec_trade_record(slot@, ts@),
    {
        TradeData {
            user_id: slot.user_bot_data.user_id.clone(),
            ts,
            profit_sol: match slot.last_profit_sol {
                Some(profit) => profit,
                None => 0,
            },
            fees_lamports: slot.fee,
            roi_pct: match slot.last_roi_pct {
                Some(roi) => roi,
                None => 0,
            },
            program_runtime_ms: match slot.last_duration {
                Some(duration) => duration,
                None => 0,
            },
        }
    }
}

} // verus!
