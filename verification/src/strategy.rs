//! A user's bot configuration: the strategy thresholds and the keys it
//! trades with.

use crate::text::{clone_opt_string, clone_string, opt_string_view, or_keep};
use vstd::prelude::*;
use vstd::string::*;

verus! {

/// Trading parameters of one bot.
///
/// Amounts are in atomic native units, percentages in millionths of the
/// whole (see [`crate::price`]), `auto_exit` in seconds and the two time
/// stamps in milliseconds since the epoch. An `auto_exit` of 0 asks for the
/// position to be left at the next event.
#[derive(Debug)]
pub struct BotSettings {
    pub id: Option<String>,
    pub user_id: String,
    pub name: String,
    pub pool_address: String,
    pub buy_sol_amount: u64,
    pub entry_percent: u64,
    pub entry_slippage: u64,
    pub exit_slippage: u64,
    pub stop_loss: u64,
    pub take_profit: u64,
    pub auto_exit: u64,
    pub confirm_service: String,
    pub cu: u64,
    pub priority_fee_micro_lamport: u64,
    pub third_party_fee: u64,
    pub created_at: i64,
    pub updated_at: i64,
}

/// Mathematical value of [`BotSettings`].
pub struct BotSettingsView {
    pub id: Option<Seq<char>>,
    pub user_id: Seq<char>,
    pub name: Seq<char>,
    pub pool_address: Seq<char>,
    pub buy_sol_amount: u64,
    pub entry_percent: u64,
    pub entry_slippage: u64,
    pub exit_slippage: u64,
    pub stop_loss: u64,
    pub take_profit: u64,
    pub auto_exit: u64,
    pub confirm_service: Seq<char>,
    pub cu: u64,
    pub priority_fee_micro_lamport: u64,
    pub third_party_fee: u64,
    pub created_at: i64,
    pub updated_at: i64,
}

impl View for BotSettings {
    type V = BotSettingsView;

    open spec fn view(&self) -> BotSettingsView {
        BotSettingsView {
            id: opt_string_view(self.id),
            user_id: self.user_id@,
            name: self.name@,
            pool_address: self.pool_address@,
            buy_sol_amount: self.buy_sol_amount,
            entry_percent: self.entry_percent,
            entry_slippage: self.entry_slippage,
            exit_slippage: self.exit_slippage,
            stop_loss: self.stop_loss,
            take_profit: self.take_profit,
            auto_exit: self.auto_exit,
            confirm_service: self.confirm_service@,
            cu: self.cu,
            priority_fee_micro_lamport: self.priority_fee_micro_lamport,
            third_party_fee: self.third_party_fee,
            created_at: self.created_at,
            updated_at: self.updated_at,
        }
    }
}

impl Clone for BotSettings {
    fn clone(&self) -> (out: Self)
        ensures
            out@ == self@,
    {
        BotSettings {
            id: clone_opt_string(&self.id),
            user_id: clone_string(&self.user_id),
            name: clone_string(&self.name),
            pool_address: clone_string(&self.pool_address),
            buy_sol_amount: self.buy_sol_amount,
            entry_percent: self.entry_percent,
            entry_slippage: self.entry_slippage,
            exit_slippage: self.exit_slippage,
            stop_loss: self.stop_loss,
            take_profit: self.take_profit,
            auto_exit: self.auto_exit,
            confirm_service: clone_string(&self.confirm_service),
            cu: self.cu,
            priority_fee_micro_lamport: self.priority_fee_micro_lamport,
            third_party_fee: self.third_party_fee,
            created_at: self.created_at,
            updated_at: self.updated_at,
        }
    }
}

/// Settings of a fresh bot, with the default strategy: buy 0.001 native units
/// on a drop of 0.01 %, 5 % entry and 100 % exit slippage, stop loss and take
/// profit at 0.01 %, leave after an hour, relay through JITO with a tip of
/// 0.0001 native units.
pub open spec fn fresh_settings(
    user_id: Seq<char>,
    name: Seq<char>,
    pool_address: Seq<char>,
    now_ms: i64,
) -> BotSettingsView {
    BotSettingsView {
        id: None,
        user_id,
        name,
        pool_address,
        buy_sol_amount: 1_000_000,
        entry_percent: 100,
        entry_slippage: 50_000,
        exit_slippage: 1_000_000,
        stop_loss: 100,
        take_profit: 100,
        auto_exit: 3600,
        confirm_service: "JITO"@,
        cu: 300000,
        priority_fee_micro_lamport: 20000,
        third_party_fee: 100_000,
        created_at: now_ms,
        updated_at: now_ms,
    }
}

impl BotSettings {
    /// Settings of a fresh bot with the default strategy.
    pub fn new(user_id: String, name: String, pool_address: String, now_ms: i64) -> (out: Self)
        ensures
            out@ == fresh_settings(user_id@, name@, pool_address@, now_ms),
    {
        BotSettings {
            id: None,
            user_id,
            name,
            pool_address,
            buy_sol_amount: 1_000_000,
            entry_percent: 100,
            entry_slippage: 50_000,
            exit_slippage: 1_000_000,
            stop_loss: 100,
            take_profit: 100,
            auto_exit: 3600,
            confirm_service: "JITO".to_owned(),
            cu: 300000,
            priority_fee_micro_lamport: 20000,
            third_party_fee: 100_000,
            created_at: now_ms,
            updated_at: now_ms,
        }
    }

    /// The bot every new user starts with; its pool is set later.
    pub fn create_default_bot(user_id: String, now_ms: i64) -> (out: Self)
        ensures
            out@ == fresh_settings(user_id@, "My First Bot"@, ""@, now_ms),
    {
        Self::new(user_id, "My First Bot".to_owned(), "".to_owned(), now_ms)
    }

    /// Replaces each trading parameter that is given and stamps the change.
    pub fn update_trading_params(
        &mut self,
        pool_address: Option<String>,
        buy_sol_amount: Option<u64>,
        entry_percent: Option<u64>,
        entry_slippage: Option<u64>,
        exit_slippage: Option<u64>,
        stop_loss: Option<u64>,
        take_profit: Option<u64>,
        auto_exit: Option<u64>,
        now_ms: i64,
    )
        ensures
            final(self)@ == (BotSettingsView {
                pool_address: or_keep(opt_string_view(pool_address), old(self)@.pool_address),
                buy_sol_amount: or_keep(buy_sol_amount, old(self)@.buy_sol_amount),
                entry_percent: or_keep(entry_percent, old(self)@.entry_percent),
                entry_slippage: or_keep(entry_slippage, old(self)@.entry_slippage),
                exit_slippage: or_keep(exit_slippage, old(self)@.exit_slippage),
                stop_loss: or_keep(stop_loss, old(self)@.stop_loss),
                take_profit: or_keep(take_profit, old(self)@.take_profit),
                auto_exit: or_keep(auto_exit, old(self)@.auto_exit),
                updated_at: now_ms,
                ..old(self)@
            }),
    {
        if let Some(pool_address) = pool_address {
            self.pool_address = pool_address;
        }
        if let Some(amount) = buy_sol_amount {
            self.buy_sol_amount = amount;
        }
        if let Some(percent) = entry_percent {
            self.entry_percent = percent;
        }
        if let Some(slippage) = entry_slippage {
            self.entry_slippage = slippage;
        }
        if let Some(slippage) = exit_slippage {
            self.exit_slippage = slippage;
        }
        if let Some(sl) = stop_loss {
            self.stop_loss = sl;
        }
        if let Some(tp) = take_profit {
            self.take_profit = tp;
        }
        if let Some(ae) = auto_exit {
            self.auto_exit = ae;
        }
        self.updated_at = now_ms;
    }

    /// Replaces each relay parameter that is given and stamps the change.
    pub fn update_mev_config(
        &mut self,
        confirm_service: Option<String>,
        cu: Option<u64>,
        priority_fee: Option<u64>,
        third_party_fee: Option<u64>,
        now_ms: i64,
    )
        ensures
            final(self)@ == (BotSettingsView {
                confirm_service: or_keep(
                    opt_string_view(confirm_service),
                    old(self)@.confirm_service,
                ),
                cu: or_keep(cu, old(self)@.cu),
                priority_fee_micro_lamport: or_keep(
                    priority_fee,
                    old(self)@.priority_fee_micro_lamport,
                ),
                third_party_fee: or_keep(third_party_fee, old(self)@.third_party_fee),
                updated_at: now_ms,
                ..old(self)@
            }),
    {
        if let Some(service) = confirm_service {
            self.confirm_service = service;
        }
        if let Some(compute_units) = cu {
            self.cu = compute_units;
        }
        if let Some(fee) = priority_fee {
            self.priority_fee_micro_lamport = fee;
        }
        if let Some(tpf) = third_party_fee {
            self.third_party_fee = tpf;
        }
        self.updated_at = now_ms;
    }
}

/// Whether `value` lies between `min` and `max`.
pub open spec fn within(value: u64, min: u64, max: u64) -> bool {
    min <= value <= max
}

impl BotSettingsView {
    /// Whether the settings may be stored: the texts have their lengths, the
    /// buy size is between 0.0001 and 1000 native units, the entry and the
    /// stop loss between 0.0001 % and 100 %, the take profit between 0.0001 %
    /// and 1000 %, the entry slippage between 0.1 % and 500 %, the exit
    /// slippage between 0.1 % and 1000 %, the holding time at most a day,
    /// the compute budget between 1 and a million units, the priority fee at
    /// most a million, and the tip at most 100 native units.
    pub open spec fn valid(self) -> bool {
        &&& 1 <= self.name.len() <= 100
        &&& 32 <= self.pool_address.len() <= 44
        &&& within(self.buy_sol_amount, 100_000, 1_000_000_000_000)
        &&& within(self.entry_percent, 1, 1_000_000)
        &&& within(self.entry_slippage, 1_000, 5_000_000)
        &&& within(self.exit_slippage, 1_000, 10_000_000)
        &&& within(self.stop_loss, 1, 1_000_000)
        &&& within(self.take_profit, 1, 10_000_000)
        &&& self.auto_exit <= 86_400
        &&& 1 <= self.confirm_service.len() <= 20
        &&& within(self.cu, 1, 1_000_000)
        &&& self.priority_fee_micro_lamport <= 1_000_000
        &&& self.third_party_fee <= 100_000_000_000
    }
}

fn in_range(value: u64, min: u64, max: u64) -> (out: bool)
    ensures
        out == within(value, min, max),
{
    min <= value && value <= max
}

impl BotSettings {
    /// Whether the settings may be stored.
    pub fn validate(&self) -> (out: bool)
        ensures
            out == self@.valid(),
    {
        let name = self.name.as_str().unicode_len();
        let pool_address = self.pool_address.as_str().unicode_len();
        let confirm_service = self.confirm_service.as_str().unicode_len();
        1 <= name && name <= 100 && 32 <= pool_address && pool_address <= 44 && in_range(
            self.buy_sol_amount,
            100_000,
            1_000_000_000_000,
        ) && in_range(self.entry_percent, 1, 1_000_000) && in_range(
            self.entry_slippage,
            1_000,
            5_000_000,
        ) && in_range(self.exit_slippage, 1_000, 10_000_000) && in_range(
            self.stop_loss,
            1,
            1_000_000,
        ) && in_range(self.take_profit, 1, 10_000_000) && self.auto_exit <= 86_400 && 1
            <= confirm_service && confirm_service <= 20 && in_range(self.cu, 1, 1_000_000)
            && self.priority_fee_micro_lamport <= 1_000_000 && self.third_party_fee
            <= 100_000_000_000
    }
}

/// Whether `value`, where it is given, lies between `min` and `max`.
pub open spec fn given_within(value: Option<u64>, min: u64, max: u64) -> bool {
    value is Some ==> within(value->Some_0, min, max)
}

fn given_in_range(value: Option<u64>, min: u64, max: u64) -> (out: bool)
    ensures
        out == given_within(value, min, max),
{
    match value {
        Some(value) => min <= value && value <= max,
        None => true,
    }
}

/// Whether `text`, where it is given, has between `min` and `max`
/// characters.
pub open spec fn given_length_within(text: Option<String>, min: int, max: int) -> bool {
    text is Some ==> min <= text->Some_0@.len() <= max
}

fn given_has_length(text: &Option<String>, min: usize, max: usize) -> (out: bool)
    ensures
        out == given_length_within(*text, min as int, max as int),
{
    match text {
        Some(text) => {
            let len = text.as_str().unicode_len();
            min <= len && len <= max
        },
        None => true,
    }
}

/// Body of a request that changes trading parameters; what is not given
/// stays as it is.
#[derive(Debug)]
pub struct UpdateTradingParamsRequest {
    pub pool_address: Option<String>,
    pub buy_sol_amount: Option<u64>,
    pub entry_percent: Option<u64>,
    pub entry_slippage: Option<u64>,
    pub exit_slippage: Option<u64>,
    pub stop_loss: Option<u64>,
    pub take_profit: Option<u64>,
    pub auto_exit: Option<u64>,
}

impl UpdateTradingParamsRequest {
    /// Whether the request may be served: what is given lies in the ranges
    /// of the settings, but for the slippages, which an update may set to at
    /// most 50 % on entry and 100 % on exit.
    pub open spec fn valid(&self) -> bool {
        &&& given_length_within(self.pool_address, 32, 44)
        &&& given_within(self.buy_sol_amount, 100_000, 1_000_000_000_000)
        &&& given_within(self.entry_percent, 1, 1_000_000)
        &&& given_within(self.entry_slippage, 1_000, 500_000)
        &&& given_within(self.exit_slippage, 1_000, 1_000_000)
        &&& given_within(self.stop_loss, 1, 1_000_000)
        &&& given_within(self.take_profit, 1, 10_000_000)
        &&& given_within(self.auto_exit, 0, 86_400)
    }

    /// See [`UpdateTradingParamsRequest::valid`].
    pub fn validate(&self) -> (out: bool)
        ensures
            out == self.valid(),
    {
        given_has_length(&self.pool_address, 32, 44) && given_in_range(
            self.buy_sol_amount,
            100_000,
            1_000_000_000_000,
        ) && given_in_range(self.entry_percent, 1, 1_000_000) && given_in_range(
            self.entry_slippage,
            1_000,
            500_000,
        ) && given_in_range(self.exit_slippage, 1_000, 1_000_000) && given_in_range(
            self.stop_loss,
            1,
            1_000_000,
        ) && given_in_range(self.take_profit, 1, 10_000_000) && given_in_range(
            self.auto_exit,
            0,
            86_400,
        )
    }
}

/// Body of a request that changes relay parameters; what is not given stays
/// as it is.
#[derive(Debug)]
pub struct UpdateMevConfigRequest {
    pub confirm_service: Option<String>,
    pub cu: Option<u64>,
    pub priority_fee: Option<u64>,
    pub third_party_fee: Option<u64>,
}

impl UpdateMevConfigRequest {
    /// Whether the request may be served: what is given lies in the ranges
    /// of the settings.
    pub open spec fn valid(&self) -> bool {
        &&& given_length_within(self.confirm_service, 1, 20)
        &&& given_within(self.cu, 1, 1_000_000)
        &&& given_within(self.priority_fee, 0, 1_000_000)
        &&& given_within(self.third_party_fee, 0, 100_000_000_000)
    }

    /// See [`UpdateMevConfigRequest::valid`].
    pub fn validate(&self) -> (out: bool)
        ensures
            out == self.valid(),
    {
        given_has_length(&self.confirm_service, 1, 20) && given_in_range(self.cu, 1, 1_000_000)
            && given_in_range(self.priority_fee, 0, 1_000_000) && given_in_range(
            self.third_party_fee,
            0,
            100_000_000_000,
        )
    }
}

/// What the engine holds of one active user: the pool watched, the signing
/// keys in base58 and the bot's settings.
#[derive(Debug)]
pub struct UserBotData {
    pub pool_id: String,
    pub user_id: String,
    pub private_key: String,
    pub public_key: String,
    pub bot_setting: BotSettings,
}

/// Mathematical value of [`UserBotData`].
pub struct UserBotDataView {
    pub pool_id: Seq<char>,
    pub user_id: Seq<char>,
    pub private_key: Seq<char>,
    pub public_key: Seq<char>,
    pub bot_setting: BotSettingsView,
}

impl View for UserBotData {
    type V = UserBotDataView;

    open spec fn view(&self) -> UserBotDataView {
        UserBotDataView {
            pool_id: self.pool_id@,
            user_id: self.user_id@,
            private_key: self.private_key@,
            public_key: self.public_key@,
            bot_setting: self.bot_setting@,
        }
    }
}

impl Clone for UserBotData {
    fn clone(&self) -> (out: Self)
        ensures
            out@ == self@,
    {
        UserBotData {
            pool_id: clone_string(&self.pool_id),
            user_id: clone_string(&self.user_id),
            private_key: clone_string(&self.private_key),
            public_key: clone_string(&self.public_key),
            bot_setting: self.bot_setting.clone(),
        }
    }
}

} // verus!
