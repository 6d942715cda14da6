//! The two event processors, one for each family of pools.
//!
//! An event is taken in for one user at a time, in four steps: the pool's
//! price is read off the event and noted in the user's slot; the next leg is
//! built afresh; the decision engine is asked; and the event is held against
//! the transaction the slot has in flight. A step that cannot be done ends
//! the event for that user, and what the steps before it did stays.

use crate::builder::{
    build_pump_leg, build_raydium_leg, spec_pump_leg, spec_raydium_leg, ChainBalances,
};
use crate::decision::{evaluate, observe_price, spec_decided, spec_evaluate, spec_observe, Decision};
use crate::event::{
    balance_at, balances_view, first_where, get_coin_pc_mint, infer_direction, keys_view,
    lemma_first_where_is, observed_price, spec_observed, spec_observed_price, spec_vault_info,
    PoolEvent, SwapInstruction,
};
use crate::instruction::{
    get_associated_token_address, instructions_view, spec_associated_token_address, Instruction,
    InstructionView,
};
use crate::keys::{
    base58_of_pubkey, contains_key, parse_pubkey, position_of, pubkey_of_base58,
    pumpswap_program_id, raydium_v4_program_id, spec_contains_key, wsol_mint, Pubkey,
    PUMPSWAP_PROGRAM_BYTES, RAYDIUM_V4_PROGRAM_BYTES, TOKEN_PROGRAM_BYTES, WSOL_BYTES,
};
use crate::pumpswap::SellInstructionAccounts;
use crate::raydium::SwapBaseInInstructionAccounts;
use crate::slot::{armed_slot, is_confirmation, spec_confirmed, RealPoolInfo, RealPoolInfoView};
use crate::store::{
    bucket_wf, lemma_index_of, lemma_insert_wf, lemma_set_slot_wf, pool_ids, slot_position,
    spec_insert_if_absent, spec_lookup, spec_set_slot, store_wf, user_ids, PoolBucketView,
    PositionStore,
};
use crate::strategy::{UserBotData, UserBotDataView};
use crate::text::spec_parse_u64;
use vstd::prelude::*;

verus! {

/// What taking in an event did for one user.
#[derive(Clone, Copy, Debug, PartialEq, Eq, Structural)]
pub struct EventOutcome {
    /// Whether the event concerns the user's pool at all.
    pub involved: bool,
    /// The price read off the event, where one was.
    pub price: Option<u128>,
    /// Whether the next leg was built afresh.
    pub rebuilt: bool,
    /// What the decision engine asks for.
    pub decision: Decision,
    /// Whether the event confirmed the transaction in flight.
    pub confirmed: bool,
}

/// The outcome of an event that changed nothing.
pub open spec fn idle_outcome(involved: bool) -> EventOutcome {
    EventOutcome { involved, price: None, rebuilt: false, decision: Decision::Hold, confirmed: false }
}

/// Addresses equal to `key`.
pub open spec fn is_key(key: Seq<u8>) -> spec_fn(Seq<u8>) -> bool {
    |other: Seq<u8>| other == key
}

/// The slot after the next leg `leg` was prepared and the decision engine
/// was asked at `now_ms`, with what it asked for.
pub open spec fn spec_prepare_and_decide(
    slot: RealPoolInfoView,
    leg: Seq<InstructionView>,
    now_ms: i64,
) -> (RealPoolInfoView, Decision) {
    let prepared = RealPoolInfoView { swap_buy_ixs: leg, ..slot };
    let decision = spec_evaluate(prepared, now_ms);
    (spec_decided(prepared, now_ms, decision), decision)
}

/// The slot after the event `event` was held against the transaction in
/// flight, and whether it confirmed it.
///
/// An event confirms where its signature is the one in flight and the
/// wrapped native account of the user `user_key` is among its accounts; the
/// balances of that account are what the trade is accounted with.
pub open spec fn spec_confirm_stage(
    slot: RealPoolInfoView,
    event: PoolEvent,
    user_key: Seq<u8>,
    now_ms: i64,
) -> (RealPoolInfoView, bool) {
    let keys = keys_view(event.account_keys@);
    match spec_associated_token_address(user_key, WSOL_BYTES@, TOKEN_PROGRAM_BYTES@) {
        Some(wrapped) => {
            let idx = first_where(keys, is_key(wrapped));
            if idx < keys.len() && is_confirmation(slot, event.signature@) {
                (
                    spec_confirmed(
                        slot,
                        event.fee,
                        balance_at(event.pre_balances@, idx),
                        balance_at(event.post_balances@, idx),
                        now_ms,
                    ),
                    true,
                )
            } else {
                (slot, false)
            }
        },
        None => (slot, false),
    }
}

fn confirm_stage(slot: &mut RealPoolInfo, event: &PoolEvent, user_key: &Pubkey, now_ms: i64) -> (out:
    bool)
    requires
        old(slot)@.wf(),
    ensures
        (final(slot)@, out) == spec_confirm_stage(old(slot)@, *event, user_key@, now_ms),
        final(slot)@.wf(),
        final(slot)@.user_bot_data == old(slot)@.user_bot_data,
        final(slot)@.is_bought != old(slot)@.is_bought ==> is_confirmation(
            old(slot)@,
            event.signature@,
        ),
        final(slot)@.fee >= old(slot)@.fee,
{
    let wrapped = match get_associated_token_address(user_key, &wsol_mint()) {
        Some(account) => account,
        None => {
            return false;
        },
    };
    let ghost keys = keys_view(event.account_keys@);
    let idx = match position_of(&event.account_keys, &wrapped) {
        Some(idx) => idx,
        None => {
            proof {
                assert forall|j: int| 0 <= j < keys.len() implies !is_key(wrapped@)(keys[j]) by {
                    assert(keys[j] == event.account_keys[j]@);
                }
                lemma_first_where_is(keys, is_key(wrapped@), keys.len() as int);
            }
            return false;
        },
    };
    proof {
        assert forall|j: int| 0 <= j < idx implies !is_key(wrapped@)(keys[j]) by {
            assert(keys[j] == event.account_keys[j]@);
        }
        assert(keys[idx as int] == event.account_keys[idx as int]@);
        lemma_first_where_is(keys, is_key(wrapped@), idx as int);
    }
    let pre = if idx < event.pre_balances.len() {
        event.pre_balances[idx]
    } else {
        0
    };
    let post = if idx < event.post_balances.len() {
        event.post_balances[idx]
    } else {
        0
    };
    slot.confirm(&event.signature, event.fee, pre, post, now_ms)
}

/// The slot after the first three steps on an event of the constant-product
/// pool with the accounts `a`, with the outcome so far and whether the event
/// goes on to the fourth step.
///
/// Without the reserves of both vaults after the swap the event has no price
/// and goes straight on. With them, the event ends where the direction or
/// the price cannot be had; else the price is noted. The event ends where
/// the next leg cannot be built; else the leg is prepared and the decision
/// engine is asked.
pub open spec fn spec_raydium_quote_stage(
    slot: RealPoolInfoView,
    event: PoolEvent,
    a: SwapBaseInInstructionAccounts,
    user_key: Seq<u8>,
    held_tokens: Option<u64>,
    now_ms: i64,
) -> (RealPoolInfoView, EventOutcome, bool) {
    let keys = keys_view(event.account_keys@);
    let post = balances_view(event.post_token_balances@);
    let pre = balances_view(event.pre_token_balances@);
    let owner = base58_of_pubkey(a.amm_authority@);
    let coin = spec_vault_info(post, owner, a.pool_coin_token_account@, keys);
    let pc = spec_vault_info(post, owner, a.pool_pc_token_account@, keys);
    if coin is Some && pc is Some {
        match spec_observed(
            coin->Some_0,
            pc->Some_0,
            a.user_source_owner@,
            a.user_source_token_account@,
            a.user_destination_token_account@,
        ) {
            Some(observed) => spec_quote_with(
                slot,
                spec_observed_price(observed, post, pre),
                |seen: RealPoolInfoView|
                    spec_raydium_leg(
                        a,
                        observed,
                        user_key,
                        seen.user_bot_data.bot_setting,
                        seen.is_bought,
                        held_tokens,
                    ),
                now_ms,
            ),
            None => (slot, idle_outcome(true), false),
        }
    } else {
        (slot, idle_outcome(true), true)
    }
}

/// The slot after a price, where there is one, was noted, the leg that
/// `leg_of` builds for the slot, where it builds one, was prepared, and the
/// decision engine was asked; with the outcome so far and whether the event
/// goes on.
pub open spec fn spec_quote_with(
    slot: RealPoolInfoView,
    price: Option<u128>,
    leg_of: spec_fn(RealPoolInfoView) -> Option<Seq<InstructionView>>,
    now_ms: i64,
) -> (RealPoolInfoView, EventOutcome, bool) {
    match price {
        Some(price) => {
            let seen = spec_observe(slot, price);
            match leg_of(seen) {
                Some(leg) => {
                    let (decided, decision) = spec_prepare_and_decide(seen, leg, now_ms);
                    (
                        decided,
                        EventOutcome {
                            involved: true,
                            price: Some(price),
                            rebuilt: true,
                            decision,
                            confirmed: false,
                        },
                        true,
                    )
                },
                None => (
                    seen,
                    EventOutcome {
                        involved: true,
                        price: Some(price),
                        rebuilt: false,
                        decision: Decision::Hold,
                        confirmed: false,
                    },
                    false,
                ),
            }
        },
        None => (slot, idle_outcome(true), false),
    }
}

fn prepare_and_decide(slot: &mut RealPoolInfo, leg: Vec<Instruction>, now_ms: i64) -> (out: Decision)
    requires
        old(slot)@.wf(),
    ensures
        (final(slot)@, out) == spec_prepare_and_decide(
            old(slot)@,
            instructions_view(leg@),
            now_ms,
        ),
        final(slot)@.wf(),
        final(slot)@.user_bot_data == old(slot)@.user_bot_data,
        final(slot)@.is_bought == old(slot)@.is_bought,
        final(slot)@.fee == old(slot)@.fee,
{
    slot.swap_buy_ixs = leg;
    evaluate(slot, now_ms)
}

fn raydium_quote_stage(
    slot: &mut RealPoolInfo,
    event: &PoolEvent,
    a: &SwapBaseInInstructionAccounts,
    user_key: &Pubkey,
    held_tokens: Option<u64>,
    now_ms: i64,
) -> (out: (EventOutcome, bool))
    requires
        old(slot)@.wf(),
    ensures
        (final(slot)@, out.0, out.1) == spec_raydium_quote_stage(
            old(slot)@,
            *event,
            *a,
            user_key@,
            held_tokens,
            now_ms,
        ),
        final(slot)@.wf(),
        final(slot)@.user_bot_data == old(slot)@.user_bot_data,
        final(slot)@.is_bought == old(slot)@.is_bought,
        final(slot)@.fee == old(slot)@.fee,
        !out.0.confirmed,
        out.0.involved,
{
    let idle = EventOutcome {
        involved: true,
        price: None,
        rebuilt: false,
        decision: Decision::Hold,
        confirmed: false,
    };
    let infos = get_coin_pc_mint(
        &event.post_token_balances,
        &event.pre_token_balances,
        a.pool_coin_token_account,
        a.pool_pc_token_account,
        a.amm_authority,
        &event.account_keys,
    );
    let (coin, pc) = match (infos.0, infos.1) {
        (Some(coin), Some(pc)) => (coin, pc),
        _ => {
            return (idle, true);
        },
    };
    let observed = match infer_direction(
        &coin,
        &pc,
        &a.user_source_owner,
        &a.user_source_token_account,
        &a.user_destination_token_account,
    ) {
        Some(observed) => observed,
        None => {
            return (idle, false);
        },
    };
    let price = match observed_price(
        &observed,
        &event.post_token_balances,
        &event.pre_token_balances,
    ) {
        Some(price) => price,
        None => {
            return (idle, false);
        },
    };
    observe_price(slot, price);
    let leg = match build_raydium_leg(
        a,
        &observed,
        user_key,
        &slot.user_bot_data.bot_setting,
        slot.is_bought,
        held_tokens,
    ) {
        Some(leg) => leg,
        None => {
            return (
                EventOutcome {
                    involved: true,
                    price: Some(price),
                    rebuilt: false,
                    decision: Decision::Hold,
                    confirmed: false,
                },
                false,
            );
        },
    };
    let decision = prepare_and_decide(slot, leg, now_ms);
    (
        EventOutcome { involved: true, price: Some(price), rebuilt: true, decision, confirmed: false },
        true,
    )
}

/// The slot after the first three steps on an event of the bonding-curve
/// pool with the accounts `a`, with the outcome so far and whether the event
/// goes on to the fourth step.
///
/// The event ends where the reserves of both vaults, before and after the
/// swap, are not all there and numbers, or where the direction or the price
/// cannot be had; else the price is noted. The event ends where the next leg
/// cannot be built; else the leg is prepared and the decision engine is
/// asked.
pub open spec fn spec_pump_quote_stage(
    slot: RealPoolInfoView,
    event: PoolEvent,
    a: SellInstructionAccounts,
    user_key: Seq<u8>,
    balances: ChainBalances,
    now_ms: i64,
) -> (RealPoolInfoView, EventOutcome, bool) {
    let keys = keys_view(event.account_keys@);
    let post = balances_view(event.post_token_balances@);
    let pre = balances_view(event.pre_token_balances@);
    let owner = base58_of_pubkey(a.pool@);
    let base = spec_vault_info(post, owner, a.pool_base_token_account@, keys);
    let quote = spec_vault_info(post, owner, a.pool_quote_token_account@, keys);
    let pre_base = spec_vault_info(pre, owner, a.pool_base_token_account@, keys);
    let pre_quote = spec_vault_info(pre, owner, a.pool_quote_token_account@, keys);
    if base is Some && quote is Some && pre_base is Some && pre_quote is Some && spec_parse_u64(
        pre_base->Some_0.0,
    ) is Some && spec_parse_u64(pre_quote->Some_0.0) is Some {
        match spec_observed(
            base->Some_0,
            quote->Some_0,
            a.user@,
            a.user_base_token_account@,
            a.user_quote_token_account@,
        ) {
            Some(observed) => spec_quote_with(
                slot,
                spec_observed_price(observed, post, pre),
                |seen: RealPoolInfoView|
                    spec_pump_leg(
                        a,
                        observed.input_reserve,
                        user_key,
                        seen.user_bot_data.bot_setting,
                        seen.is_bought,
                        balances,
                    ),
                now_ms,
            ),
            None => (slot, idle_outcome(true), false),
        }
    } else {
        (slot, idle_outcome(true), false)
    }
}

fn pump_quote_stage(
    slot: &mut RealPoolInfo,
    event: &PoolEvent,
    a: &SellInstructionAccounts,
    user_key: &Pubkey,
    balances: &ChainBalances,
    now_ms: i64,
) -> (out: (EventOutcome, bool))
    requires
        old(slot)@.wf(),
    ensures
        (final(slot)@, out.0, out.1) == spec_pump_quote_stage(
            old(slot)@,
            *event,
            *a,
            user_key@,
            *balances,
            now_ms,
        ),
        final(slot)@.wf(),
        final(slot)@.user_bot_data == old(slot)@.user_bot_data,
        final(slot)@.is_bought == old(slot)@.is_bought,
        final(slot)@.fee == old(slot)@.fee,
        !out.0.confirmed,
        out.0.involved,
{
    let idle = EventOutcome {
        involved: true,
        price: None,
        rebuilt: false,
        decision: Decision::Hold,
        confirmed: false,
    };
    let infos = get_coin_pc_mint(
        &event.post_token_balances,
        &event.pre_token_balances,
        a.pool_base_token_account,
        a.pool_quote_token_account,
        a.pool,
        &event.account_keys,
    );
    let (base, quote, pre_base, pre_quote) = match (infos.0, infos.1, infos.2, infos.3) {
        (Some(base), Some(quote), Some(pre_base), Some(pre_quote)) => (
            base,
            quote,
            pre_base,
            pre_quote,
        ),
        _ => {
            return (idle, false);
        },
    };
    if crate::text::parse_u64(pre_base.0.as_str()).is_none() || crate::text::parse_u64(
        pre_quote.0.as_str(),
    ).is_none() {
        return (idle, false);
    }
    let observed = match infer_direction(
        &base,
        &quote,
        &a.user,
        &a.user_base_token_account,
        &a.user_quote_token_account,
    ) {
        Some(observed) => observed,
        None => {
            return (idle, false);
        },
    };
    let price = match observed_price(
        &observed,
        &event.post_token_balances,
        &event.pre_token_balances,
    ) {
        Some(price) => price,
        None => {
            return (idle, false);
        },
    };
    observe_price(slot, price);
    let leg = match build_pump_leg(
        a,
        observed.input_reserve,
        user_key,
        &slot.user_bot_data.bot_setting,
        slot.is_bought,
        balances,
    ) {
        Some(leg) => leg,
        None => {
            return (
                EventOutcome {
                    involved: true,
                    price: Some(price),
                    rebuilt: false,
                    decision: Decision::Hold,
                    confirmed: false,
                },
                false,
            );
        },
    };
    let decision = prepare_and_decide(slot, leg, now_ms);
    (
        EventOutcome { involved: true, price: Some(price), rebuilt: true, decision, confirmed: false },
        true,
    )
}

/// Whether an event concerns the pool `pool_id`: the text is an address, and
/// the address is among the event's accounts.
pub open spec fn spec_involves(event: PoolEvent, pool_id: Seq<char>) -> bool {
    pubkey_of_base58(pool_id) is Some && spec_contains_key(
        event.account_keys@,
        pubkey_of_base58(pool_id)->Some_0,
    )
}

/// The slot after the four steps, given what the first three make of it.
/// A user whose public key is no address is left alone.
pub open spec fn spec_slot_after(
    slot: RealPoolInfoView,
    event: PoolEvent,
    quote_stage: spec_fn(RealPoolInfoView, Seq<u8>) -> (RealPoolInfoView, EventOutcome, bool),
    now_ms: i64,
) -> (RealPoolInfoView, EventOutcome) {
    match pubkey_of_base58(slot.user_bot_data.public_key) {
        Some(user_key) => {
            let (quoted, outcome, goes_on) = quote_stage(slot, user_key);
            if goes_on {
                let (confirmed_slot, confirmed) = spec_confirm_stage(
                    quoted,
                    event,
                    user_key,
                    now_ms,
                );
                (confirmed_slot, EventOutcome { confirmed, ..outcome })
            } else {
                (quoted, outcome)
            }
        },
        None => (slot, idle_outcome(true)),
    }
}

/// What the first three steps of the constant-product processor make of a
/// slot: they act on a base-in swap and pass any other instruction on.
pub open spec fn raydium_stage(event: PoolEvent, held_tokens: Option<u64>, now_ms: i64) -> spec_fn(
    RealPoolInfoView,
    Seq<u8>,
) -> (RealPoolInfoView, EventOutcome, bool) {
    |slot: RealPoolInfoView, user_key: Seq<u8>|
        match event.instruction {
            SwapInstruction::RaydiumV4SwapBaseIn(a) => spec_raydium_quote_stage(
                slot,
                event,
                a,
                user_key,
                held_tokens,
                now_ms,
            ),
            _ => (slot, idle_outcome(true), true),
        }
}

/// What the first three steps of the bonding-curve processor make of a
/// slot: they act on a buy and on a sell, and any other instruction ends the
/// event.
pub open spec fn pump_stage(event: PoolEvent, balances: ChainBalances, now_ms: i64) -> spec_fn(
    RealPoolInfoView,
    Seq<u8>,
) -> (RealPoolInfoView, EventOutcome, bool) {
    |slot: RealPoolInfoView, user_key: Seq<u8>|
        match event.instruction {
            SwapInstruction::PumpSwapBuy(a) => spec_pump_quote_stage(
                slot,
                event,
                a,
                user_key,
                balances,
                now_ms,
            ),
            SwapInstruction::PumpSwapSell(a) => spec_pump_quote_stage(
                slot,
                event,
                a,
                user_key,
                balances,
                now_ms,
            ),
            _ => (slot, idle_outcome(true), false),
        }
}

/// The store after an event was taken in for `user`, with the outcome.
///
/// An event that does not concern the user's pool changes nothing. Any
/// other first gives the user an armed slot in the pool, unless the user has
/// one, and then takes that slot through the four steps.
pub open spec fn spec_process(
    store: Seq<PoolBucketView>,
    event: PoolEvent,
    user: UserBotDataView,
    quote_stage: spec_fn(RealPoolInfoView, Seq<u8>) -> (RealPoolInfoView, EventOutcome, bool),
    now_ms: i64,
) -> (Seq<PoolBucketView>, EventOutcome) {
    if spec_involves(event, user.pool_id) {
        let inserted = spec_insert_if_absent(store, armed_slot(user, now_ms));
        match slot_position(inserted, user.pool_id, user.user_id) {
            Some((b, i)) => {
                let (slot, outcome) = spec_slot_after(
                    inserted[b].slots[i],
                    event,
                    quote_stage,
                    now_ms,
                );
                (spec_set_slot(inserted, b, i, slot), outcome)
            },
            None => (inserted, idle_outcome(true)),
        }
    } else {
        (store, idle_outcome(false))
    }
}

fn involves(event: &PoolEvent, pool_id: &String) -> (out: bool)
    ensures
        out == spec_involves(*event, pool_id@),
{
    match parse_pubkey(pool_id.as_str()) {
        Some(pool) => contains_key(&event.account_keys, &pool),
        None => false,
    }
}

/// Processor of the events of the constant-product pool.
pub struct RaydiumV4Process;

/// Processor of the events of the bonding-curve pool.
pub struct PumpSwapProcess;

impl RaydiumV4Process {
    /// Takes in `event` for `user` at `now_ms`. `held_tokens` is what the
    /// chain reports of the account that a sell would pay from.
    pub fn process_user_data(
        store: &mut PositionStore,
        event: &PoolEvent,
        user: &UserBotData,
        held_tokens: Option<u64>,
        now_ms: i64,
    ) -> (out: EventOutcome)
        requires
            old(store).wf(),
        ensures
            (final(store)@, out) == spec_process(
                old(store)@,
                *event,
                user@,
                raydium_stage(*event, held_tokens, now_ms),
                now_ms,
            ),
            final(store).wf(),
    {
        if !involves(event, &user.pool_id) {
            return EventOutcome {
                involved: false,
                price: None,
                rebuilt: false,
                decision: Decision::Hold,
                confirmed: false,
            };
        }
        let (b, i) = store.insert_if_absent(RealPoolInfo::new(user.clone(), now_ms));
        let ghost inserted = store@;
        let ghost before = inserted[b as int].slots[i as int];
        proof {
            assert(bucket_wf(inserted[b as int]));
            assert(before.wf());
        }
        let mut outcome = EventOutcome {
            involved: true,
            price: None,
            rebuilt: false,
            decision: Decision::Hold,
            confirmed: false,
        };
        let user_key = match parse_pubkey(store.pools[b].slots[i].user_bot_data.public_key.as_str()) {
            Some(key) => key,
            None => {
                proof {
                    assert(inserted[b as int].slots.update(i as int, before)
                        =~= inserted[b as int].slots);
                    assert(spec_set_slot(inserted, b as int, i as int, before) =~= inserted);
                }
                return outcome;
            },
        };
        let mut goes_on = true;
        match event.instruction {
            SwapInstruction::RaydiumV4SwapBaseIn(a) => {
                let staged = raydium_quote_stage(
                    &mut store.pools[b].slots[i],
                    event,
                    &a,
                    &user_key,
                    held_tokens,
                    now_ms,
                );
                outcome = staged.0;
                goes_on = staged.1;
            },
            _ => {},
        }
        if goes_on {
            let confirmed = confirm_stage(&mut store.pools[b].slots[i], event, &user_key, now_ms);
            outcome.confirmed = confirmed;
        }
        proof {
            let after = store@[b as int].slots[i as int];
            assert(store@[b as int].slots =~= inserted[b as int].slots.update(i as int, after));
            assert(store@ =~= spec_set_slot(inserted, b as int, i as int, after));
            lemma_set_slot_wf(inserted, b as int, i as int, after);
        }
        outcome
    }
}

impl PumpSwapProcess {
    /// Takes in `event` for `user` at `now_ms`. `balances` is what the chain
    /// reports of the accounts that the next leg depends on.
    pub fn process_user_data(
        store: &mut PositionStore,
        event: &PoolEvent,
        user: &UserBotData,
        balances: &ChainBalances,
        now_ms: i64,
    ) -> (out: EventOutcome)
        requires
            old(store).wf(),
        ensures
            (final(store)@, out) == spec_process(
                old(store)@,
                *event,
                user@,
                pump_stage(*event, *balances, now_ms),
                now_ms,
            ),
            final(store).wf(),
    {
        if !involves(event, &user.pool_id) {
            return EventOutcome {
                involved: false,
                price: None,
                rebuilt: false,
                decision: Decision::Hold,
                confirmed: false,
            };
        }
        let (b, i) = store.insert_if_absent(RealPoolInfo::new(user.clone(), now_ms));
        let ghost inserted = store@;
        let ghost before = inserted[b as int].slots[i as int];
        proof {
            assert(bucket_wf(inserted[b as int]));
            assert(before.wf());
        }
        let mut outcome = EventOutcome {
            involved: true,
            price: None,
            rebuilt: false,
            decision: Decision::Hold,
            confirmed: false,
        };
        let user_key = match parse_pubkey(store.pools[b].slots[i].user_bot_data.public_key.as_str()) {
            Some(key) => key,
            None => {
                proof {
                    assert(inserted[b as int].slots.update(i as int, before)
                        =~= inserted[b as int].slots);
                    assert(spec_set_slot(inserted, b as int, i as int, before) =~= inserted);
                }
                return outcome;
            },
        };
        let mut goes_on = false;
        match event.instruction {
            SwapInstruction::PumpSwapBuy(a) => {
                let staged = pump_quote_stage(
                    &mut store.pools[b].slots[i],
                    event,
                    &a,
                    &user_key,
                    balances,
                    now_ms,
                );
                outcome = staged.0;
                goes_on = staged.1;
            },
            SwapInstruction::PumpSwapSell(a) => {
                let staged = pump_quote_stage(
                    &mut store.pools[b].slots[i],
                    event,
                    &a,
                    &user_key,
                    balances,
                    now_ms,
                );
                outcome = staged.0;
                goes_on = staged.1;
            },
            _ => {},
        }
        if goes_on {
            let confirmed = confirm_stage(&mut store.pools[b].slots[i], event, &user_key, now_ms);
            outcome.confirmed = confirmed;
        }
        proof {
            let after = store@[b as int].slots[i as int];
            assert(store@[b as int].slots =~= inserted[b as int].slots.update(i as int, after));
            assert(store@ =~= spec_set_slot(inserted, b as int, i as int, after));
            lemma_set_slot_wf(inserted, b as int, i as int, after);
        }
        outcome
    }
}

/// Whether the user at place `i` of `users` is concerned by `event`: the
/// user's pool is among the event's accounts and the program `other`, that of
/// the other family of pools, is not.
pub open spec fn spec_selected(
    users: Seq<UserBotData>,
    event: PoolEvent,
    other: Seq<u8>,
    i: int,
) -> bool {
    spec_involves(event, users[i].pool_id@) && !spec_contains_key(event.account_keys@, other)
}

fn interested_users(users: &Vec<UserBotData>, event: &PoolEvent, other: &Pubkey) -> (out: Vec<usize>)
    ensures
        forall|k: int| 0 <= k < out.len() ==> out[k] < users.len() && spec_selected(
            users@,
            *event,
            other@,
            #[trigger] out[k] as int,
        ),
        forall|k: int, l: int| 0 <= k < l < out.len() ==> out[k] < out[l],
        forall|i: int|
            0 <= i < users.len() && spec_selected(users@, *event, other@, i) ==> exists|k: int|
                0 <= k < out.len() && #[trigger] out[k] == i,
{
    let mut out: Vec<usize> = Vec::new();
    if contains_key(&event.account_keys, other) {
        return out;
    }
    let mut i: usize = 0;
    while i < users.len()
        invariant
            i <= users.len(),
            !spec_contains_key(event.account_keys@, other@),
            forall|k: int| 0 <= k < out.len() ==> out[k] < i && spec_selected(
                users@,
                *event,
                other@,
                #[trigger] out[k] as int,
            ),
            forall|k: int, l: int| 0 <= k < l < out.len() ==> out[k] < out[l],
            forall|j: int|
                0 <= j < i && spec_selected(users@, *event, other@, j) ==> exists|k: int|
                    0 <= k < out.len() && #[trigger] out[k] == j,
        decreases users.len() - i,
    {
        if involves(event, &users[i].pool_id) {
            let ghost before = out@;
            out.push(i);
            assert forall|j: int|
                0 <= j < i + 1 && spec_selected(users@, *event, other@, j) implies exists|k: int|
                0 <= k < out.len() && #[trigger] out[k] == j by {
                if j < i {
                    let k = choose|k: int| 0 <= k < before.len() && #[trigger] before[k] == j;
                    assert(out[k] == j);
                } else {
                    assert(out[out.len() - 1] == j);
                }
            }
        }
        i += 1;
    }
    out
}

impl RaydiumV4Process {
    /// The places in `user_list` of the users that `event` is to be taken in
    /// for, in their order: those whose pool is among the event's accounts,
    /// and none where the bonding-curve program is among them.
    pub fn process(user_list: &Vec<UserBotData>, event: &PoolEvent) -> (out: Vec<usize>)
        ensures
            forall|k: int| 0 <= k < out.len() ==> out[k] < user_list.len() && spec_selected(
                user_list@,
                *event,
                PUMPSWAP_PROGRAM_BYTES@,
                #[trigger] out[k] as int,
            ),
            forall|k: int, l: int| 0 <= k < l < out.len() ==> out[k] < out[l],
            forall|i: int|
                0 <= i < user_list.len() && spec_selected(
                    user_list@,
                    *event,
                    PUMPSWAP_PROGRAM_BYTES@,
                    i,
                ) ==> exists|k: int| 0 <= k < out.len() && #[trigger] out[k] == i,
    {
        interested_users(user_list, event, &pumpswap_program_id())
    }
}

impl PumpSwapProcess {
    /// The places in `user_list` of the users that `event` is to be taken in
    /// for, in their order: those whose pool is among the event's accounts,
    /// and none where the constant-product program is among them.
    pub fn process(user_list: &Vec<UserBotData>, event: &PoolEvent) -> (out: Vec<usize>)
        ensures
            forall|k: int| 0 <= k < out.len() ==> out[k] < user_list.len() && spec_selected(
                user_list@,
                *event,
                RAYDIUM_V4_PROGRAM_BYTES@,
                #[trigger] out[k] as int,
            ),
            forall|k: int, l: int| 0 <= k < l < out.len() ==> out[k] < out[l],
            forall|i: int|
                0 <= i < user_list.len() && spec_selected(
                    user_list@,
                    *event,
                    RAYDIUM_V4_PROGRAM_BYTES@,
                    i,
                ) ==> exists|k: int| 0 <= k < out.len() && #[trigger] out[k] == i,
    {
        interested_users(user_list, event, &raydium_v4_program_id())
    }
}

/// Whether what the first three steps made of `slot` leaves alone whether it
/// is long, what it has in flight, its fees and its user, and keeps it well
/// formed.
pub open spec fn stage_keeps(
    staged: (RealPoolInfoView, EventOutcome, bool),
    slot: RealPoolInfoView,
) -> bool {
    &&& staged.0.wf()
    &&& staged.0.is_bought == slot.is_bought
    &&& staged.0.signature == slot.signature
    &&& staged.0.fee == slot.fee
    &&& staged.0.user_bot_data == slot.user_bot_data
}

/// What holds of a slot `after` an event that found it as `before`: it is
/// well formed and has its user, its fees have not shrunk, and it has changed
/// sides only where the event's signature is the one it had in flight.
pub open spec fn slot_kept(
    before: RealPoolInfoView,
    after: RealPoolInfoView,
    event: PoolEvent,
) -> bool {
    &&& after.wf()
    &&& after.user_bot_data == before.user_bot_data
    &&& after.fee >= before.fee
    &&& after.is_bought != before.is_bought ==> is_confirmation(before, event.signature@)
}

/// What an event makes of a slot, whatever the first three steps are, so
/// long as they leave alone whether the slot is long, what it has in flight
/// and its fees: the slot stays well formed and with its user, its fees do
/// not shrink, and it changes sides only where the event's signature is the
/// one it had in flight, which the outcome then reports.
pub proof fn law_event_keeps_slot(
    slot: RealPoolInfoView,
    event: PoolEvent,
    quote_stage: spec_fn(RealPoolInfoView, Seq<u8>) -> (RealPoolInfoView, EventOutcome, bool),
    now_ms: i64,
)
    requires
        slot.wf(),
        forall|key: Seq<u8>| stage_keeps(#[trigger] quote_stage(slot, key), slot),
    ensures
        slot_kept(slot, spec_slot_after(slot, event, quote_stage, now_ms).0, event),
        spec_slot_after(slot, event, quote_stage, now_ms).0.is_bought != slot.is_bought
            ==> spec_slot_after(slot, event, quote_stage, now_ms).1.confirmed,
{
    match pubkey_of_base58(slot.user_bot_data.public_key) {
        Some(user_key) => {
            assert(stage_keeps(quote_stage(slot, user_key), slot));
        },
        None => {},
    }
}

/// The first three steps leave alone whether the slot is long, what it has
/// in flight, its fees and its user, and keep it well formed.
pub proof fn lemma_quote_with_keeps(
    slot: RealPoolInfoView,
    price: Option<u128>,
    leg_of: spec_fn(RealPoolInfoView) -> Option<Seq<InstructionView>>,
    now_ms: i64,
)
    requires
        slot.wf(),
    ensures
        stage_keeps(spec_quote_with(slot, price, leg_of, now_ms), slot),
{
}

/// The first three steps of the constant-product processor leave alone
/// whether the slot is long, what it has in flight, its fees and its user.
pub proof fn lemma_raydium_stage_keeps(
    slot: RealPoolInfoView,
    event: PoolEvent,
    held_tokens: Option<u64>,
    now_ms: i64,
    key: Seq<u8>,
)
    requires
        slot.wf(),
    ensures
        stage_keeps(raydium_stage(event, held_tokens, now_ms)(slot, key), slot),
{
    if let SwapInstruction::RaydiumV4SwapBaseIn(a) = event.instruction {
        let keys = keys_view(event.account_keys@);
        let post = balances_view(event.post_token_balances@);
        let pre = balances_view(event.pre_token_balances@);
        let owner = base58_of_pubkey(a.amm_authority@);
        let coin = spec_vault_info(post, owner, a.pool_coin_token_account@, keys);
        let pc = spec_vault_info(post, owner, a.pool_pc_token_account@, keys);
        if coin is Some && pc is Some {
            let observed = spec_observed(
                coin->Some_0,
                pc->Some_0,
                a.user_source_owner@,
                a.user_source_token_account@,
                a.user_destination_token_account@,
            );
            if observed is Some {
                lemma_quote_with_keeps(
                    slot,
                    spec_observed_price(observed->Some_0, post, pre),
                    |seen: RealPoolInfoView|
                        spec_raydium_leg(
                            a,
                            observed->Some_0,
                            key,
                            seen.user_bot_data.bot_setting,
                            seen.is_bought,
                            held_tokens,
                        ),
                    now_ms,
                );
            }
        }
    }
}

/// The first three steps of the bonding-curve processor leave alone whether
/// the slot is long, what it has in flight, its fees and its user.
pub proof fn lemma_pump_stage_keeps(
    slot: RealPoolInfoView,
    event: PoolEvent,
    balances: ChainBalances,
    now_ms: i64,
    key: Seq<u8>,
)
    requires
        slot.wf(),
    ensures
        stage_keeps(pump_stage(event, balances, now_ms)(slot, key), slot),
{
    let accounts = match event.instruction {
        SwapInstruction::PumpSwapBuy(a) => Some(a),
        SwapInstruction::PumpSwapSell(a) => Some(a),
        _ => None,
    };
    if let Some(a) = accounts {
        let keys = keys_view(event.account_keys@);
        let post = balances_view(event.post_token_balances@);
        let pre = balances_view(event.pre_token_balances@);
        let owner = base58_of_pubkey(a.pool@);
        let base = spec_vault_info(post, owner, a.pool_base_token_account@, keys);
        let quote = spec_vault_info(post, owner, a.pool_quote_token_account@, keys);
        if base is Some && quote is Some {
            let observed = spec_observed(
                base->Some_0,
                quote->Some_0,
                a.user@,
                a.user_base_token_account@,
                a.user_quote_token_account@,
            );
            if observed is Some {
                lemma_quote_with_keeps(
                    slot,
                    spec_observed_price(observed->Some_0, post, pre),
                    |seen: RealPoolInfoView|
                        spec_pump_leg(
                            a,
                            observed->Some_0.input_reserve,
                            key,
                            seen.user_bot_data.bot_setting,
                            seen.is_bought,
                            balances,
                        ),
                    now_ms,
                );
            }
        }
    }
}

/// The store in which an event finds the slot of `user`: the store as it
/// was, with an armed slot for the user where the event concerns the user's
/// pool and the user has none there.
pub open spec fn spec_store_met(
    store: Seq<PoolBucketView>,
    event: PoolEvent,
    user: UserBotDataView,
    now_ms: i64,
) -> Seq<PoolBucketView> {
    if spec_involves(event, user.pool_id) {
        spec_insert_if_absent(store, armed_slot(user, now_ms))
    } else {
        store
    }
}

/// Whether the slot of `other` in `pool`, if the event met one, is there
/// afterwards and kept, and whether there is none afterwards if it met none.
pub open spec fn every_slot_kept(
    met: Seq<PoolBucketView>,
    after: Seq<PoolBucketView>,
    event: PoolEvent,
    pool: Seq<char>,
    other: Seq<char>,
) -> bool {
    match spec_lookup(met, pool, other) {
        Some(before) => spec_lookup(after, pool, other) is Some && slot_kept(
            before,
            spec_lookup(after, pool, other)->Some_0,
            event,
        ),
        None => spec_lookup(after, pool, other) is None,
    }
}

/// An event taken in for one user keeps the store well formed and every
/// slot in it: no slot comes or goes but the armed slot that the user may be
/// given, no slot's fees shrink, and a slot changes sides only where the
/// event's signature is the one it had in flight.
pub proof fn law_process_keeps_every_slot(
    store: Seq<PoolBucketView>,
    event: PoolEvent,
    user: UserBotDataView,
    quote_stage: spec_fn(RealPoolInfoView, Seq<u8>) -> (RealPoolInfoView, EventOutcome, bool),
    now_ms: i64,
    pool: Seq<char>,
    other: Seq<char>,
)
    requires
        store_wf(store),
        forall|slot: RealPoolInfoView, key: Seq<u8>|
            slot.wf() ==> stage_keeps(#[trigger] quote_stage(slot, key), slot),
    ensures
        store_wf(spec_process(store, event, user, quote_stage, now_ms).0),
        every_slot_kept(
            spec_store_met(store, event, user, now_ms),
            spec_process(store, event, user, quote_stage, now_ms).0,
            event,
            pool,
            other,
        ),
{
    let met = spec_store_met(store, event, user, now_ms);
    let after = spec_process(store, event, user, quote_stage, now_ms).0;
    let fresh = armed_slot(user, now_ms);
    if spec_involves(event, user.pool_id) {
        if slot_position(store, user.pool_id, user.user_id) is None {
            lemma_insert_wf(store, fresh);
        }
        assert(store_wf(met));
        let position = slot_position(met, user.pool_id, user.user_id);
        assert(position is Some);
        let (b, i) = position->Some_0;
        lemma_index_of(pool_ids(met), user.pool_id);
        lemma_index_of(user_ids(met[b].slots), user.user_id);
        let slot = met[b].slots[i];
        assert(bucket_wf(met[b]));
        assert(slot.wf());
        law_event_keeps_slot(slot, event, quote_stage, now_ms);
        let changed = spec_slot_after(slot, event, quote_stage, now_ms).0;
        assert(after == spec_set_slot(met, b, i, changed));
        lemma_set_slot_wf(met, b, i, changed);
        match slot_position(met, pool, other) {
            Some((c, j)) => {
                lemma_index_of(pool_ids(met), pool);
                lemma_index_of(user_ids(met[c].slots), other);
                assert(bucket_wf(met[c]));
                assert(met[c].slots[j].wf());
                if c != b {
                    assert(after[c] == met[c]);
                } else if j != i {
                    assert(after[c].slots[j] == met[c].slots[j]);
                }
            },
            None => {},
        }
    } else {
        match slot_position(met, pool, other) {
            Some((c, j)) => {
                lemma_index_of(pool_ids(met), pool);
                lemma_index_of(user_ids(met[c].slots), other);
                assert(bucket_wf(met[c]));
                assert(met[c].slots[j].wf());
            },
            None => {},
        }
    }
}

/// An event of the constant-product pool, taken in for one user, keeps the
/// store well formed and every slot in it: no slot's fees shrink, and a slot
/// changes sides only where the event's signature is the one it had in
/// flight.
pub proof fn law_raydium_process_keeps_every_slot(
    store: Seq<PoolBucketView>,
    event: PoolEvent,
    user: UserBotDataView,
    held_tokens: Option<u64>,
    now_ms: i64,
    pool: Seq<char>,
    other: Seq<char>,
)
    requires
        store_wf(store),
    ensures
        store_wf(
            spec_process(store, event, user, raydium_stage(event, held_tokens, now_ms), now_ms).0,
        ),
        every_slot_kept(
            spec_store_met(store, event, user, now_ms),
            spec_process(store, event, user, raydium_stage(event, held_tokens, now_ms), now_ms).0,
            event,
            pool,
            other,
        ),
{
    let stage = raydium_stage(event, held_tokens, now_ms);
    assert forall|slot: RealPoolInfoView, key: Seq<u8>| slot.wf() implies stage_keeps(
        #[trigger] stage(slot, key),
        slot,
    ) by {
        lemma_raydium_stage_keeps(slot, event, held_tokens, now_ms, key);
    }
    law_process_keeps_every_slot(store, event, user, stage, now_ms, pool, other);
}

/// An event of the bonding-curve pool, taken in for one user, keeps the
/// store well formed and every slot in it: no slot's fees shrink, and a slot
/// changes sides only where the event's signature is the one it had in
/// flight.
pub proof fn law_pump_process_keeps_every_slot(
    store: Seq<PoolBucketView>,
    event: PoolEvent,
    user: UserBotDataView,
    balances: ChainBalances,
    now_ms: i64,
    pool: Seq<char>,
    other: Seq<char>,
)
    requires
        store_wf(store),
    ensures
        store_wf(spec_process(store, event, user, pump_stage(event, balances, now_ms), now_ms).0),
        every_slot_kept(
            spec_store_met(store, event, user, now_ms),
            spec_process(store, event, user, pump_stage(event, balances, now_ms), now_ms).0,
            event,
            pool,
            other,
        ),
{
    let stage = pump_stage(event, balances, now_ms);
    assert forall|slot: RealPoolInfoView, key: Seq<u8>| slot.wf() implies stage_keeps(
        #[trigger] stage(slot, key),
        slot,
    ) by {
        lemma_pump_stage_keeps(slot, event, balances, now_ms, key);
    }
    law_process_keeps_every_slot(store, event, user, stage, now_ms, pool, other);
}

} // verus!
