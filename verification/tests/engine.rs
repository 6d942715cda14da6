use raydium_amm_monitor::builder::ChainBalances;
use raydium_amm_monitor::decision::{decision_engine, on_price_change, Decision};
use raydium_amm_monitor::event::{PoolEvent, SwapInstruction, TokenBalance};
use raydium_amm_monitor::instruction::{
    close_account, get_associated_token_address, sync_native, system_transfer,
};
use raydium_amm_monitor::keys::{
    associated_token_program_id, pumpswap_program_id, raydium_v4_program_id, system_program_id,
    token_program_id, wsol_mint, Pubkey,
};
use raydium_amm_monitor::pipeline::{prepare_submission, record_relay_answer, SubmitError};
use raydium_amm_monitor::processor::{PumpSwapProcess, RaydiumV4Process};
use raydium_amm_monitor::pumpswap::SellInstructionAccounts;
use raydium_amm_monitor::raydium::SwapBaseInInstructionAccounts;
use raydium_amm_monitor::service::{cleanup_bot_after_sell, BotService, TradingState, UserKeys};
use raydium_amm_monitor::slot::{RealPoolInfo, SlotState};
use raydium_amm_monitor::strategy::{BotSettings, UserBotData};

const PRICE_UNIT: u128 = 1_000_000_000_000_000_000;
const T0: i64 = 1_700_000_000_000;

fn key(seed: u8) -> Pubkey {
    let mut bytes = [0u8; 32];
    for (i, b) in bytes.iter_mut().enumerate() {
        *b = seed.wrapping_mul(29).wrapping_add(i as u8);
    }
    Pubkey::new_from_array(bytes)
}

fn text(key: &Pubkey) -> String {
    solana_sdk::pubkey::Pubkey::new_from_array(key.bytes).to_string()
}

fn pool() -> Pubkey {
    key(1)
}

fn user_key() -> Pubkey {
    key(2)
}

fn token_mint() -> Pubkey {
    key(3)
}

fn strategy(user_id: &str) -> BotSettings {
    let mut settings =
        BotSettings::new(user_id.to_string(), "bot".to_string(), text(&pool()), T0);
    settings.update_trading_params(
        None,
        Some(10_000_000),
        Some(10_000),
        Some(50_000),
        Some(50_000),
        Some(50_000),
        Some(100_000),
        Some(3600),
        T0,
    );
    settings
}

fn user(user_id: &str) -> UserBotData {
    UserBotData {
        pool_id: text(&pool()),
        user_id: user_id.to_string(),
        private_key: String::new(),
        public_key: text(&user_key()),
        bot_setting: strategy(user_id),
    }
}

fn raydium_accounts() -> SwapBaseInInstructionAccounts {
    SwapBaseInInstructionAccounts {
        token_program: token_program_id(),
        amm: pool(),
        amm_authority: key(11),
        amm_open_orders: key(12),
        amm_target_orders: None,
        pool_coin_token_account: key(13),
        pool_pc_token_account: key(14),
        serum_program: key(15),
        serum_market: key(16),
        serum_bids: key(17),
        serum_asks: key(18),
        serum_event_queue: key(19),
        serum_coin_vault_account: key(20),
        serum_pc_vault_account: key(21),
        serum_vault_signer: key(22),
        user_source_token_account: key(23),
        user_destination_token_account: key(24),
        user_source_owner: key(25),
    }
}

fn balance(index: u8, mint: &Pubkey, owner: &Pubkey, amount: &str) -> TokenBalance {
    TokenBalance {
        account_index: index,
        mint: text(mint),
        owner: text(owner),
        amount: amount.to_string(),
        decimals: if *mint == wsol_mint() { 9 } else { 6 },
    }
}

/// An event of the constant-product pool that leaves `native` atomic native
/// units and `tokens` atomic tokens in the pool. The user's wrapped native
/// account stands at place 3 and goes from `pre` to `post`.
fn raydium_event(signature: &str, native: &str, tokens: &str, pre: u64, post: u64) -> PoolEvent {
    let a = raydium_accounts();
    let wrapped = get_associated_token_address(&user_key(), &wsol_mint()).unwrap();
    PoolEvent {
        signature: signature.to_string(),
        fee: 5_000,
        account_keys: vec![
            pool(),
            a.pool_coin_token_account,
            a.pool_pc_token_account,
            wrapped,
            raydium_v4_program_id(),
        ],
        pre_balances: vec![1, 2, 3, pre, 5],
        post_balances: vec![1, 2, 3, post, 5],
        pre_token_balances: vec![],
        post_token_balances: vec![
            balance(1, &token_mint(), &a.amm_authority, tokens),
            balance(2, &wsol_mint(), &a.amm_authority, native),
        ],
        instruction: SwapInstruction::RaydiumV4SwapBaseIn(a),
    }
}

const TOKENS: &str = "1000000000";
const AT_100: &str = "100000000000000";
const AT_98_5: &str = "98500000000000";
const AT_108_5: &str = "108500000000000";
const AT_93: &str = "93000000000000";

fn slot_of<'a>(state: &'a TradingState, user_id: &str) -> &'a RealPoolInfo {
    state
        .real_pool_info
        .get(&text(&pool()), &user_id.to_string())
        .unwrap()
}

fn started() -> TradingState {
    let mut state = TradingState::new();
    let keys = UserKeys { private_key: String::new(), public_key: text(&user_key()) };
    let out = BotService::start_bot(
        &mut state,
        &"u1".to_string(),
        Some(keys),
        &vec![strategy("u1")],
        T0,
    );
    assert_eq!(out.unwrap(), "Started bot");
    state
}

fn bought() -> TradingState {
    let mut state = started();
    let u = user("u1");
    let e = raydium_event("s0", AT_100, TOKENS, 0, 0);
    let out = RaydiumV4Process::process_user_data(&mut state.real_pool_info, &e, &u, None, T0 + 1);
    assert_eq!(out.decision, Decision::Hold);
    assert_eq!(out.price, Some(100 * PRICE_UNIT));
    let e = raydium_event("s1", AT_98_5, TOKENS, 0, 0);
    let out = RaydiumV4Process::process_user_data(&mut state.real_pool_info, &e, &u, None, T0 + 2);
    assert_eq!(out.decision, Decision::Buy);
    assert!(out.rebuilt && !out.confirmed);
    state
}

fn long() -> TradingState {
    let mut state = bought();
    let u = user("u1");
    let answer = record_relay_answer(
        &mut state.real_pool_info,
        &u.pool_id,
        &u.user_id,
        Ok("BUYSIG".to_string()),
    );
    assert_eq!(answer.unwrap(), "BUYSIG");
    assert_eq!(slot_of(&state, "u1").state(), SlotState::PendingBuy);
    let e = raydium_event("BUYSIG", AT_98_5, TOKENS, 20_000_000, 10_000_000);
    let out = RaydiumV4Process::process_user_data(&mut state.real_pool_info, &e, &u, None, T0 + 3);
    assert!(out.confirmed);
    assert_eq!(out.decision, Decision::Hold);
    state
}

#[test]
fn scenario_arm_and_buy() {
    let state = bought();
    let slot = slot_of(&state, "u1");
    assert_eq!(slot.bought_price, Some(98_500_000_000_000_000_000));
    assert_eq!(slot.bought_at, Some(T0 + 2));
    assert!(!slot.is_bought);
    assert_eq!(slot.state(), SlotState::Armed);
    let ixs = &slot.swap_buy_ixs;
    assert_eq!(ixs.len(), 6);
    assert_eq!(ixs[0].program_id, associated_token_program_id());
    assert_eq!(ixs[0].data, vec![1u8]);
    assert_eq!(ixs[1].program_id, associated_token_program_id());
    assert_eq!(ixs[1].data, vec![1u8]);
    let wrapped = get_associated_token_address(&user_key(), &wsol_mint()).unwrap();
    assert_eq!(ixs[2], system_transfer(&user_key(), &wrapped, 11_000_000));
    assert_eq!(ixs[2].program_id, system_program_id());
    assert_eq!(ixs[3], sync_native(&wrapped));
    assert_eq!(ixs[4].program_id, raydium_v4_program_id());
    assert_eq!(ixs[5], close_account(&wrapped, &user_key(), &user_key()));

    let state = long();
    let slot = slot_of(&state, "u1");
    assert!(slot.is_bought);
    assert_eq!(slot.state(), SlotState::Long);
    assert_eq!(slot.signature, None);
    assert_eq!(slot.last_input_lamports_delta, Some(10_000_000));
    assert_eq!(slot.fee, 5_000);
}

#[test]
fn buy_leg_quotes_the_pool() {
    let state = bought();
    let swap = &slot_of(&state, "u1").swap_buy_ixs[4];
    let token_account = get_associated_token_address(&user_key(), &token_mint()).unwrap();
    let wrapped = get_associated_token_address(&user_key(), &wsol_mint()).unwrap();
    assert_eq!(swap.accounts.len(), 17);
    assert_eq!(swap.accounts[14].pubkey, wrapped);
    assert_eq!(swap.accounts[15].pubkey, token_account);
    assert_eq!(swap.accounts[16].pubkey, user_key());
    assert!(swap.accounts[16].is_signer);
    // 10_000_000 in against 98_500e9 native and 1_000e6 tokens: 101 tokens out,
    // of which 0.997 * 0.95 is the least accepted.
    let raw: u128 = 10_000_000u128 * 1_000_000_000 / (98_500_000_000_000 + 10_000_000);
    assert_eq!(raw, 101);
    let minimum = (raw * 997 * 950_000 / 1_000_000_000) as u64;
    assert_eq!(minimum, 95);
    let mut data = vec![9u8];
    data.extend_from_slice(&10_000_000u64.to_le_bytes());
    data.extend_from_slice(&minimum.to_le_bytes());
    assert_eq!(swap.data, data);
}

#[test]
fn scenario_take_profit() {
    let mut state = long();
    let u = user("u1");
    let e = raydium_event("s2", AT_108_5, TOKENS, 0, 0);
    let out = RaydiumV4Process::process_user_data(
        &mut state.real_pool_info,
        &e,
        &u,
        Some(101),
        T0 + 10_000,
    );
    assert_eq!(out.decision, Decision::SellTakeProfit);
    assert!(out.rebuilt);
    let slot = slot_of(&state, "u1");
    assert_eq!(slot.swap_buy_ixs.len(), 4);
    assert_eq!(slot.swap_buy_ixs[2].program_id, raydium_v4_program_id());
    let wrapped = get_associated_token_address(&user_key(), &wsol_mint()).unwrap();
    assert_eq!(slot.swap_buy_ixs[3], close_account(&wrapped, &user_key(), &user_key()));
    assert_eq!(slot.bought_price, Some(98_500_000_000_000_000_000));

    record_relay_answer(
        &mut state.real_pool_info,
        &u.pool_id,
        &u.user_id,
        Ok("SELLSIG".to_string()),
    )
    .unwrap();
    assert_eq!(slot_of(&state, "u1").state(), SlotState::PendingSell);
    let e = raydium_event("SELLSIG", AT_108_5, TOKENS, 0, 1_015_000);
    let out = RaydiumV4Process::process_user_data(
        &mut state.real_pool_info,
        &e,
        &u,
        Some(101),
        T0 + 12_000,
    );
    assert!(out.confirmed);
    let slot = slot_of(&state, "u1");
    assert!(!slot.is_bought);
    assert_eq!(slot.state(), SlotState::Exited);
    assert_eq!(slot.last_output_lamports_delta, Some(1_015_000));
    assert_eq!(slot.last_profit_sol, Some(1_015_000));
    assert_eq!(slot.last_roi_pct, Some(101_500));
    assert_eq!(slot.last_duration, Some(12_000));
    assert_eq!(slot.fee, 10_000);

    let record = cleanup_bot_after_sell(
        &mut state,
        &u.pool_id,
        &u.user_id,
        "2023-11-14T22:13:32+00:00".to_string(),
    )
    .unwrap();
    assert_eq!(record.user_id, "u1");
    assert_eq!(record.roi_pct, 101_500);
    assert!(record.profit_sol > 0);
    assert_eq!(record.fees_lamports, 10_000);
    assert_eq!(record.program_runtime_ms, 12_000);
    assert_eq!(record.ts, "2023-11-14T22:13:32+00:00");
    assert_eq!(state.real_pool_info.slot_count(), 0);
    assert!(state.user_list.is_empty());
}

#[test]
fn scenario_stop_loss() {
    let mut state = long();
    let u = user("u1");
    let e = raydium_event("s2", AT_93, TOKENS, 0, 0);
    let out = RaydiumV4Process::process_user_data(
        &mut state.real_pool_info,
        &e,
        &u,
        Some(101),
        T0 + 10_000,
    );
    assert_eq!(out.decision, Decision::SellStopLoss);
    record_relay_answer(
        &mut state.real_pool_info,
        &u.pool_id,
        &u.user_id,
        Ok("SELLSIG".to_string()),
    )
    .unwrap();
    let e = raydium_event("SELLSIG", AT_93, TOKENS, 600_000, 42_000);
    let out = RaydiumV4Process::process_user_data(
        &mut state.real_pool_info,
        &e,
        &u,
        Some(101),
        T0 + 12_000,
    );
    assert!(out.confirmed);
    let record =
        cleanup_bot_after_sell(&mut state, &u.pool_id, &u.user_id, "now".to_string()).unwrap();
    assert_eq!(record.profit_sol, -558_000);
    assert!(record.profit_sol < 0);
    assert_eq!(record.roi_pct, -55_800);
}

fn long_slot(auto_exit: u64) -> RealPoolInfo {
    let mut u = user("u1");
    u.bot_setting.auto_exit = auto_exit;
    let mut slot = RealPoolInfo::new(u, T0);
    slot.is_bought = true;
    slot.bought_price = Some(98_500_000_000_000_000_000);
    slot.bought_at = Some(T0);
    slot
}

#[test]
fn scenario_auto_exit_timeout() {
    let slot = long_slot(60);
    let price = 99 * PRICE_UNIT;
    assert_eq!(decision_engine(price, price, &slot, T0 + 61_000), Decision::SellTimeout);
    assert_eq!(decision_engine(price, price, &slot, T0 + 60_001), Decision::SellTimeout);
    assert_eq!(decision_engine(price, price, &slot, T0 + 60_000), Decision::Hold);
    assert_eq!(decision_engine(price, price, &slot, T0 - 5), Decision::Hold);
}

#[test]
fn scenario_manual_stop_while_long() {
    let mut state = long();
    let u = user("u1");
    let out = BotService::stop_bot(&mut state, &vec![strategy("u1")], &u.user_id);
    assert_eq!(out.unwrap(), "Stopped bot");
    assert_eq!(state.real_pool_info.slot_count(), 1);
    assert_eq!(state.user_list.len(), 1);
    assert_eq!(slot_of(&state, "u1").user_bot_data.bot_setting.auto_exit, 0);

    let e = raydium_event("s2", AT_100, TOKENS, 0, 0);
    let out = RaydiumV4Process::process_user_data(
        &mut state.real_pool_info,
        &e,
        &u,
        Some(101),
        T0 + 10_000,
    );
    assert_eq!(out.decision, Decision::SellForced);
    record_relay_answer(
        &mut state.real_pool_info,
        &u.pool_id,
        &u.user_id,
        Ok("SELLSIG".to_string()),
    )
    .unwrap();
    let e = raydium_event("SELLSIG", AT_100, TOKENS, 0, 10_100_000);
    assert!(
        RaydiumV4Process::process_user_data(
            &mut state.real_pool_info,
            &e,
            &u,
            Some(101),
            T0 + 11_000
        )
        .confirmed
    );
    assert!(state.real_pool_info.contains_pool(&u.pool_id));
    cleanup_bot_after_sell(&mut state, &u.pool_id, &u.user_id, "now".to_string()).unwrap();
    assert!(!state.real_pool_info.contains_pool(&u.pool_id));
    assert!(state.real_pool_info.pools.is_empty());
    assert!(!state.is_active(&u.user_id));
}

#[test]
fn scenario_zero_reserve_event() {
    let mut state = started();
    let u = user("u1");
    let e = raydium_event("s0", AT_100, TOKENS, 0, 0);
    RaydiumV4Process::process_user_data(&mut state.real_pool_info, &e, &u, None, T0 + 1);
    let e = raydium_event("s1", AT_100, "0", 0, 0);
    let out = RaydiumV4Process::process_user_data(&mut state.real_pool_info, &e, &u, None, T0 + 2);
    assert_eq!(out.price, Some(0));
    assert_eq!(out.decision, Decision::Hold);
    assert_eq!(slot_of(&state, "u1").bought_price, None);
    let e = raydium_event("s2", "0", TOKENS, 0, 0);
    let out = RaydiumV4Process::process_user_data(&mut state.real_pool_info, &e, &u, None, T0 + 3);
    assert_eq!(out.price, Some(0));
    assert_eq!(out.decision, Decision::Hold);
}

#[test]
fn entry_threshold_is_inclusive() {
    let mut slot = RealPoolInfo::new(user("u1"), T0);
    assert_eq!(on_price_change(&mut slot, 100 * PRICE_UNIT, T0), Decision::Hold);
    assert_eq!(on_price_change(&mut slot, 99 * PRICE_UNIT + 1, T0), Decision::Hold);
    assert_eq!(slot.bought_price, None);
    let mut slot = RealPoolInfo::new(user("u1"), T0);
    on_price_change(&mut slot, 100 * PRICE_UNIT, T0);
    assert_eq!(on_price_change(&mut slot, 99 * PRICE_UNIT, T0 + 7), Decision::Buy);
    assert_eq!(slot.bought_price, Some(99 * PRICE_UNIT));
    assert_eq!(slot.bought_at, Some(T0 + 7));
    assert_eq!(slot.pool_price, 100 * PRICE_UNIT);
    assert_eq!(slot.latest_pool_price, 99 * PRICE_UNIT);
}

#[test]
fn decisions_at_the_ends_of_the_range() {
    let slot = RealPoolInfo::new(user("u1"), T0);
    assert_eq!(decision_engine(u128::MAX, u128::MAX, &slot, i64::MAX), Decision::Hold);
    assert_eq!(decision_engine(u128::MAX, 1, &slot, i64::MIN), Decision::Buy);
    assert_eq!(decision_engine(u128::MAX, 0, &slot, 0), Decision::Hold);
    assert_eq!(decision_engine(0, u128::MAX, &slot, 0), Decision::Hold);
    let mut held = long_slot(u64::MAX);
    held.bought_price = Some(u128::MAX);
    held.bought_at = Some(i64::MIN);
    assert_eq!(decision_engine(0, u128::MAX, &held, i64::MAX), Decision::Hold);
    assert_eq!(decision_engine(0, 0, &held, i64::MAX), Decision::SellStopLoss);
    held.bought_price = Some(1);
    assert_eq!(decision_engine(0, u128::MAX, &held, 0), Decision::SellTakeProfit);
}

#[test]
fn take_profit_wins_over_stop_loss_and_forced() {
    let mut slot = long_slot(0);
    slot.user_bot_data.bot_setting.take_profit = 0;
    slot.user_bot_data.bot_setting.stop_loss = 0;
    let bought = slot.bought_price.unwrap();
    assert_eq!(decision_engine(bought, bought, &slot, T0), Decision::SellTakeProfit);
    slot.user_bot_data.bot_setting.take_profit = 100_000;
    assert_eq!(decision_engine(bought, bought, &slot, T0), Decision::SellStopLoss);
    slot.user_bot_data.bot_setting.stop_loss = 50_000;
    assert_eq!(decision_engine(bought, bought, &slot, T0), Decision::SellForced);
    slot.bought_price = Some(0);
    slot.user_bot_data.bot_setting.take_profit = 0;
    assert_eq!(decision_engine(bought, bought, &slot, T0), Decision::SellForced);
}

#[test]
fn pending_signature_holds_every_decision() {
    let mut state = bought();
    let u = user("u1");
    record_relay_answer(&mut state.real_pool_info, &u.pool_id, &u.user_id, Ok("SIG".to_string()))
        .unwrap();
    let e = raydium_event("other", AT_93, TOKENS, 0, 0);
    let out = RaydiumV4Process::process_user_data(&mut state.real_pool_info, &e, &u, None, T0 + 5);
    assert_eq!(out.decision, Decision::Hold);
    assert!(!out.confirmed);
    assert!(!slot_of(&state, "u1").is_bought);
    let again =
        record_relay_answer(&mut state.real_pool_info, &u.pool_id, &u.user_id, Ok("X".to_string()));
    assert!(matches!(again, Err(SubmitError::NotAccepted)));
    assert_eq!(slot_of(&state, "u1").signature, Some("SIG".to_string()));
}

#[test]
fn relay_errors_leave_the_slot() {
    let mut state = bought();
    let u = user("u1");
    let out = record_relay_answer(
        &mut state.real_pool_info,
        &u.pool_id,
        &u.user_id,
        Err("relay down".to_string()),
    );
    match out {
        Err(e) => {
            assert_eq!(e.result(), "error");
            assert_eq!(e.message(), "relay down");
        }
        Ok(_) => panic!("a refused transaction was accepted"),
    }
    assert_eq!(slot_of(&state, "u1").signature, None);
    assert_eq!(slot_of(&state, "u1").state(), SlotState::Armed);
}

#[test]
fn submission_needs_preparation_and_a_known_relay() {
    let state = started();
    let out = prepare_submission(slot_of(&state, "u1"));
    assert!(matches!(out, Err(SubmitError::NoInstructions)));
    assert_eq!(out.unwrap_err().message(), "No swap instructions to submit");

    let mut state = bought();
    let tips = prepare_submission(slot_of(&state, "u1")).unwrap();
    assert_eq!(tips.payer, user_key());
    assert_eq!(tips.cu, Some(300_000));
    assert_eq!(tips.priority_fee_micro_lamport, Some(20_000));
    assert_eq!(tips.tip_addr_idx, 4);
    assert_eq!(tips.tip_sol_amount, 100_000);
    assert_eq!(tips.pure_ix, slot_of(&state, "u1").swap_buy_ixs);

    state.real_pool_info.pools[0].slots[0]
        .user_bot_data
        .bot_setting
        .confirm_service = "NOZOMI".to_string();
    let out = prepare_submission(slot_of(&state, "u1"));
    assert!(matches!(out, Err(SubmitError::UnknownService)));
    assert_eq!(out.unwrap_err().message(), "unknown confirmation service");
}

#[test]
fn events_of_other_pools_change_nothing() {
    let mut state = started();
    let u = user("u1");
    let mut e = raydium_event("s0", AT_100, TOKENS, 0, 0);
    e.account_keys[0] = key(77);
    let out = RaydiumV4Process::process_user_data(&mut state.real_pool_info, &e, &u, None, T0 + 1);
    assert!(!out.involved);
    assert_eq!(out.price, None);
    assert_eq!(slot_of(&state, "u1").latest_pool_price, 0);
    let mut stranger = user("u2");
    stranger.pool_id = "not an address".to_string();
    let e = raydium_event("s0", AT_100, TOKENS, 0, 0);
    let out =
        RaydiumV4Process::process_user_data(&mut state.real_pool_info, &e, &stranger, None, T0);
    assert!(!out.involved);
    assert_eq!(state.real_pool_info.slot_count(), 1);
}

#[test]
fn unreadable_reserves_end_the_event() {
    let mut state = bought();
    let u = user("u1");
    let before = slot_of(&state, "u1").swap_buy_ixs.clone();
    let e = raydium_event("s2", "12x", TOKENS, 0, 0);
    let out = RaydiumV4Process::process_user_data(&mut state.real_pool_info, &e, &u, None, T0 + 9);
    assert!(out.involved && !out.rebuilt);
    assert_eq!(out.price, None);
    assert_eq!(slot_of(&state, "u1").swap_buy_ixs, before);
    assert_eq!(slot_of(&state, "u1").latest_pool_price, 98_500_000_000_000_000_000);
}

#[test]
fn processors_select_the_users_of_the_pool() {
    let mut other = user("u2");
    other.pool_id = text(&key(90));
    let mut broken = user("u3");
    broken.pool_id = "?".to_string();
    let users = vec![other, user("u1"), broken, user("u4")];
    let e = raydium_event("s0", AT_100, TOKENS, 0, 0);
    assert_eq!(RaydiumV4Process::process(&users, &e), vec![1, 3]);
    assert_eq!(PumpSwapProcess::process(&users, &e), Vec::<usize>::new());
    let mut e = raydium_event("s0", AT_100, TOKENS, 0, 0);
    e.account_keys[4] = pumpswap_program_id();
    assert_eq!(RaydiumV4Process::process(&users, &e), Vec::<usize>::new());
    assert_eq!(PumpSwapProcess::process(&users, &e), vec![1, 3]);
}

fn pump_accounts() -> SellInstructionAccounts {
    SellInstructionAccounts {
        pool: pool(),
        user: key(51),
        global_config: key(52),
        base_mint: token_mint(),
        quote_mint: wsol_mint(),
        user_base_token_account: key(55),
        user_quote_token_account: key(56),
        pool_base_token_account: key(57),
        pool_quote_token_account: key(58),
        protocol_fee_recipient: key(59),
        protocol_fee_recipient_token_account: key(60),
        base_token_program: token_program_id(),
        quote_token_program: token_program_id(),
        system_program: system_program_id(),
        associated_token_program: associated_token_program_id(),
        event_authority: key(61),
        program: pumpswap_program_id(),
        coin_creator_vault_ata: key(62),
        coin_creator_vault_authority: key(63),
    }
}

fn pump_event(signature: &str, native: &str, tokens: &str) -> PoolEvent {
    let a = pump_accounts();
    let wrapped = get_associated_token_address(&user_key(), &wsol_mint()).unwrap();
    let vaults = |native: &str, tokens: &str| {
        vec![
            balance(1, &token_mint(), &a.pool, tokens),
            balance(2, &wsol_mint(), &a.pool, native),
        ]
    };
    PoolEvent {
        signature: signature.to_string(),
        fee: 5_000,
        account_keys: vec![
            pool(),
            a.pool_base_token_account,
            a.pool_quote_token_account,
            wrapped,
            pumpswap_program_id(),
        ],
        pre_balances: vec![0, 0, 0, 30_000_000, 0],
        post_balances: vec![0, 0, 0, 19_000_000, 0],
        pre_token_balances: vaults(native, tokens),
        post_token_balances: vaults(native, tokens),
        instruction: SwapInstruction::PumpSwapBuy(a),
    }
}

#[test]
fn pump_buy_and_sell_legs() {
    let mut state = started();
    let u = user("u1");
    let chain = ChainBalances {
        held_tokens: None,
        pool_quote_reserve: Some(98_500_000_000_000),
        pool_base_reserve: Some(1_000_000_000),
    };
    let e = pump_event("s0", AT_100, TOKENS);
    let out =
        PumpSwapProcess::process_user_data(&mut state.real_pool_info, &e, &u, &chain, T0 + 1);
    assert_eq!(out.decision, Decision::Hold);
    assert_eq!(out.price, Some(100 * PRICE_UNIT));
    let e = pump_event("s1", AT_98_5, TOKENS);
    let out =
        PumpSwapProcess::process_user_data(&mut state.real_pool_info, &e, &u, &chain, T0 + 2);
    assert_eq!(out.decision, Decision::Buy);
    let wrapped = get_associated_token_address(&user_key(), &wsol_mint()).unwrap();
    {
        let ixs = &slot_of(&state, "u1").swap_buy_ixs;
        assert_eq!(ixs.len(), 5);
        assert_eq!(ixs[2], system_transfer(&user_key(), &wrapped, 11_000_000));
        assert_eq!(ixs[3], sync_native(&wrapped));
        let buy = &ixs[4];
        assert_eq!(buy.program_id, pumpswap_program_id());
        assert_eq!(buy.accounts.len(), 23);
        assert_eq!(buy.accounts[1].pubkey, user_key());
        assert_eq!(
            buy.accounts[5].pubkey,
            get_associated_token_address(&user_key(), &token_mint()).unwrap()
        );
        assert_eq!(buy.accounts[6].pubkey, wrapped);
        // 1_000e6 * 10_000_000 / (10_000_000 + 98_500e9) = 101 tokens, and
        // 101 * 1.0025 * 1.05 = 106 at most on the quote side.
        let mut data = vec![102, 6, 61, 18, 1, 218, 235, 234];
        data.extend_from_slice(&101u64.to_le_bytes());
        data.extend_from_slice(&106u64.to_le_bytes());
        assert_eq!(buy.data, data);
    }

    record_relay_answer(&mut state.real_pool_info, &u.pool_id, &u.user_id, Ok("B".to_string()))
        .unwrap();
    let e = pump_event("B", AT_98_5, TOKENS);
    let out =
        PumpSwapProcess::process_user_data(&mut state.real_pool_info, &e, &u, &chain, T0 + 3);
    assert!(out.confirmed);
    assert!(slot_of(&state, "u1").is_bought);
    assert_eq!(slot_of(&state, "u1").last_input_lamports_delta, Some(11_000_000));

    // Long: without the tokens held the sell cannot be built, and nothing fires.
    let e = pump_event("s3", AT_108_5, TOKENS);
    let out =
        PumpSwapProcess::process_user_data(&mut state.real_pool_info, &e, &u, &chain, T0 + 4);
    assert_eq!(out.price, Some(108_500_000_000_000_000_000));
    assert!(!out.rebuilt);
    assert_eq!(out.decision, Decision::Hold);

    let chain = ChainBalances {
        held_tokens: Some(101_000),
        pool_quote_reserve: Some(108_500_000_000_000),
        pool_base_reserve: Some(1_000_000_000),
    };
    let e = pump_event("s4", AT_108_5, TOKENS);
    let out =
        PumpSwapProcess::process_user_data(&mut state.real_pool_info, &e, &u, &chain, T0 + 5);
    assert_eq!(out.decision, Decision::SellTakeProfit);
    let ixs = &slot_of(&state, "u1").swap_buy_ixs;
    assert_eq!(ixs.len(), 2);
    assert_eq!(ixs[0].accounts.len(), 21);
    // 108_500e9 * 101_000 / (101_000 + 1_000e6) = 10_957_393_303 native out,
    // of which 1.0025 * 0.95 is the least accepted.
    let quoted: u128 = 108_500_000_000_000u128 * 101_000 / (101_000 + 1_000_000_000);
    assert_eq!(quoted, 10_957_393_303);
    let floor = (quoted * 10_025 * 950_000 / 10_000_000_000) as u64;
    assert_eq!(floor, 10_435_547_446);
    let mut data = vec![51, 230, 133, 164, 1, 127, 131, 173];
    data.extend_from_slice(&101_000u64.to_le_bytes());
    data.extend_from_slice(&floor.to_le_bytes());
    assert_eq!(ixs[0].data, data);
    assert_eq!(ixs[1], close_account(&wrapped, &user_key(), &user_key()));
}

#[test]
fn rebuilding_from_the_same_reserves_gives_the_same_bytes() {
    let mut state = started();
    let u = user("u1");
    let e = raydium_event("s0", AT_98_5, TOKENS, 0, 0);
    RaydiumV4Process::process_user_data(&mut state.real_pool_info, &e, &u, None, T0 + 1);
    let first = slot_of(&state, "u1").swap_buy_ixs.clone();
    assert!(!first.is_empty());
    let e = raydium_event("s1", AT_98_5, TOKENS, 7, 9);
    RaydiumV4Process::process_user_data(&mut state.real_pool_info, &e, &u, Some(5), T0 + 99);
    assert_eq!(slot_of(&state, "u1").swap_buy_ixs, first);
    let e = raydium_event("s2", AT_100, TOKENS, 0, 0);
    RaydiumV4Process::process_user_data(&mut state.real_pool_info, &e, &u, None, T0 + 100);
    assert_ne!(slot_of(&state, "u1").swap_buy_ixs, first);
}

#[test]
fn other_instructions_can_still_confirm() {
    let mut state = bought();
    let u = user("u1");
    record_relay_answer(&mut state.real_pool_info, &u.pool_id, &u.user_id, Ok("B".to_string()))
        .unwrap();
    let mut e = raydium_event("B", AT_100, TOKENS, 12, 2);
    e.instruction = SwapInstruction::Other;
    let before = slot_of(&state, "u1").latest_pool_price;
    let out = PumpSwapProcess::process_user_data(
        &mut state.real_pool_info,
        &e,
        &u,
        &ChainBalances { held_tokens: None, pool_quote_reserve: None, pool_base_reserve: None },
        T0 + 5,
    );
    assert!(out.involved && !out.confirmed);
    assert!(!slot_of(&state, "u1").is_bought);
    let out = RaydiumV4Process::process_user_data(&mut state.real_pool_info, &e, &u, None, T0 + 5);
    assert!(out.confirmed);
    assert_eq!(out.price, None);
    assert!(slot_of(&state, "u1").is_bought);
    assert_eq!(slot_of(&state, "u1").latest_pool_price, before);
    assert_eq!(slot_of(&state, "u1").last_input_lamports_delta, Some(10));
}

#[test]
fn confirmation_needs_the_wrapped_account_among_the_keys() {
    let mut state = bought();
    let u = user("u1");
    record_relay_answer(&mut state.real_pool_info, &u.pool_id, &u.user_id, Ok("B".to_string()))
        .unwrap();
    let mut e = raydium_event("B", AT_100, TOKENS, 12, 2);
    e.account_keys[3] = key(99);
    let out = RaydiumV4Process::process_user_data(&mut state.real_pool_info, &e, &u, None, T0 + 5);
    assert!(!out.confirmed);
    assert_eq!(slot_of(&state, "u1").signature, Some("B".to_string()));
    assert_eq!(slot_of(&state, "u1").fee, 0);
}
