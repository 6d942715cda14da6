use raydium_amm_monitor::service::{cleanup_bot_after_sell, BotService, TradingState, UserKeys};
use raydium_amm_monitor::slot::{RealPoolInfo, SlotState, TradeData};
use raydium_amm_monitor::store::PositionStore;
use raydium_amm_monitor::strategy::{BotSettings, UserBotData};

fn user(user_id: &str, pool: &str) -> UserBotData {
    UserBotData {
        pool_id: pool.to_string(),
        user_id: user_id.to_string(),
        private_key: "priv".to_string(),
        public_key: "pub".to_string(),
        bot_setting: BotSettings::new(user_id.to_string(), "bot".to_string(), pool.to_string(), 0),
    }
}

fn keys() -> Option<UserKeys> {
    Some(UserKeys { private_key: "priv".to_string(), public_key: "pub".to_string() })
}

fn bots(user_id: &str, pool: &str) -> Vec<BotSettings> {
    vec![
        BotSettings::new(user_id.to_string(), "first".to_string(), pool.to_string(), 0),
        BotSettings::new(user_id.to_string(), "second".to_string(), "elsewhere".to_string(), 0),
    ]
}

fn slots_per_pair(store: &PositionStore, pool: &str, user_id: &str) -> usize {
    store
        .pools
        .iter()
        .filter(|b| b.pool_id == pool)
        .flat_map(|b| b.slots.iter())
        .filter(|s| s.user_bot_data.user_id == user_id)
        .count()
}

#[test]
fn activation_is_idempotent() {
    let mut store = PositionStore::new();
    store.activate(user("u1", "A"), 1);
    store.activate(user("u2", "A"), 2);
    store.activate(user("u1", "A"), 3);
    assert_eq!(store.slot_count(), 2);
    assert_eq!(slots_per_pair(&store, "A", "u1"), 1);
    assert_eq!(store.pools.len(), 1);
    // The fresh slot comes last and is armed anew.
    assert_eq!(store.pools[0].slots[0].user_bot_data.user_id, "u2");
    assert_eq!(store.pools[0].slots[1].start_time, Some(3));
    assert_eq!(store.get(&"A".to_string(), &"u1".to_string()).unwrap().state(), SlotState::Armed);
    // A user who changes pools leaves the old one.
    store.activate(user("u2", "B"), 4);
    assert_eq!(store.slot_count(), 2);
    assert_eq!(slots_per_pair(&store, "A", "u2"), 0);
    assert_eq!(slots_per_pair(&store, "B", "u2"), 1);
    store.activate(user("u1", "B"), 5);
    assert_eq!(store.pools.len(), 1);
    assert!(!store.contains_pool(&"A".to_string()));
    assert!(store.contains_pool(&"B".to_string()));
}

#[test]
fn insert_if_absent_keeps_the_slot_that_is_there() {
    let mut store = PositionStore::new();
    assert_eq!(store.insert_if_absent(RealPoolInfo::new(user("u1", "A"), 1)), (0, 0));
    store.pools[0].slots[0].latest_pool_price = 77;
    assert_eq!(store.insert_if_absent(RealPoolInfo::new(user("u1", "A"), 2)), (0, 0));
    assert_eq!(store.pools[0].slots[0].latest_pool_price, 77);
    assert_eq!(store.insert_if_absent(RealPoolInfo::new(user("u2", "A"), 3)), (0, 1));
    assert_eq!(store.insert_if_absent(RealPoolInfo::new(user("u1", "B"), 4)), (1, 0));
    assert_eq!(store.slot_count(), 3);
    assert_eq!(store.find_slot(&"A".to_string(), &"u2".to_string()), Some((0, 1)));
    assert_eq!(store.find_slot(&"B".to_string(), &"u2".to_string()), None);
    assert_eq!(store.find_pool(&"B".to_string()), Some(1));
    assert_eq!(store.find_pool(&"C".to_string()), None);
    assert!(store.get(&"C".to_string(), &"u1".to_string()).is_none());
    store.remove_user(&"u1".to_string());
    assert_eq!(store.slot_count(), 1);
    assert_eq!(store.pools.len(), 1);
    assert_eq!(store.pools[0].slots[0].user_bot_data.user_id, "u2");
    store.remove_user(&"nobody".to_string());
    assert_eq!(store.slot_count(), 1);
}

#[test]
fn activate_then_stop_restores_the_store() {
    let mut state = TradingState::new();
    BotService::start_bot(&mut state, &"u1".to_string(), keys(), &bots("u1", "A"), 1).unwrap();
    BotService::start_bot(&mut state, &"u2".to_string(), keys(), &bots("u2", "B"), 2).unwrap();
    let before = state.real_pool_info.slot_count();
    let pools_before: Vec<String> =
        state.real_pool_info.pools.iter().map(|b| b.pool_id.clone()).collect();

    BotService::start_bot(&mut state, &"u3".to_string(), keys(), &bots("u3", "A"), 3).unwrap();
    assert_eq!(state.real_pool_info.slot_count(), before + 1);
    assert!(state.is_active(&"u3".to_string()));
    BotService::stop_bot(&mut state, &bots("u3", "A"), &"u3".to_string()).unwrap();
    assert_eq!(state.real_pool_info.slot_count(), before);
    assert!(!state.is_active(&"u3".to_string()));

    BotService::start_bot(&mut state, &"u4".to_string(), keys(), &bots("u4", "C"), 4).unwrap();
    assert_eq!(state.real_pool_info.pools.len(), 3);
    BotService::stop_bot(&mut state, &bots("u4", "C"), &"u4".to_string()).unwrap();
    let pools_after: Vec<String> =
        state.real_pool_info.pools.iter().map(|b| b.pool_id.clone()).collect();
    assert_eq!(pools_after, pools_before);
    assert_eq!(state.user_list.len(), 2);
}

#[test]
fn starting_twice_leaves_one_slot() {
    let mut state = TradingState::new();
    BotService::start_bot(&mut state, &"u1".to_string(), keys(), &bots("u1", "A"), 1).unwrap();
    BotService::start_bot(&mut state, &"u1".to_string(), keys(), &bots("u1", "A"), 2).unwrap();
    assert_eq!(state.real_pool_info.slot_count(), 1);
    assert_eq!(state.user_list.len(), 1);
    let slot = state.real_pool_info.get(&"A".to_string(), &"u1".to_string()).unwrap();
    assert_eq!(slot.start_time, Some(2));
    assert_eq!(slot.user_bot_data.pool_id, "A");
    assert_eq!(slot.user_bot_data.private_key, "priv");
    assert_eq!(slot.user_bot_data.bot_setting.name, "first");
    assert_eq!(slot.fee, 0);
    assert!(slot.swap_buy_ixs.is_empty());
}

#[test]
fn start_needs_a_user_and_a_bot() {
    let mut state = TradingState::new();
    BotService::start_bot(&mut state, &"u1".to_string(), keys(), &bots("u1", "A"), 1).unwrap();
    let out = BotService::start_bot(&mut state, &"u1".to_string(), None, &bots("u1", "A"), 2);
    let error = out.unwrap_err();
    assert_eq!(error.status_code(), 404);
    assert_eq!(error.message(), "User not found");
    // What the user had is gone all the same.
    assert_eq!(state.real_pool_info.slot_count(), 0);
    assert!(state.user_list.is_empty());
    let out = BotService::start_bot(&mut state, &"u1".to_string(), keys(), &vec![], 3);
    assert_eq!(out.unwrap_err().message(), "Bot not found");
    let out = BotService::stop_bot(&mut state, &vec![], &"u1".to_string());
    assert_eq!(out.unwrap_err().message(), "Bot not found");
}

#[test]
fn stop_keeps_a_long_position_until_it_is_sold() {
    let mut state = TradingState::new();
    BotService::start_bot(&mut state, &"u1".to_string(), keys(), &bots("u1", "A"), 1).unwrap();
    BotService::start_bot(&mut state, &"u2".to_string(), keys(), &bots("u2", "A"), 1).unwrap();
    {
        let slot = &mut state.real_pool_info.pools[0].slots[0];
        slot.is_bought = true;
        slot.bought_price = Some(5);
        slot.bought_at = Some(1);
    }
    assert_eq!(
        BotService::stop_bot(&mut state, &bots("u1", "A"), &"u1".to_string()).unwrap(),
        "Stopped bot"
    );
    assert_eq!(state.real_pool_info.slot_count(), 2);
    assert!(state.is_active(&"u1".to_string()));
    assert_eq!(state.real_pool_info.pools[0].slots[0].user_bot_data.bot_setting.auto_exit, 0);
    assert_eq!(state.real_pool_info.pools[0].slots[1].user_bot_data.bot_setting.auto_exit, 3600);
    BotService::stop_bot(&mut state, &bots("u2", "A"), &"u2".to_string()).unwrap();
    assert_eq!(state.real_pool_info.slot_count(), 1);
    assert!(!state.is_active(&"u2".to_string()));
}

#[test]
fn cleanup_hands_out_the_record() {
    let mut state = TradingState::new();
    BotService::start_bot(&mut state, &"u1".to_string(), keys(), &bots("u1", "A"), 1).unwrap();
    {
        let slot = &mut state.real_pool_info.pools[0].slots[0];
        slot.last_profit_sol = Some(-12);
        slot.last_roi_pct = Some(-3);
        slot.last_duration = Some(900);
        slot.fee = 10_000;
    }
    let none = cleanup_bot_after_sell(
        &mut state,
        &"B".to_string(),
        &"nobody".to_string(),
        "t".to_string(),
    );
    assert!(none.is_none());
    assert_eq!(state.real_pool_info.slot_count(), 1);
    let record: TradeData =
        cleanup_bot_after_sell(&mut state, &"A".to_string(), &"u1".to_string(), "t".to_string())
            .unwrap();
    assert_eq!(record.user_id, "u1");
    assert_eq!(record.ts, "t");
    assert_eq!(record.profit_sol, -12);
    assert_eq!(record.roi_pct, -3);
    assert_eq!(record.program_runtime_ms, 900);
    assert_eq!(record.fees_lamports, 10_000);
    assert_eq!(state.real_pool_info.slot_count(), 0);
    assert!(state.real_pool_info.pools.is_empty());
    // A slot that measured nothing leaves a record of zeros.
    let fresh = RealPoolInfo::new(user("u9", "A"), 0);
    let record = TradeData::new(&fresh, "t".to_string());
    assert_eq!(
        (record.profit_sol, record.roi_pct, record.program_runtime_ms, record.fees_lamports),
        (0, 0, 0, 0)
    );
}

#[test]
fn confirmation_accounts_for_the_trade() {
    let mut slot = RealPoolInfo::new(user("u1", "A"), 1_000);
    assert!(!slot.record_submission("early".to_string()));
    assert_eq!(slot.signature, None);
    slot.bought_price = Some(10);
    slot.bought_at = Some(1_500);
    assert!(slot.record_submission("buy".to_string()));
    assert!(!slot.record_submission("again".to_string()));
    assert_eq!(slot.state(), SlotState::PendingBuy);
    assert!(!slot.confirm(&"other".to_string(), 5, 0, 0, 2_000));
    assert!(!slot.is_bought);
    assert_eq!(slot.fee, 0);
    assert!(slot.confirm(&"buy".to_string(), u64::MAX - 3, 0, 0, 2_000));
    assert!(slot.is_bought);
    assert_eq!(slot.signature, None);
    assert_eq!(slot.last_input_lamports_delta, Some(0));
    assert_eq!(slot.fee, u64::MAX - 3);
    assert!(slot.record_submission("sell".to_string()));
    assert_eq!(slot.state(), SlotState::PendingSell);
    assert!(slot.confirm(&"sell".to_string(), 10, u64::MAX, 0, i64::MAX));
    assert_eq!(slot.state(), SlotState::Exited);
    // Fees stop at the largest amount, and nothing put in means no return.
    assert_eq!(slot.fee, u64::MAX);
    assert_eq!(slot.last_output_lamports_delta, Some(-(u64::MAX as i128)));
    assert_eq!(slot.last_profit_sol, Some(-(u64::MAX as i128)));
    assert_eq!(slot.last_roi_pct, Some(0));
    assert_eq!(slot.last_duration, Some(i64::MAX - 1_000));
    assert!(!slot.record_submission("late".to_string()));
    assert!(!slot.confirm(&"sell".to_string(), 10, 0, 0, 0));
}

#[test]
fn profit_is_measured_against_the_previous_exit() {
    let mut slot = RealPoolInfo::new(user("u1", "A"), i64::MIN);
    slot.is_bought = true;
    slot.bought_price = Some(10);
    slot.bought_at = Some(0);
    slot.last_input_lamports_delta = Some(3);
    slot.last_output_lamports_delta = Some(100);
    slot.signature = Some("s".to_string());
    assert!(slot.confirm(&"s".to_string(), 0, 50, 40, i64::MAX));
    assert_eq!(slot.last_output_lamports_delta, Some(-10));
    assert_eq!(slot.last_profit_sol, Some(-110));
    // -110 / 3 = -36.666..., towards zero.
    assert_eq!(slot.last_roi_pct, Some(-36_666_666));
    assert_eq!(slot.last_duration, Some(i64::MAX));
}

#[test]
fn well_formedness_can_be_tested() {
    let mut state = TradingState::new();
    assert!(state.is_well_formed());
    BotService::start_bot(&mut state, &"u1".to_string(), keys(), &bots("u1", "A"), 1).unwrap();
    BotService::start_bot(&mut state, &"u2".to_string(), keys(), &bots("u2", "A"), 1).unwrap();
    BotService::start_bot(&mut state, &"u3".to_string(), keys(), &bots("u3", "B"), 1).unwrap();
    assert!(state.is_well_formed());
    assert!(state.real_pool_info.is_well_formed());

    let mut twice = state.real_pool_info.pools[0].slots[0].clone();
    twice.start_time = Some(9);
    state.real_pool_info.pools[0].slots.push(twice);
    assert!(!state.real_pool_info.is_well_formed());
    assert!(!state.is_well_formed());
    state.real_pool_info.pools[0].slots.pop();
    assert!(state.is_well_formed());

    state.real_pool_info.pools[1].pool_id = "A".to_string();
    assert!(!state.real_pool_info.is_well_formed());
    state.real_pool_info.pools[1].pool_id = "B".to_string();
    state.real_pool_info.pools[1].slots.clear();
    assert!(!state.real_pool_info.is_well_formed());
    state.real_pool_info.pools.pop();
    assert!(state.real_pool_info.is_well_formed());

    state.user_list.push(user("u1", "A"));
    assert!(!state.is_well_formed());
    state.user_list.pop();

    let slot = &mut state.real_pool_info.pools[0].slots[0];
    assert!(slot.is_well_formed());
    slot.is_bought = true;
    assert!(!slot.is_well_formed());
    slot.bought_price = Some(1);
    assert!(!slot.is_well_formed());
    slot.bought_at = Some(1);
    assert!(slot.is_well_formed());
    slot.exited = true;
    assert!(!slot.is_well_formed());
    slot.exited = false;
    slot.last_input_lamports_delta = Some(u64::MAX as i128 + 1);
    assert!(!slot.is_well_formed());
    slot.last_input_lamports_delta = Some(-(u64::MAX as i128));
    assert!(slot.is_well_formed());
    assert!(state.is_well_formed());
}
