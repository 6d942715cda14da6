use raydium_amm_monitor::auth::{
    bearer_token, has_length_within, CreateBotRequest, SigninRequest, SignupRequest,
};
use raydium_amm_monitor::error::AppError;
use raydium_amm_monitor::strategy::{
    BotSettings, UpdateMevConfigRequest, UpdateTradingParamsRequest,
};
use raydium_amm_monitor::user::{
    check_signin, check_signup, update_mev_config, update_trading_params, User,
};

fn pool() -> String {
    "675kPX9MHTjS2zt1qfr1NYHuzeLXfQM9H24wFSUt1Mp8".to_string()
}

fn settings() -> BotSettings {
    BotSettings::new("u".to_string(), "bot".to_string(), pool(), 1)
}

#[test]
fn default_settings_are_valid() {
    assert!(settings().validate());
}

#[test]
fn settings_outside_their_ranges_are_refused() {
    let broken: Vec<fn(&mut BotSettings)> = vec![
        |s| s.name = String::new(),
        |s| s.name = "x".repeat(101),
        |s| s.pool_address = "short".to_string(),
        |s| s.pool_address = "x".repeat(45),
        |s| s.buy_sol_amount = 99_999,
        |s| s.buy_sol_amount = 1_000_000_000_001,
        |s| s.entry_percent = 0,
        |s| s.entry_percent = 1_000_001,
        |s| s.entry_slippage = 999,
        |s| s.entry_slippage = 5_000_001,
        |s| s.exit_slippage = 999,
        |s| s.exit_slippage = 10_000_001,
        |s| s.stop_loss = 0,
        |s| s.stop_loss = 1_000_001,
        |s| s.take_profit = 0,
        |s| s.take_profit = 10_000_001,
        |s| s.auto_exit = 86_401,
        |s| s.confirm_service = String::new(),
        |s| s.confirm_service = "x".repeat(21),
        |s| s.cu = 0,
        |s| s.cu = 1_000_001,
        |s| s.priority_fee_micro_lamport = 1_000_001,
        |s| s.third_party_fee = 100_000_000_001,
    ];
    for (i, change) in broken.iter().enumerate() {
        let mut s = settings();
        change(&mut s);
        assert!(!s.validate(), "change {i}");
    }
    let edges: Vec<fn(&mut BotSettings)> = vec![
        |s| s.name = "é".repeat(100),
        |s| s.pool_address = "x".repeat(32),
        |s| s.buy_sol_amount = 100_000,
        |s| s.buy_sol_amount = 1_000_000_000_000,
        |s| s.entry_percent = 1_000_000,
        |s| s.entry_slippage = 5_000_000,
        |s| s.exit_slippage = 10_000_000,
        |s| s.take_profit = 10_000_000,
        |s| s.auto_exit = 0,
        |s| s.auto_exit = 86_400,
        |s| s.cu = 1,
        |s| s.priority_fee_micro_lamport = 0,
        |s| s.third_party_fee = 100_000_000_000,
    ];
    for (i, change) in edges.iter().enumerate() {
        let mut s = settings();
        change(&mut s);
        assert!(s.validate(), "edge {i}");
    }
}

#[test]
fn update_requests() {
    let nothing = UpdateTradingParamsRequest {
        pool_address: None,
        buy_sol_amount: None,
        entry_percent: None,
        entry_slippage: None,
        exit_slippage: None,
        stop_loss: None,
        take_profit: None,
        auto_exit: None,
    };
    assert!(nothing.validate());
    let tight = UpdateTradingParamsRequest {
        entry_slippage: Some(500_000),
        exit_slippage: Some(1_000_000),
        auto_exit: Some(0),
        ..nothing
    };
    assert!(tight.validate());
    let loose = UpdateTradingParamsRequest {
        pool_address: None,
        buy_sol_amount: None,
        entry_percent: None,
        entry_slippage: Some(500_001),
        exit_slippage: None,
        stop_loss: None,
        take_profit: None,
        auto_exit: None,
    };
    assert!(!loose.validate());
    let short = UpdateTradingParamsRequest {
        pool_address: Some("p".to_string()),
        buy_sol_amount: None,
        entry_percent: None,
        entry_slippage: None,
        exit_slippage: None,
        stop_loss: None,
        take_profit: Some(150_000),
        auto_exit: None,
    };
    assert!(!short.validate());

    let bots = vec![settings()];
    let updated = update_trading_params(&bots, tight, 9).unwrap();
    assert_eq!(updated.entry_slippage, 500_000);
    assert_eq!(updated.exit_slippage, 1_000_000);
    assert_eq!(updated.auto_exit, 0);
    assert_eq!(updated.take_profit, 100);
    assert_eq!(updated.updated_at, 9);
    assert_eq!(bots[0].auto_exit, 3600);
    let refused = update_trading_params(&vec![], loose, 9).unwrap_err();
    assert_eq!(refused.status_code(), 404);
    assert_eq!(refused.message(), "Bot not found");

    let mev = UpdateMevConfigRequest {
        confirm_service: Some("JITO".to_string()),
        cu: Some(1),
        priority_fee: Some(1_000_000),
        third_party_fee: None,
    };
    assert!(mev.validate());
    let updated = update_mev_config(&bots, mev, 10).unwrap();
    assert_eq!((updated.cu, updated.priority_fee_micro_lamport), (1, 1_000_000));
    assert_eq!(updated.third_party_fee, 100_000);
    let bad = UpdateMevConfigRequest {
        confirm_service: Some(String::new()),
        cu: None,
        priority_fee: None,
        third_party_fee: None,
    };
    assert!(!bad.validate());
    let bad = UpdateMevConfigRequest {
        confirm_service: None,
        cu: Some(0),
        priority_fee: None,
        third_party_fee: None,
    };
    assert!(!bad.validate());
    let refused = update_mev_config(&vec![], bad, 9).unwrap_err();
    assert_eq!(refused.message(), "Bot not found");
}

#[test]
fn request_bodies() {
    let signup = |email: &str, username: &str, password: &str| SignupRequest {
        email: email.to_string(),
        username: username.to_string(),
        password: password.to_string(),
    };
    assert!(signup("a@b.co", "abc", "12345678").validate());
    assert!(signup("a@b.co", &"x".repeat(30), "pässwörd").validate());
    assert!(!signup("a.b.co", "abc", "12345678").validate());
    assert!(!signup("a@b.co", "ab", "12345678").validate());
    assert!(!signup("a@b.co", &"x".repeat(31), "12345678").validate());
    assert!(!signup("a@b.co", "abc", "1234567").validate());
    assert!(SigninRequest { email: "a@b.co".to_string(), password: String::new() }.validate());
    assert!(!SigninRequest { email: "nobody".to_string(), password: "x".to_string() }.validate());
    assert!(CreateBotRequest { name: "n".to_string(), pool_address: pool() }.validate());
    assert!(!CreateBotRequest { name: String::new(), pool_address: pool() }.validate());
    assert!(!CreateBotRequest { name: "n".to_string(), pool_address: "p".to_string() }.validate());
    assert!(has_length_within("ééé", 3, 3));
    assert!(!has_length_within("ééé", 4, 6));
}

#[test]
fn bearer_token_of_a_request() {
    assert_eq!(bearer_token(Some("Bearer t")).unwrap(), "t");
    match bearer_token(None) {
        Err(AppError::Auth(m)) => assert_eq!(m, "Authorization header is required"),
        _ => panic!("a request without a header was let in"),
    }
    match bearer_token(Some("Token t")) {
        Err(AppError::Auth(m)) => assert_eq!(m, "Token must be in format: Bearer <token>"),
        _ => panic!("a header without the scheme was let in"),
    }
}

#[test]
fn sign_up_and_sign_in_decisions() {
    assert!(check_signup(false, false).is_ok());
    assert_eq!(check_signup(true, true).unwrap_err().message(), "Email already in use");
    assert_eq!(check_signup(false, true).unwrap_err().message(), "Username already taken");
    assert_eq!(check_signup(true, false).unwrap_err().status_code(), 409);

    let mut user = User::new(
        "a@b.co".to_string(),
        "alice".to_string(),
        "hash".to_string(),
        "priv".to_string(),
        "pub".to_string(),
        1,
    );
    let refused = check_signin(None, true).unwrap_err();
    assert_eq!((refused.status_code(), refused.message()), (401, "Invalid email or password".to_string()));
    let refused = check_signin(Some(&user), false).unwrap_err();
    assert_eq!(refused.message(), "Invalid email or password");
    let fault = check_signin(Some(&user), true).unwrap_err();
    assert_eq!((fault.status_code(), fault.message()), (500, "User ID missing in DB".to_string()));
    user.id = Some("65a1".to_string());
    assert_eq!(check_signin(Some(&user), true).unwrap(), "65a1");
}
