use raydium_amm_monitor::auth::{
    extract_token_from_header, JwtService, TokenResponse, TOKEN_LIFETIME_SECS,
};
use raydium_amm_monitor::config::Config;
use raydium_amm_monitor::error::AppError;
use raydium_amm_monitor::text::{
    generate_random_string, is_alphanumeric, is_valid_email, parse_u64, sanitize_input,
    starts_with,
};
use raydium_amm_monitor::user::{create_bot, BotSettingsResponse, User, UserResponse};
use raydium_amm_monitor::strategy::BotSettings;

#[test]
fn parse_u64_reads_what_the_standard_parser_reads() {
    let cases = [
        "0",
        "7",
        "+7",
        "007",
        "18446744073709551615",
        "18446744073709551616",
        "99999999999999999999999",
        "",
        "+",
        "-1",
        " 1",
        "1 ",
        "1_000",
        "12x",
        "1.5",
        "1e5",
        "٣",
        "++1",
    ];
    for case in cases {
        assert_eq!(parse_u64(case), case.parse::<u64>().ok(), "{case:?}");
    }
    assert_eq!(parse_u64("1073025605596382"), Some(1_073_025_605_596_382));
    assert_eq!(parse_u64("18446744073709551615"), Some(u64::MAX));
    assert_eq!(parse_u64("18446744073709551616"), None);
}

#[test]
fn sanitize_input_trims_like_the_standard_library() {
    let cases = [
        "",
        " ",
        "a",
        "  a b  ",
        "\t\n x \r\n",
        "\u{00A0}x\u{3000}",
        "\u{2003}\u{205F}mid dle\u{0085}",
        "\u{200B}zero width stays\u{200B}",
        "no-trim",
        "  é ",
    ];
    for case in cases {
        assert_eq!(sanitize_input(case), case.trim().to_string(), "{case:?}");
    }
    assert_eq!(sanitize_input("  alice  "), "alice");
}

#[test]
fn white_space_is_what_the_standard_library_trims() {
    for code in 0u32..=0x10FFFF {
        if let Some(c) = char::from_u32(code) {
            let text = c.to_string();
            assert_eq!(sanitize_input(&text).is_empty(), c.is_whitespace(), "U+{code:04X}");
        }
    }
}

#[test]
fn alphanumeric_means_letters_and_numbers() {
    assert!(is_alphanumeric("abc123"));
    assert!(is_alphanumeric(""));
    assert!(is_alphanumeric("Ünïcödé٣"));
    assert!(!is_alphanumeric("abc 123"));
    assert!(!is_alphanumeric("abc_123"));
    assert!(!is_alphanumeric("abc-"));
}

#[test]
fn email_addresses() {
    assert!(is_valid_email("a@b.co"));
    assert!(is_valid_email("first.last+tag@sub.example.org"));
    assert!(is_valid_email("x@localhost"));
    assert!(!is_valid_email(""));
    assert!(!is_valid_email("no-at.example.org"));
    assert!(!is_valid_email("a@-b.co"));
    assert!(!is_valid_email("a@b..co"));
    assert!(!is_valid_email("a b@c.de"));
    assert!(!is_valid_email("a@b.co "));
}

#[test]
fn random_strings_have_the_length_and_the_characters() {
    let charset = "ABCDEFGHIJKLMNOPQRSTUVWXYZabcdefghijklmnopqrstuvwxyz0123456789)(*&^%$#@!~";
    for length in [0usize, 1, 16, 257] {
        let s = generate_random_string(length);
        assert_eq!(s.chars().count(), length);
        assert!(s.chars().all(|c| charset.contains(c)));
    }
    assert_ne!(generate_random_string(64), generate_random_string(64));
}

#[test]
fn prefix_test() {
    assert!(starts_with("Bearer x", "Bearer "));
    assert!(starts_with("abc", ""));
    assert!(!starts_with("Bear", "Bearer "));
    assert!(!starts_with("bearer x", "Bearer "));
}

#[test]
fn bearer_token_of_a_header() {
    assert_eq!(extract_token_from_header("Bearer abc.def"), Some("abc.def"));
    assert_eq!(extract_token_from_header("Bearer "), Some(""));
    assert_eq!(extract_token_from_header("Bearer  two"), Some(" two"));
    assert_eq!(extract_token_from_header("Bearer é✓"), Some("é✓"));
    assert_eq!(extract_token_from_header("bearer abc"), None);
    assert_eq!(extract_token_from_header("Bearer"), None);
    assert_eq!(extract_token_from_header("Basic abc"), None);
    assert_eq!(extract_token_from_header(""), None);
}

#[test]
fn claims_last_a_day() {
    let claims = JwtService::claims_for("user-1", 1_700_000_000).unwrap();
    assert_eq!(claims.sub, "user-1");
    assert_eq!(claims.iat, 1_700_000_000);
    assert_eq!(claims.exp, 1_700_086_400);
    assert!(JwtService::claims_for("user-1", usize::MAX - 86_399).is_none());
    assert!(JwtService::claims_for("user-1", usize::MAX - 86_400).is_some());
    assert_eq!(TOKEN_LIFETIME_SECS, 86_400);
}

#[test]
fn jwt_secret_falls_back_to_the_development_secret() {
    assert_eq!(
        JwtService::new(None).secret(),
        &b"your-secret-key-change-in-production".to_vec()
    );
    assert_eq!(JwtService::new(Some("s3cr3t".to_string())).secret(), &b"s3cr3t".to_vec());
}

#[test]
fn token_response_default() {
    let response = TokenResponse::default();
    assert_eq!(response.token, "");
    assert_eq!(response.token_type, "Bearer");
    assert_eq!(response.expires_in, 86_400);
}

#[test]
fn config_defaults_and_port() {
    let config = Config::from_values(None, None, None, None);
    assert_eq!(config.mongodb_uri, "mongodb://localhost:27017");
    assert_eq!(config.jwt_secret, "your-secret-key-change-in-production");
    assert_eq!(config.rust_log, "info");
    assert_eq!(config.port, 3000);
    assert_eq!(config.mongodb_connection_string(), "mongodb://localhost:27017");
    assert_eq!(config.jwt_secret_bytes(), b"your-secret-key-change-in-production");

    let port = |text: &str| Config::from_values(None, None, None, Some(text.to_string())).port;
    assert_eq!(port("8080"), 8080);
    assert_eq!(port("+80"), 80);
    assert_eq!(port("65535"), 65535);
    assert_eq!(port("65536"), 3000);
    assert_eq!(port("http"), 3000);
    assert_eq!(port(""), 3000);
    assert_eq!(port("-1"), 3000);
    for text in ["8080", "+80", "65535", "65536", "http", "", "-1", " 80"] {
        assert_eq!(port(text), text.parse::<u16>().unwrap_or(3000));
    }

    let config = Config::from_values(
        Some("mongodb://db:1".to_string()),
        Some("k".to_string()),
        Some("debug".to_string()),
        Some("1".to_string()),
    );
    assert_eq!(config.mongodb_connection_string(), "mongodb://db:1");
    assert_eq!(config.jwt_secret_bytes(), b"k");
    assert_eq!(config.rust_log, "debug");
}

#[test]
fn app_errors_by_kind() {
    let cases = [
        (AppError::auth("no"), 401, "no", "Authentication error: no"),
        (AppError::validation("bad"), 400, "bad", "Validation error: bad"),
        (AppError::not_found("gone"), 404, "gone", "Not found: gone"),
        (AppError::conflict("twice"), 409, "twice", "Conflict: twice"),
        (AppError::internal("oops"), 500, "oops", "Internal server error: oops"),
        (
            AppError::database("E11000"),
            500,
            "Database operation failed",
            "Database error: E11000",
        ),
    ];
    for (error, status, message, text) in cases {
        assert_eq!(error.status_code(), status);
        assert_eq!(error.message(), message);
        assert_eq!(error.to_string(), text);
    }
    assert!(matches!(AppError::auth("x"), AppError::Auth(m) if m == "x"));
    assert!(matches!(AppError::validation("x"), AppError::Validation(m) if m == "x"));
    assert!(matches!(AppError::not_found("x"), AppError::NotFound(m) if m == "x"));
    assert!(matches!(AppError::conflict("x"), AppError::Conflict(m) if m == "x"));
    assert!(matches!(AppError::internal("x"), AppError::Internal(m) if m == "x"));
}

#[test]
fn users_and_what_is_shown_of_them() {
    let mut user = User::new(
        "a@b.co".to_string(),
        "alice".to_string(),
        "hash".to_string(),
        "priv".to_string(),
        "pub".to_string(),
        10,
    );
    assert_eq!(user.created_at, 10);
    assert!(user.id.is_none());
    user.update_profile(None, Some("alicia".to_string()), 20);
    assert_eq!(user.email, "a@b.co");
    assert_eq!(user.username, "alicia");
    assert_eq!(user.updated_at, 20);
    user.update_password("hash2".to_string(), 30);
    assert_eq!(user.password_hash, "hash2");
    assert_eq!(user.updated_at, 30);
    assert_eq!(user.created_at, 10);
    user.id = Some("65a1".to_string());
    let shown = UserResponse::from_user(user).unwrap();
    assert_eq!(shown.id, "65a1");
    assert_eq!(shown.username, "alicia");
    assert_eq!(shown.public_key, "pub");
    let unsaved = User::new(
        String::new(),
        String::new(),
        String::new(),
        String::new(),
        String::new(),
        0,
    );
    assert!(UserResponse::from_user(unsaved).is_none());
}

#[test]
fn bot_names_are_unique_per_user() {
    let first = create_bot(&vec![], "u".to_string(), "one".to_string(), "p".to_string(), 5).unwrap();
    assert_eq!(first.name, "one");
    assert_eq!(first.created_at, 5);
    let bots = vec![first];
    let clash = create_bot(&bots, "u".to_string(), "one".to_string(), "q".to_string(), 6);
    match clash {
        Err(e) => {
            assert_eq!(e.status_code(), 409);
            assert_eq!(e.message(), "Bot name already exists for this user");
        }
        Ok(_) => panic!("a taken name was accepted"),
    }
    assert!(create_bot(&bots, "u".to_string(), "two".to_string(), "q".to_string(), 6).is_ok());
    let mut stored = BotSettings::new("u".to_string(), "n".to_string(), "p".to_string(), 1);
    assert!(BotSettingsResponse::from_settings(stored.clone()).is_none());
    stored.id = Some("abc".to_string());
    let shown = BotSettingsResponse::from_settings(stored).unwrap();
    assert_eq!(shown.id, "abc");
    assert_eq!(shown.take_profit, 100);
    let empty = BotSettingsResponse::empty(9);
    assert_eq!(empty.cu, 0);
    assert_eq!(empty.created_at, 9);
    assert_eq!(empty.name, "");
}
