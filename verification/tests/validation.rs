//! Unit behavior of the validators, the token grammar, the parser and the
//! report builders.

use tradebot::actions::{eth_balance_message, format_token_balances, make_yes_no_keyboard};
use tradebot::order::OrderType;
use tradebot::parse::{command_of, parse_command, Command};
use tradebot::tokens::{is_float_str, is_valid_address};
use tradebot::trade::validate_tradetoken_args;
use tradebot::watch::{filter_wallets, u64_dec, validate_watchwallets_args};

fn strings(items: &[&str]) -> Vec<String> {
    items.iter().map(|s| s.to_string()).collect()
}

#[test]
fn address_shape_is_length_and_prefix_only() {
    // syntactically valid, even though no such contract exists on chain
    assert!(is_valid_address("0x1234567890123456789012345678901234567890"));
    assert!(is_valid_address("0xdEaDbEeFdeadbeefDEADBEEFdeadbeefDEADBEEF"));
    // 41 characters
    assert!(!is_valid_address("0x123456789012345678901234567890123456789"));
    // 43 characters
    assert!(!is_valid_address("0x12345678901234567890123456789012345678901"));
    // right length, wrong prefix
    assert!(!is_valid_address("1x1234567890123456789012345678901234567890"));
    assert!(!is_valid_address(""));
}

#[test]
fn float_tokens_accepted() {
    for t in [
        "1.5", "-0.5", "+3", "1e5", "-.5", "5.", "0", "1E-7", "2e+10", "inf", "-inf",
        "Infinity", "NaN", "nan",
    ] {
        assert!(is_float_str(t), "expected {:?} to be accepted", t);
    }
}

#[test]
fn float_tokens_rejected() {
    for t in ["", ".", "abc", "1.2.3", "1e", "e5", "--1", "+", "0x12", "1,5", "infx"] {
        assert!(!is_float_str(t), "expected {:?} to be rejected", t);
    }
}

#[test]
fn validate_trade_needs_exactly_three_tokens() {
    for args in [
        vec![],
        strings(&["0x1234567890123456789012345678901234567890"]),
        strings(&["0x1234567890123456789012345678901234567890", "1.5"]),
        strings(&["0x1234567890123456789012345678901234567890", "1.5", "0.5", "x"]),
    ] {
        assert!(validate_tradetoken_args(&args, OrderType::Buy).is_none());
    }
}

#[test]
fn validate_trade_checks_fields_independently() {
    let args = strings(&["0xshort", "abc", "0.5"]);
    let tt = validate_tradetoken_args(&args, OrderType::Sell).unwrap();
    assert_eq!(tt.contract, None);
    assert_eq!(tt.amount, None);
    assert_eq!(tt.slippage, Some("0.5".to_string()));
    assert_eq!(tt.order_type, OrderType::Sell);
}

#[test]
fn validate_trade_accepts_unbounded_numbers() {
    // negative amounts and slippage over 100 are deliberately accepted
    let args = strings(&[
        "0x1234567890123456789012345678901234567890",
        "-5",
        "250.0",
    ]);
    let tt = validate_tradetoken_args(&args, OrderType::Buy).unwrap();
    assert_eq!(tt.amount, Some("-5".to_string()));
    assert_eq!(tt.slippage, Some("250.0".to_string()));
}

#[test]
fn watch_filter_keeps_order_and_drops_silently() {
    let a = "0x1111111111111111111111111111111111111111";
    let b = "0x2222222222222222222222222222222222222222";
    let args = strings(&["bad", a, "0xshort", b]);
    assert_eq!(filter_wallets(&args), strings(&[a, b]));
    let kept = validate_watchwallets_args(&args).unwrap();
    assert_eq!(kept, strings(&[a, b]));
    assert!(validate_watchwallets_args(&strings(&["bad1", "bad2"])).is_none());
}

#[test]
fn parser_splits_keyword_and_arguments() {
    let (kw, args) = parse_command("  /buy   a  b ", "tradebot").unwrap();
    assert_eq!(kw, "buy");
    assert_eq!(args, strings(&["a", "b"]));
    let (kw, args) = parse_command("/cancel", "tradebot").unwrap();
    assert_eq!(kw, "cancel");
    assert!(args.is_empty());
}

#[test]
fn parser_rejects_non_commands() {
    assert!(parse_command("buy a b", "tradebot").is_err());
    assert!(parse_command("", "tradebot").is_err());
    assert!(parse_command("   ", "tradebot").is_err());
}

#[test]
fn parser_strips_own_handle_only() {
    let (kw, _) = parse_command("/buy@TradeBot 1 2 3", "tradebot").unwrap();
    assert_eq!(kw, "buy");
    assert!(parse_command("/buy@someoneelse 1 2 3", "tradebot").is_err());
}

#[test]
fn command_lookup_is_case_insensitive() {
    assert_eq!(command_of("BUY"), Some(Command::Buy));
    assert_eq!(command_of("Watch"), Some(Command::Watch));
    assert_eq!(command_of("gas"), Some(Command::Gas));
    assert_eq!(command_of("nope"), None);
    assert_eq!(command_of(""), None);
}

#[test]
fn order_type_round_trips_through_its_keyword() {
    for ot in [OrderType::Buy, OrderType::Sell] {
        assert_eq!(OrderType::from_keyword(ot.keyword()), Some(ot));
    }
    assert_eq!(OrderType::from_keyword("hold"), None);
}

#[test]
fn keyboard_holds_no_then_yes() {
    let kb = make_yes_no_keyboard();
    assert_eq!(kb.len(), 2);
    assert_eq!((kb[0].label.as_str(), kb[0].payload.as_str()), ("No", "no"));
    assert_eq!((kb[1].label.as_str(), kb[1].payload.as_str()), ("Yes", "yes"));
}

#[test]
fn decimal_rendering() {
    assert_eq!(u64_dec(0), "0");
    assert_eq!(u64_dec(7), "7");
    assert_eq!(u64_dec(10), "10");
    assert_eq!(u64_dec(12034), "12034");
}

#[test]
fn balance_reports() {
    assert_eq!(eth_balance_message("1.23"), "Your wallet balance is 1.23");
    assert_eq!(
        format_token_balances(&strings(&["USDC: 5", "DAI: 2"])),
        "ERC-20 Token balances:\n\nUSDC: 5\nDAI: 2"
    );
    assert_eq!(format_token_balances(&strings(&[])), "ERC-20 Token balances:\n");
}
