//! End-to-end behavior of the conversation state machine.

use tradebot::actions::Action;
use tradebot::bot::{handle_callback, handle_message, Session, State};
use tradebot::conversations::Conversations;
use tradebot::order::OrderType;

const HANDLE: &str = "tradebot";
const GOOD: &str = "0x1234567890123456789012345678901234567890";

fn texts(actions: &[Action]) -> Vec<String> {
    let mut out = Vec::new();
    for a in actions {
        if let Action::SendText(t) = a {
            out.push(t.clone());
        }
    }
    out
}

fn confirming_session() -> Session {
    let s = Session::new();
    let (s, _) = handle_message(s, &format!("/buy {} 1.5 0.5", GOOD), HANDLE);
    assert_eq!(s.state, State::Confirm);
    s
}

#[test]
fn buy_complete_goes_to_confirmation() {
    let s = Session::new();
    let (s, acts) = handle_message(s, &format!("/buy {} 1.5 0.5", GOOD), HANDLE);
    assert_eq!(s.state, State::Confirm);
    assert_eq!(s.trade.contract, Some(GOOD.to_string()));
    assert_eq!(s.trade.amount, Some("1.5".to_string()));
    assert_eq!(s.trade.slippage, Some("0.5".to_string()));
    assert_eq!(s.trade.order_type, OrderType::Buy);
    assert_eq!(acts.len(), 2);
    assert_eq!(
        acts[0],
        Action::SendText(format!(
            "Contract: {}\nAmount: 1.5\nSlippage: 0.5\nOrder type: buy",
            GOOD
        ))
    );
    match &acts[1] {
        Action::SendChoice(text, options) => {
            assert_eq!(text, "Do you want to execute the transaction?");
            assert_eq!(options.len(), 2);
            assert_eq!(options[0].label, "No");
            assert_eq!(options[0].payload, "no");
            assert_eq!(options[1].label, "Yes");
            assert_eq!(options[1].payload, "yes");
        }
        other => panic!("expected a choice prompt, got {:?}", other),
    }
}

#[test]
fn buy_bad_address_rejects_with_one_message() {
    let s = Session::new();
    let (s, acts) = handle_message(s, "/buy 0xshort 1.5 0.5", HANDLE);
    assert_eq!(s.state, State::Start);
    assert_eq!(
        texts(&acts),
        vec!["Trade cancelled: submitted contract is incorrect!".to_string()]
    );
    // the partial intent still overwrote the stored one
    assert_eq!(s.trade.contract, None);
    assert_eq!(s.trade.amount, Some("1.5".to_string()));
    assert_eq!(s.trade.slippage, Some("0.5".to_string()));
}

#[test]
fn buy_wrong_arg_count_rejects_whole_call() {
    let s = Session::new();
    let (s, acts) = handle_message(s, "/buy 0xabc 1.5", HANDLE);
    assert_eq!(s.state, State::Start);
    assert_eq!(
        texts(&acts),
        vec!["Trade cancelled: submitted trade parameters are incorrect!".to_string()]
    );
    // nothing was constructed, so the stored intent keeps its defaults
    assert_eq!(s.trade.contract, None);
    assert_eq!(s.trade.amount, None);
    assert_eq!(s.trade.slippage, None);
}

#[test]
fn buy_all_fields_bad_reports_each_in_order() {
    let s = Session::new();
    let (s, acts) = handle_message(s, "/buy nope abc xyz", HANDLE);
    assert_eq!(s.state, State::Start);
    assert_eq!(
        texts(&acts),
        vec![
            "Trade cancelled: submitted contract is incorrect!".to_string(),
            "Trade cancelled: submitted amount is incorrect!".to_string(),
            "Trade cancelled: submitted slippage is incorrect!".to_string(),
        ]
    );
}

#[test]
fn sell_round_trips_keyword_into_summary() {
    let s = Session::new();
    let (s, acts) = handle_message(s, &format!("/sell {} 2 1", GOOD), HANDLE);
    assert_eq!(s.state, State::Confirm);
    assert_eq!(s.trade.order_type, OrderType::Sell);
    assert_eq!(
        acts[0],
        Action::SendText(format!(
            "Contract: {}\nAmount: 2\nSlippage: 1\nOrder type: sell",
            GOOD
        ))
    );
}

#[test]
fn confirm_yes_executes_and_resets() {
    let s = confirming_session();
    let (s, acts) = handle_callback(s, &Some("yes".to_string()));
    assert_eq!(s.state, State::Start);
    assert_eq!(acts.len(), 3);
    assert_eq!(acts[0], Action::AnswerCallback);
    assert_eq!(acts[1], Action::DeletePrompt);
    assert_eq!(acts[2], Action::SendText("Transaction executed!".to_string()));
}

#[test]
fn confirm_no_declines_and_resets() {
    let s = confirming_session();
    let (s, acts) = handle_callback(s, &Some("no".to_string()));
    assert_eq!(s.state, State::Start);
    assert_eq!(acts.len(), 3);
    assert_eq!(acts[0], Action::AnswerCallback);
    assert_eq!(acts[1], Action::DeletePrompt);
    assert_eq!(
        acts[2],
        Action::SendText("Transaction was not executed!".to_string())
    );
}

#[test]
fn confirm_unknown_payload_reports_error() {
    let s = confirming_session();
    let (s, acts) = handle_callback(s, &Some("maybe".to_string()));
    assert_eq!(s.state, State::Start);
    assert_eq!(
        acts[2],
        Action::SendText("Something went wrong with the button handling".to_string())
    );
}

#[test]
fn confirm_absent_payload_reports_error() {
    let s = confirming_session();
    let (s, acts) = handle_callback(s, &None);
    assert_eq!(s.state, State::Start);
    assert_eq!(
        acts[2],
        Action::SendText("Something went wrong with the button handling".to_string())
    );
}

#[test]
fn callback_without_pending_confirmation_is_dropped() {
    let s = Session::new();
    let (s, acts) = handle_callback(s, &Some("yes".to_string()));
    assert_eq!(s.state, State::Start);
    assert!(acts.is_empty());
}

#[test]
fn cancel_from_start_resets() {
    let s = Session::new();
    let (s, acts) = handle_message(s, "/cancel", HANDLE);
    assert_eq!(s.state, State::Start);
    assert_eq!(texts(&acts), vec!["Current command is cancelled".to_string()]);
}

#[test]
fn cancel_while_confirming_resets() {
    let s = confirming_session();
    let (s, acts) = handle_message(s, "/cancel", HANDLE);
    assert_eq!(s.state, State::Start);
    assert_eq!(texts(&acts), vec!["Current command is cancelled".to_string()]);
}

#[test]
fn other_commands_fall_through_while_confirming() {
    let s = confirming_session();
    let (s, acts) = handle_message(s, &format!("/buy {} 1 1", GOOD), HANDLE);
    assert_eq!(s.state, State::Confirm);
    assert_eq!(
        texts(&acts),
        vec!["Type /help to see availabe commands.".to_string()]
    );
    let (s, acts) = handle_message(s, "/balance", HANDLE);
    assert_eq!(s.state, State::Confirm);
    assert_eq!(
        texts(&acts),
        vec!["Type /help to see availabe commands.".to_string()]
    );
}

#[test]
fn watch_keeps_only_valid_wallets() {
    let addr = "0x1111111111111111111111111111111111111111";
    let s = Session::new();
    let (s, acts) = handle_message(s, &format!("/watch {} notanaddress", addr), HANDLE);
    assert_eq!(s.state, State::Start);
    assert_eq!(s.watched, vec![addr.to_string()]);
    assert_eq!(
        texts(&acts),
        vec![format!("Wallets to watch:\n\n1. {}", addr)]
    );
}

#[test]
fn watch_numbers_every_entry() {
    let a = "0x1111111111111111111111111111111111111111";
    let b = "0x2222222222222222222222222222222222222222";
    let s = Session::new();
    let (s, acts) = handle_message(s, &format!("/watch {} {}", a, b), HANDLE);
    assert_eq!(s.watched.len(), 2);
    assert_eq!(
        texts(&acts),
        vec![format!("Wallets to watch:\n\n1. {}\n2. {}", a, b)]
    );
}

#[test]
fn watch_with_no_valid_wallet_overwrites_with_empty() {
    let addr = "0x1111111111111111111111111111111111111111";
    let s = Session::new();
    let (s, _) = handle_message(s, &format!("/watch {}", addr), HANDLE);
    assert_eq!(s.watched, vec![addr.to_string()]);
    let (s, acts) = handle_message(s, "/watch bad1 bad2", HANDLE);
    assert_eq!(s.state, State::Start);
    assert!(s.watched.is_empty());
    assert_eq!(
        texts(&acts),
        vec!["Watch wallets cancelled: submitted wallets are incorrect".to_string()]
    );
}

#[test]
fn balance_tokens_gas_emit_fetches() {
    let s = Session::new();
    let (s, acts) = handle_message(s, "/balance", HANDLE);
    assert_eq!(acts, vec![Action::FetchEthBalance]);
    let (s, acts) = handle_message(s, "/tokens", HANDLE);
    assert_eq!(acts, vec![Action::FetchTokenBalances]);
    let (s, acts) = handle_message(s, "/gas", HANDLE);
    assert_eq!(acts, vec![Action::FetchGas]);
    assert_eq!(s.state, State::Start);
}

#[test]
fn help_lists_the_commands() {
    let s = Session::new();
    let (_, acts) = handle_message(s, "/help", HANDLE);
    let expected = "These commands are supported:\n/help - help command\n/buy - buy ERC-20 token\n/sell - sell ERC-20 token\n/balance - get wallet ETH balance\n/tokens - get wallet ERC-20 token balances\n/gas - get current eth gas\n/watch - start monitoring etherum wallets\n/cancel - cancel current command";
    assert_eq!(texts(&acts), vec![expected.to_string()]);
}

#[test]
fn non_commands_and_unknown_commands_get_the_nudge() {
    let s = Session::new();
    let (s, acts) = handle_message(s, "hello there", HANDLE);
    assert_eq!(
        texts(&acts),
        vec!["Type /help to see availabe commands.".to_string()]
    );
    let (s, acts) = handle_message(s, "/frobnicate", HANDLE);
    assert_eq!(
        texts(&acts),
        vec!["Type /help to see availabe commands.".to_string()]
    );
    assert_eq!(s.state, State::Start);
}

#[test]
fn keyword_matching_is_case_insensitive() {
    let s = Session::new();
    let (s, _) = handle_message(s, &format!("/BUY {} 1.5 0.5", GOOD), HANDLE);
    assert_eq!(s.state, State::Confirm);
}

#[test]
fn handle_suffix_is_matched_case_insensitively() {
    let s = Session::new();
    let (s, _) = handle_message(s, &format!("/buy@TradeBot {} 1.5 0.5", GOOD), HANDLE);
    assert_eq!(s.state, State::Confirm);
}

#[test]
fn conversations_are_kept_separate_per_chat() {
    let mut arena = Conversations::new();
    assert_eq!(arena.state_of(7), State::Start);
    let _ = arena.handle_message_in(1, &format!("/buy {} 1.5 0.5", GOOD), HANDLE);
    assert_eq!(arena.state_of(1), State::Confirm);
    assert_eq!(arena.state_of(2), State::Start);
    // chat 2's callback is dropped, chat 1's confirmation stays pending
    let acts = arena.handle_callback_in(2, &Some("yes".to_string()));
    assert!(acts.is_empty());
    assert_eq!(arena.state_of(1), State::Confirm);
    let acts = arena.handle_callback_in(1, &Some("yes".to_string()));
    assert_eq!(
        acts[2],
        Action::SendText("Transaction executed!".to_string())
    );
    assert_eq!(arena.state_of(1), State::Start);
}

#[test]
fn command_for_another_bot_gets_the_nudge() {
    let s = Session::new();
    let (s, acts) = handle_message(s, &format!("/buy@otherbot {} 1.5 0.5", GOOD), HANDLE);
    assert_eq!(s.state, State::Start);
    assert_eq!(
        texts(&acts),
        vec!["Type /help to see availabe commands.".to_string()]
    );
}
