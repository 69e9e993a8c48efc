//! The per-chat conversation state machine: which handler an incoming
//! message or callback reaches, and what it sends back.
//!
//! The trade intent and the watch list live inside each chat's `Session`
//! rather than in one process-wide store, so concurrent chats cannot race
//! on them.

use vstd::prelude::*;
use vstd::string::*;
use crate::actions::{make_yes_no_keyboard, yes_no_options, Action, ActionV};
use crate::order::OrderType;
use crate::parse::{parse_command, command_of, spec_parse, spec_command_of, Command};
use crate::trade::{
    complete, empty_trade, summary, summary_text, validate_tradetoken_args, validate_trade_spec,
    TradeToken, TradeTokenV,
};
use crate::watch::{build_watch_message, filter_valid, filter_wallets, watch_text};

verus! {

/// Where a chat stands: awaiting a command, or awaiting the answer to a
/// confirmation prompt.
#[derive(Clone, Copy, Debug, PartialEq, Eq, Structural, Default)]
pub enum State {
    #[default]
    Start,
    Confirm,
}

/// One chat's conversation: its state, the intent most recently produced by
/// trade validation, and the watch list most recently stored.
#[derive(Clone, Debug)]
pub struct Session {
    pub state: State,
    pub trade: TradeToken,
    pub watched: Vec<String>,
}

pub struct SessionV {
    pub state: State,
    pub trade: TradeTokenV,
    pub watched: Seq<Seq<char>>,
}

impl View for Session {
    type V = SessionV;

    open spec fn view(&self) -> SessionV {
        SessionV { state: self.state, trade: self.trade@, watched: self.watched.deep_view() }
    }
}

/// A chat's session as it is created lazily on first contact.
pub open spec fn initial_session() -> SessionV {
    SessionV { state: State::Start, trade: empty_trade(OrderType::Buy), watched: Seq::empty() }
}

impl Session {
    /// The default conversation: awaiting a command, nothing stored.
    pub fn new() -> (r: Session)
        ensures
            r@ == initial_session(),
    {
        let r = Session {
            state: State::Start,
            trade: TradeToken::new(OrderType::Buy),
            watched: Vec::new(),
        };
        proof {
            assert(r@.watched =~~= initial_session().watched);
        }
        r
    }
}

pub open spec fn with_state(s: SessionV, st: State) -> SessionV {
    SessionV { state: st, trade: s.trade, watched: s.watched }
}

/// The generic nudge for anything that matches no command/state combination.
pub open spec fn invalid_actions() -> Seq<ActionV> {
    seq![ActionV::SendText("Type /help to see availabe commands."@)]
}

/// The command overview `/help` answers with.
pub open spec fn help_text() -> Seq<char> {
    "These commands are supported:\n/help - help command\n/buy - buy ERC-20 token\n/sell - sell ERC-20 token\n/balance - get wallet ETH balance\n/tokens - get wallet ERC-20 token balances\n/gas - get current eth gas\n/watch - start monitoring etherum wallets\n/cancel - cancel current command"@
}

/// One rejection message per field that failed validation, in field order.
pub open spec fn trade_field_msgs(tt: TradeTokenV) -> Seq<ActionV> {
    (if tt.contract is None {
        seq![ActionV::SendText("Trade cancelled: submitted contract is incorrect!"@)]
    } else {
        Seq::<ActionV>::empty()
    }) + (if tt.amount is None {
        seq![ActionV::SendText("Trade cancelled: submitted amount is incorrect!"@)]
    } else {
        Seq::<ActionV>::empty()
    }) + (if tt.slippage is None {
        seq![ActionV::SendText("Trade cancelled: submitted slippage is incorrect!"@)]
    } else {
        Seq::<ActionV>::empty()
    })
}

/// A buy/sell command: validate, store the produced intent, then either ask
/// for confirmation or reject field by field and reset the dialogue.
pub open spec fn spec_trade_token(s: SessionV, ot: OrderType, args: Seq<Seq<char>>) -> (
    SessionV,
    Seq<ActionV>,
) {
    match validate_trade_spec(args, ot) {
        None => (
            with_state(s, State::Start),
            seq![
                ActionV::SendText("Trade cancelled: submitted trade parameters are incorrect!"@),
            ],
        ),
        Some(tt) => {
            let stored = SessionV { state: s.state, trade: tt, watched: s.watched };
            if complete(tt) {
                (
                    with_state(stored, State::Confirm),
                    seq![
                        ActionV::SendText(summary_text(tt)),
                        ActionV::SendChoice(
                            "Do you want to execute the transaction?"@,
                            yes_no_options(),
                        ),
                    ],
                )
            } else {
                (with_state(stored, State::Start), trade_field_msgs(tt))
            }
        },
    }
}

/// A confirmation callback: acknowledge it, delete the prompt, answer by
/// payload, and return to awaiting a command.
pub open spec fn spec_confirm(s: SessionV, payload: Option<Seq<char>>) -> (SessionV, Seq<ActionV>) {
    let msg = match payload {
        Some(d) => if d == "yes"@ {
            "Transaction executed!"@
        } else if d == "no"@ {
            "Transaction was not executed!"@
        } else {
            "Something went wrong with the button handling"@
        },
        None => "Something went wrong with the button handling"@,
    };
    (
        with_state(s, State::Start),
        seq![ActionV::AnswerCallback, ActionV::DeletePrompt, ActionV::SendText(msg)],
    )
}

/// A watch command: the filtered list replaces the stored one wholesale, and
/// the reply lists it, or reports that no valid wallet came.
pub open spec fn spec_watch(s: SessionV, args: Seq<Seq<char>>) -> (SessionV, Seq<ActionV>) {
    let f = filter_valid(args);
    let stored = SessionV { state: s.state, trade: s.trade, watched: f };
    if f.len() == 0 {
        (
            stored,
            seq![ActionV::SendText("Watch wallets cancelled: submitted wallets are incorrect"@)],
        )
    } else {
        (stored, seq![ActionV::SendText(watch_text(f))])
    }
}

/// A cancel command: acknowledge and force the dialogue back to the start.
pub open spec fn spec_cancel(s: SessionV) -> (SessionV, Seq<ActionV>) {
    (with_state(s, State::Start), seq![ActionV::SendText("Current command is cancelled"@)])
}

/// The dispatch table over state and command. Cancel works from any state;
/// every other command is only reachable while awaiting a command.
pub open spec fn spec_dispatch(s: SessionV, cmd: Command, args: Seq<Seq<char>>) -> (
    SessionV,
    Seq<ActionV>,
) {
    if cmd == Command::Cancel {
        spec_cancel(s)
    } else if s.state == State::Confirm {
        (s, invalid_actions())
    } else {
        match cmd {
            Command::Help => (s, seq![ActionV::SendText(help_text())]),
            Command::Buy => spec_trade_token(s, OrderType::Buy, args),
            Command::Sell => spec_trade_token(s, OrderType::Sell, args),
            Command::Balance => (s, seq![ActionV::FetchEthBalance]),
            Command::Tokens => (s, seq![ActionV::FetchTokenBalances]),
            Command::Gas => (s, seq![ActionV::FetchGas]),
            Command::Watch => spec_watch(s, args),
            Command::Cancel => spec_cancel(s),
        }
    }
}

/// An incoming message: parse it, look the keyword up, dispatch; anything
/// unrecognized gets the generic nudge and leaves the state alone.
pub open spec fn spec_handle_message(s: SessionV, text: Seq<char>, handle: Seq<char>) -> (
    SessionV,
    Seq<ActionV>,
) {
    match spec_parse(text, handle) {
        None => (s, invalid_actions()),
        Some((k, args)) => match spec_command_of(k) {
            None => (s, invalid_actions()),
            Some(cmd) => spec_dispatch(s, cmd, args),
        },
    }
}

/// An incoming callback: routed to confirmation only while one is pending;
/// otherwise it is dropped.
pub open spec fn spec_handle_callback(s: SessionV, payload: Option<Seq<char>>) -> (
    SessionV,
    Seq<ActionV>,
) {
    if s.state == State::Confirm {
        spec_confirm(s, payload)
    } else {
        (s, Seq::empty())
    }
}

/// Handles a buy or sell command's argument tokens.
pub fn trade_token(session: Session, order_type: OrderType, args: &Vec<String>) -> (r: (
    Session,
    Vec<Action>,
))
    ensures
        r.0@ == spec_trade_token(session@, order_type, args.deep_view()).0,
        r.1.deep_view() == spec_trade_token(session@, order_type, args.deep_view()).1,
{
    let mut session = session;
    match validate_tradetoken_args(args, order_type) {
        None => {
            session.state = State::Start;
            let mut acts: Vec<Action> = Vec::new();
            acts.push(
                Action::SendText(
                    String::from_str("Trade cancelled: submitted trade parameters are incorrect!"),
                ),
            );
            proof {
                assert(acts.deep_view() =~~= spec_trade_token(
                    session@,
                    order_type,
                    args.deep_view(),
                ).1);
            }
            (session, acts)
        },
        Some(tt) => {
            if tt.is_complete() {
                let sm = summary(&tt);
                let kb = make_yes_no_keyboard();
                let mut acts: Vec<Action> = Vec::new();
                acts.push(Action::SendText(sm));
                acts.push(
                    Action::SendChoice(
                        String::from_str("Do you want to execute the transaction?"),
                        kb,
                    ),
                );
                session.trade = tt;
                session.state = State::Confirm;
                proof {
                    assert(acts.deep_view() =~~= spec_trade_token(
                        session@,
                        order_type,
                        args.deep_view(),
                    ).1);
                }
                (session, acts)
            } else {
                let mut acts: Vec<Action> = Vec::new();
                if tt.contract.is_none() {
                    acts.push(
                        Action::SendText(
                            String::from_str("Trade cancelled: submitted contract is incorrect!"),
                        ),
                    );
                }
                if tt.amount.is_none() {
                    acts.push(
                        Action::SendText(
                            String::from_str("Trade cancelled: submitted amount is incorrect!"),
                        ),
                    );
                }
                if tt.slippage.is_none() {
                    acts.push(
                        Action::SendText(
                            String::from_str("Trade cancelled: submitted slippage is incorrect!"),
                        ),
                    );
                }
                session.trade = tt;
                session.state = State::Start;
                proof {
                    assert(acts.deep_view() =~~= trade_field_msgs(session@.trade));
                }
                (session, acts)
            }
        },
    }
}

/// Handles the callback that answers the confirmation prompt.
pub fn confirm(session: Session, payload: &Option<String>) -> (r: (Session, Vec<Action>))
    ensures
        r.0@ == spec_confirm(session@, payload.deep_view()).0,
        r.1.deep_view() == spec_confirm(session@, payload.deep_view()).1,
{
    let mut session = session;
    let msg: String = match payload {
        Some(d) => {
            let yes = String::from_str("yes");
            let no = String::from_str("no");
            if d.eq(&yes) {
                String::from_str("Transaction executed!")
            } else if d.eq(&no) {
                String::from_str("Transaction was not executed!")
            } else {
                String::from_str("Something went wrong with the button handling")
            }
        },
        None => String::from_str("Something went wrong with the button handling"),
    };
    let mut acts: Vec<Action> = Vec::new();
    acts.push(Action::AnswerCallback);
    acts.push(Action::DeletePrompt);
    acts.push(Action::SendText(msg));
    session.state = State::Start;
    proof {
        assert(acts.deep_view() =~~= spec_confirm(session@, payload.deep_view()).1);
    }
    (session, acts)
}

/// Handles a watch command's candidate wallet tokens.
pub fn watch_wallets(session: Session, args: &Vec<String>) -> (r: (Session, Vec<Action>))
    ensures
        r.0@ == spec_watch(session@, args.deep_view()).0,
        r.1.deep_view() == spec_watch(session@, args.deep_view()).1,
{
    let mut session = session;
    let f = filter_wallets(args);
    let mut acts: Vec<Action> = Vec::new();
    if f.len() == 0 {
        acts.push(
            Action::SendText(
                String::from_str("Watch wallets cancelled: submitted wallets are incorrect"),
            ),
        );
    } else {
        let m = build_watch_message(&f);
        acts.push(Action::SendText(m));
    }
    session.watched = f;
    proof {
        assert(acts.deep_view() =~~= spec_watch(session@, args.deep_view()).1);
    }
    (session, acts)
}

/// Handles the cancel command, from any state.
pub fn cancel(session: Session) -> (r: (Session, Vec<Action>))
    ensures
        r.0@ == spec_cancel(session@).0,
        r.1.deep_view() == spec_cancel(session@).1,
{
    let mut session = session;
    session.state = State::Start;
    let mut acts: Vec<Action> = Vec::new();
    acts.push(Action::SendText(String::from_str("Current command is cancelled")));
    proof {
        assert(acts.deep_view() =~~= spec_cancel(session@).1);
    }
    (session, acts)
}

/// Answers `/help` with the command overview.
pub fn help() -> (r: Vec<Action>)
    ensures
        r.deep_view() == seq![ActionV::SendText(help_text())],
{
    let mut acts: Vec<Action> = Vec::new();
    acts.push(
        Action::SendText(
            String::from_str(
                "These commands are supported:\n/help - help command\n/buy - buy ERC-20 token\n/sell - sell ERC-20 token\n/balance - get wallet ETH balance\n/tokens - get wallet ERC-20 token balances\n/gas - get current eth gas\n/watch - start monitoring etherum wallets\n/cancel - cancel current command",
            ),
        ),
    );
    proof {
        assert(acts.deep_view() =~~= seq![ActionV::SendText(help_text())]);
    }
    acts
}

/// The generic answer for anything that matches no command/state combination.
pub fn invalid_state() -> (r: Vec<Action>)
    ensures
        r.deep_view() == invalid_actions(),
{
    let mut acts: Vec<Action> = Vec::new();
    acts.push(Action::SendText(String::from_str("Type /help to see availabe commands.")));
    proof {
        assert(acts.deep_view() =~~= invalid_actions());
    }
    acts
}

fn one_action(a: Action) -> (r: Vec<Action>)
    ensures
        r.deep_view() == seq![a@],
{
    let mut acts: Vec<Action> = Vec::new();
    acts.push(a);
    proof {
        assert(acts.deep_view() =~~= seq![acts@[0]@]);
    }
    acts
}

/// Routes a recognized command by the dispatch table.
pub fn dispatch(session: Session, cmd: Command, args: &Vec<String>) -> (r: (Session, Vec<Action>))
    ensures
        r.0@ == spec_dispatch(session@, cmd, args.deep_view()).0,
        r.1.deep_view() == spec_dispatch(session@, cmd, args.deep_view()).1,
{
    if cmd == Command::Cancel {
        cancel(session)
    } else if session.state == State::Confirm {
        (session, invalid_state())
    } else {
        match cmd {
            Command::Help => (session, help()),
            Command::Buy => trade_token(session, OrderType::Buy, args),
            Command::Sell => trade_token(session, OrderType::Sell, args),
            Command::Balance => (session, one_action(Action::FetchEthBalance)),
            Command::Tokens => (session, one_action(Action::FetchTokenBalances)),
            Command::Gas => (session, one_action(Action::FetchGas)),
            Command::Watch => watch_wallets(session, args),
            Command::Cancel => cancel(session),
        }
    }
}

/// Handles one incoming message for this chat: the new session and, in
/// order, the actions the transport should perform.
pub fn handle_message(session: Session, text: &str, handle: &str) -> (r: (Session, Vec<Action>))
    ensures
        r.0@ == spec_handle_message(session@, text@, handle@).0,
        r.1.deep_view() == spec_handle_message(session@, text@, handle@).1,
{
    match parse_command(text, handle) {
        Err(_) => (session, invalid_state()),
        Ok(p) => {
            let (kw, args) = p;
            match command_of(kw.as_str()) {
                None => (session, invalid_state()),
                Some(cmd) => dispatch(session, cmd, &args),
            }
        },
    }
}

/// Handles one incoming callback for this chat.
pub fn handle_callback(session: Session, payload: &Option<String>) -> (r: (Session, Vec<Action>))
    ensures
        r.0@ == spec_handle_callback(session@, payload.deep_view()).0,
        r.1.deep_view() == spec_handle_callback(session@, payload.deep_view()).1,
{
    if session.state == State::Confirm {
        confirm(session, payload)
    } else {
        let acts: Vec<Action> = Vec::new();
        proof {
            assert(acts.deep_view() =~~= Seq::<ActionV>::empty());
        }
        (session, acts)
    }
}

} // verus!
