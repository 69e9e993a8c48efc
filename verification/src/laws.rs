//! The library-wide guarantees, each proved once and for all inputs.

use vstd::prelude::*;
use crate::actions::ActionV;
use crate::bot::{
    spec_cancel, spec_dispatch, spec_handle_callback, spec_trade_token, spec_watch, with_state,
    SessionV, State,
};
use crate::order::OrderType;
use crate::parse::Command;
use crate::tokens::valid_address;
use crate::trade::validate_trade_spec;
use crate::watch::filter_valid;

verus! {

/// With any token count other than three, trade validation constructs
/// nothing: no field is produced, the stored intent is untouched, the
/// dialogue is reset to awaiting a command, and the only reply is the
/// whole-call rejection.
pub proof fn lemma_wrong_arg_count_rejects(s: SessionV, ot: OrderType, args: Seq<Seq<char>>)
    requires
        args.len() != 3,
    ensures
        validate_trade_spec(args, ot) is None,
        spec_trade_token(s, ot, args).0.state == State::Start,
        spec_trade_token(s, ot, args).0.trade == s.trade,
        spec_trade_token(s, ot, args).1 == seq![
            ActionV::SendText("Trade cancelled: submitted trade parameters are incorrect!"@),
        ],
{
    assert(spec_trade_token(s, ot, args).1 =~= seq![
        ActionV::SendText("Trade cancelled: submitted trade parameters are incorrect!"@),
    ]);
}

/// An address token is accepted exactly when it is 42 characters long and
/// begins `0x`: nothing else about it is inspected, so a syntactically valid
/// but non-existent address passes.
pub proof fn lemma_address_acceptance(args: Seq<Seq<char>>, ot: OrderType)
    requires
        args.len() == 3,
    ensures
        match validate_trade_spec(args, ot) {
            Some(tt) => (tt.contract is Some <==> (args[0].len() == 42 && args[0][0] == '0'
                && args[0][1] == 'x')) && (tt.contract is Some ==> tt.contract == Some(args[0])),
            None => false,
        },
{
}

/// The watch filter keeps a token exactly when it has the accepted address
/// shape; order among the kept tokens is preserved by construction.
pub proof fn lemma_watch_filter_membership(args: Seq<Seq<char>>)
    ensures
        forall|t: Seq<char>|
            #[trigger] filter_valid(args).contains(t) <==> (args.contains(t) && valid_address(t)),
    decreases args.len(),
{
    if args.len() == 0 {
    } else {
        lemma_watch_filter_membership(args.drop_last());
        assert forall|t: Seq<char>|
            #[trigger] filter_valid(args).contains(t) <==> (args.contains(t) && valid_address(
                t,
            )) by {
            if filter_valid(args).contains(t) {
                let i = choose|i: int| 0 <= i < filter_valid(args).len() && filter_valid(args)[i] == t;
                if i < filter_valid(args.drop_last()).len() {
                    assert(filter_valid(args.drop_last()).contains(t));
                    assert(args.drop_last().contains(t));
                    let j = choose|j: int|
                        0 <= j < args.drop_last().len() && args.drop_last()[j] == t;
                    assert(args[j] == t);
                } else {
                    assert(t == args.last());
                }
            }
            if args.contains(t) && valid_address(t) {
                let j = choose|j: int| 0 <= j < args.len() && args[j] == t;
                if j < args.len() - 1 {
                    assert(args.drop_last()[j] == t);
                    assert(filter_valid(args.drop_last()).contains(t));
                    let i = choose|i: int|
                        0 <= i < filter_valid(args.drop_last()).len() && filter_valid(
                            args.drop_last(),
                        )[i] == t;
                    assert(filter_valid(args)[i] == t);
                } else {
                    assert(t == args.last());
                    assert(filter_valid(args).last() == t);
                }
            }
        }
    }
}

/// A watch command replaces the stored list wholesale with the filtered
/// candidates, even when that list is empty, and reports the failure
/// exactly when it is empty.
pub proof fn lemma_watch_overwrites(s: SessionV, args: Seq<Seq<char>>)
    ensures
        spec_watch(s, args).0.watched == filter_valid(args),
        spec_watch(s, args).0.state == s.state,
        filter_valid(args).len() == 0 ==> spec_watch(s, args).1 == seq![
            ActionV::SendText("Watch wallets cancelled: submitted wallets are incorrect"@),
        ],
{
    if filter_valid(args).len() == 0 {
        assert(spec_watch(s, args).1 =~= seq![
            ActionV::SendText("Watch wallets cancelled: submitted wallets are incorrect"@),
        ]);
    }
}

/// A trade command can move the dialogue only to awaiting a command or to
/// awaiting confirmation, and it reaches confirmation only with a complete
/// intent: an incomplete one is rejected before any prompt is rendered.
pub proof fn lemma_confirmation_needs_complete_intent(
    s: SessionV,
    ot: OrderType,
    args: Seq<Seq<char>>,
)
    ensures
        spec_trade_token(s, ot, args).0.state == State::Start || spec_trade_token(
            s,
            ot,
            args,
        ).0.state == State::Confirm,
        spec_trade_token(s, ot, args).0.state == State::Confirm ==> crate::trade::complete(
            spec_trade_token(s, ot, args).0.trade,
        ),
{
}

/// Answering a pending confirmation with the payload `yes` deletes the
/// prompt, reports execution, and returns the chat to awaiting a command.
pub proof fn lemma_confirm_yes(s: SessionV)
    requires
        s.state == State::Confirm,
    ensures
        spec_handle_callback(s, Some("yes"@)).0 == with_state(s, State::Start),
        spec_handle_callback(s, Some("yes"@)).1 == seq![
            ActionV::AnswerCallback,
            ActionV::DeletePrompt,
            ActionV::SendText("Transaction executed!"@),
        ],
{
    assert(spec_handle_callback(s, Some("yes"@)).1 =~= seq![
        ActionV::AnswerCallback,
        ActionV::DeletePrompt,
        ActionV::SendText("Transaction executed!"@),
    ]);
}

/// Answering a pending confirmation with the payload `no` declines the
/// trade and returns the chat to awaiting a command.
pub proof fn lemma_confirm_no(s: SessionV)
    requires
        s.state == State::Confirm,
    ensures
        spec_handle_callback(s, Some("no"@)).0 == with_state(s, State::Start),
        spec_handle_callback(s, Some("no"@)).1 == seq![
            ActionV::AnswerCallback,
            ActionV::DeletePrompt,
            ActionV::SendText("Transaction was not executed!"@),
        ],
{
    reveal_strlit("yes");
    reveal_strlit("no");
    assert("no"@.len() != "yes"@.len());
    assert(spec_handle_callback(s, Some("no"@)).1 =~= seq![
        ActionV::AnswerCallback,
        ActionV::DeletePrompt,
        ActionV::SendText("Transaction was not executed!"@),
    ]);
}

/// A cancel command, issued from any state and with any arguments, sends the
/// cancellation text and forces the dialogue back to awaiting a command.
pub proof fn lemma_cancel_any_state(s: SessionV, args: Seq<Seq<char>>)
    ensures
        spec_dispatch(s, Command::Cancel, args) == spec_cancel(s),
        spec_dispatch(s, Command::Cancel, args).0.state == State::Start,
        spec_dispatch(s, Command::Cancel, args).1 == seq![
            ActionV::SendText("Current command is cancelled"@),
        ],
{
    assert(spec_cancel(s).1 =~= seq![ActionV::SendText("Current command is cancelled"@)]);
}

} // verus!
