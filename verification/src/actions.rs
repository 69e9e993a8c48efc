//! The outbound actions the state machine asks the transport to perform,
//! and the collaborator-report texts that accompany them.

use vstd::prelude::*;
use vstd::string::*;

verus! {

/// One button of an interactive prompt: its label and the callback payload
/// pressing it produces.
#[derive(Clone, Debug, PartialEq, Eq)]
pub struct Choice {
    pub label: String,
    pub payload: String,
}

pub struct ChoiceV {
    pub label: Seq<char>,
    pub payload: Seq<char>,
}

impl View for Choice {
    type V = ChoiceV;

    open spec fn view(&self) -> ChoiceV {
        ChoiceV { label: self.label@, payload: self.payload@ }
    }
}

impl DeepView for Choice {
    type V = ChoiceV;

    open spec fn deep_view(&self) -> ChoiceV {
        self@
    }
}

/// What the dispatcher asks of its collaborators: chat-transport sends and
/// deletions, and single-round-trip crypto-data fetches whose results come
/// back as plain text.
#[derive(Clone, Debug, PartialEq, Eq)]
pub enum Action {
    /// Send plain text to the chat.
    SendText(String),
    /// Send text with an interactive row of choices.
    SendChoice(String, Vec<Choice>),
    /// Acknowledge the pending callback so the UI stops waiting.
    AnswerCallback,
    /// Delete the rendered confirmation prompt message.
    DeletePrompt,
    /// Fetch the wallet's ETH balance and report it.
    FetchEthBalance,
    /// Fetch the ERC-20 token balances and report them.
    FetchTokenBalances,
    /// Fetch the gas price and spot price and report the fee estimates.
    FetchGas,
}

pub enum ActionV {
    SendText(Seq<char>),
    SendChoice(Seq<char>, Seq<ChoiceV>),
    AnswerCallback,
    DeletePrompt,
    FetchEthBalance,
    FetchTokenBalances,
    FetchGas,
}

impl View for Action {
    type V = ActionV;

    open spec fn view(&self) -> ActionV {
        match self {
            Action::SendText(t) => ActionV::SendText(t@),
            Action::SendChoice(t, cs) => ActionV::SendChoice(t@, cs.deep_view()),
            Action::AnswerCallback => ActionV::AnswerCallback,
            Action::DeletePrompt => ActionV::DeletePrompt,
            Action::FetchEthBalance => ActionV::FetchEthBalance,
            Action::FetchTokenBalances => ActionV::FetchTokenBalances,
            Action::FetchGas => ActionV::FetchGas,
        }
    }
}

impl DeepView for Action {
    type V = ActionV;

    open spec fn deep_view(&self) -> ActionV {
        self@
    }
}

/// The two options of the confirmation prompt, in rendering order.
pub open spec fn yes_no_options() -> Seq<ChoiceV> {
    seq![
        ChoiceV { label: "No"@, payload: "no"@ },
        ChoiceV { label: "Yes"@, payload: "yes"@ },
    ]
}

/// Builds the binary choice row shown under the confirmation question.
pub fn make_yes_no_keyboard() -> (r: Vec<Choice>)
    ensures
        r.deep_view() == yes_no_options(),
{
    let mut r: Vec<Choice> = Vec::new();
    r.push(Choice { label: String::from_str("No"), payload: String::from_str("no") });
    r.push(Choice { label: String::from_str("Yes"), payload: String::from_str("yes") });
    proof {
        assert(r.deep_view() =~~= yes_no_options());
    }
    r
}

/// The report for the wallet's ETH balance, already rendered as text.
pub open spec fn eth_balance_text(balance: Seq<char>) -> Seq<char> {
    "Your wallet balance is "@ + balance
}

/// Wraps a rendered balance in the report the chat receives.
pub fn eth_balance_message(balance: &str) -> (r: String)
    ensures
        r@ == eth_balance_text(balance@),
{
    let mut s = String::from_str("Your wallet balance is ");
    s.append(balance);
    s
}

/// The lines of the token-balance report, from entry `k` on.
pub open spec fn balance_lines(ls: Seq<Seq<char>>, k: int) -> Seq<char>
    decreases ls.len() - k when 0 <= k <= ls.len()
{
    if k >= ls.len() {
        Seq::empty()
    } else {
        "\n"@ + ls[k] + balance_lines(ls, k + 1)
    }
}

/// The token-balance report: a heading, then one line per rendered balance.
pub open spec fn token_balances_text(ls: Seq<Seq<char>>) -> Seq<char> {
    "ERC-20 Token balances:\n"@ + balance_lines(ls, 0)
}

/// Joins rendered token-balance lines into the report the chat receives.
pub fn format_token_balances(lines: &Vec<String>) -> (r: String)
    ensures
        r@ == token_balances_text(lines.deep_view()),
{
    let mut s = String::from_str("ERC-20 Token balances:\n");
    let mut i: usize = 0;
    while i < lines.len()
        invariant
            i <= lines.len(),
            s@ + balance_lines(lines.deep_view(), i as int) =~= token_balances_text(
                lines.deep_view(),
            ),
        decreases lines.len() - i,
    {
        let ghost dv = lines.deep_view();
        let ghost before = s@;
        s.append("\n");
        s.append(lines[i].as_str());
        proof {
            assert(dv[i as int] == lines@[i as int]@);
            assert(s@ =~= before + ("\n"@ + dv[i as int]));
            assert(s@ + balance_lines(dv, i + 1 as int) =~= before + balance_lines(dv, i as int));
        }
        i += 1;
    }
    proof {
        assert(s@ + balance_lines(lines.deep_view(), lines.len() as int) =~= s@);
    }
    s
}

} // verus!
