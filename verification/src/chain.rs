//! What the chain hands to an invocation, and what an invocation hands back.
//!
//! Addresses come in two forms. The readable form is a string; the canonical
//! form is a sequence of bytes. Turning one into the other is the chain's
//! business: the library stores and compares them, and leaves the rest to
//! the chain.

use vstd::prelude::*;
use crate::msg::{LatestRandomResponse, LatestRandomResponseView};

verus! {

/// An amount of one denomination of the native token, in its smallest unit.
#[derive(Clone, Debug, PartialEq)]
pub struct Coin {
    pub denom: String,
    pub amount: u128,
}

/// A [`Coin`] as a mathematical value.
pub ghost struct CoinView {
    pub denom: Seq<char>,
    pub amount: nat,
}

impl View for Coin {
    type V = CoinView;

    open spec fn view(&self) -> CoinView {
        CoinView { denom: self.denom@, amount: self.amount as nat }
    }
}

/// The coins of a vector, each as a mathematical value, in the same order.
pub open spec fn coins_view(coins: Seq<Coin>) -> Seq<CoinView> {
    coins.map_values(|c: Coin| c@)
}

/// The circumstances of one invocation: who calls, what they attached, and
/// which account the contract itself holds.
#[derive(Clone, Debug, PartialEq)]
pub struct Env {
    /// The caller, in readable form.
    pub sender: String,
    /// The coins attached to the call. The chain has already credited them to
    /// the contract when the invocation starts.
    pub sent_funds: Vec<Coin>,
    /// The contract's own account, in readable form.
    pub contract_address: String,
}

/// An [`Env`] as a mathematical value.
pub ghost struct EnvView {
    pub sender: Seq<char>,
    pub sent_funds: Seq<CoinView>,
    pub contract_address: Seq<char>,
}

impl View for Env {
    type V = EnvView;

    open spec fn view(&self) -> EnvView {
        EnvView {
            sender: self.sender@,
            sent_funds: coins_view(self.sent_funds@),
            contract_address: self.contract_address@,
        }
    }
}

/// What the chain answers while one bet is settled. A bet that is refused
/// early never asks for what comes later: the answers it did not ask for are
/// not looked at.
#[derive(Clone, Debug, PartialEq)]
pub struct HostAnswers {
    /// The oracle's latest round; `None` where the oracle could not be
    /// reached or its answer could not be read.
    pub latest_random: Option<LatestRandomResponse>,
    /// The caller, in canonical form.
    pub sender: Vec<u8>,
    /// The contract's balance in the settlement denomination. It already
    /// holds what the caller attached.
    pub balance: u128,
}

/// [`HostAnswers`] as a mathematical value.
pub ghost struct HostAnswersView {
    pub latest_random: Option<LatestRandomResponseView>,
    pub sender: Seq<u8>,
    pub balance: nat,
}

impl View for HostAnswers {
    type V = HostAnswersView;

    open spec fn view(&self) -> HostAnswersView {
        HostAnswersView {
            latest_random: match self.latest_random {
                Some(round) => Some(round@),
                None => None,
            },
            sender: self.sender@,
            balance: self.balance as nat,
        }
    }
}

/// An instruction to the bank: move `amount` from one account to another.
/// The contract only emits it; the chain carries it out or undoes the whole
/// invocation.
#[derive(Clone, Debug, PartialEq)]
pub struct Transfer {
    pub from_address: String,
    pub to_address: String,
    pub amount: Coin,
}

/// A [`Transfer`] as a mathematical value.
pub ghost struct TransferView {
    pub from_address: Seq<char>,
    pub to_address: Seq<char>,
    pub amount: CoinView,
}

impl View for Transfer {
    type V = TransferView;

    open spec fn view(&self) -> TransferView {
        TransferView {
            from_address: self.from_address@,
            to_address: self.to_address@,
            amount: self.amount@,
        }
    }
}

/// One entry of the record that an invocation leaves for observers.
#[derive(Clone, Debug, PartialEq)]
pub struct LogAttribute {
    pub key: String,
    pub value: String,
}

/// A [`LogAttribute`] as a mathematical value.
pub ghost struct LogAttributeView {
    pub key: Seq<char>,
    pub value: Seq<char>,
}

impl View for LogAttribute {
    type V = LogAttributeView;

    open spec fn view(&self) -> LogAttributeView {
        LogAttributeView { key: self.key@, value: self.value@ }
    }
}

/// What a successful bet hands back to the chain.
#[derive(Clone, Debug, PartialEq)]
pub struct HandleResponse {
    /// The transfers to carry out, in order.
    pub messages: Vec<Transfer>,
    /// The record left for observers.
    pub log: Vec<LogAttribute>,
}

/// A [`HandleResponse`] as a mathematical value.
pub ghost struct HandleResponseView {
    pub messages: Seq<TransferView>,
    pub log: Seq<LogAttributeView>,
}

impl HandleResponseView {
    /// The response that asks nothing of the chain and records nothing.
    pub open spec fn empty() -> HandleResponseView {
        HandleResponseView { messages: Seq::empty(), log: Seq::empty() }
    }
}

impl View for HandleResponse {
    type V = HandleResponseView;

    open spec fn view(&self) -> HandleResponseView {
        HandleResponseView {
            messages: self.messages@.map_values(|m: Transfer| m@),
            log: self.log@.map_values(|l: LogAttribute| l@),
        }
    }
}

impl Default for HandleResponse {
    fn default() -> (res: HandleResponse)
        ensures
            res@ == HandleResponseView::empty(),
    {
        let res = HandleResponse { messages: Vec::new(), log: Vec::new() };
        assert(res@.messages =~= Seq::empty() && res@.log =~= Seq::empty());
        res
    }
}

/// What a successful initialization hands back to the chain.
#[derive(Clone, Debug, PartialEq)]
pub struct InitResponse {
    /// The transfers to carry out, in order.
    pub messages: Vec<Transfer>,
    /// The record left for observers.
    pub log: Vec<LogAttribute>,
}

/// An [`InitResponse`] as a mathematical value.
pub ghost struct InitResponseView {
    pub messages: Seq<TransferView>,
    pub log: Seq<LogAttributeView>,
}

impl InitResponseView {
    /// The response that asks nothing of the chain and records nothing.
    pub open spec fn empty() -> InitResponseView {
        InitResponseView { messages: Seq::empty(), log: Seq::empty() }
    }
}

impl View for InitResponse {
    type V = InitResponseView;

    open spec fn view(&self) -> InitResponseView {
        InitResponseView {
            messages: self.messages@.map_values(|m: Transfer| m@),
            log: self.log@.map_values(|l: LogAttribute| l@),
        }
    }
}

impl Default for InitResponse {
    fn default() -> (res: InitResponse)
        ensures
            res@ == InitResponseView::empty(),
    {
        let res = InitResponse { messages: Vec::new(), log: Vec::new() };
        assert(res@.messages =~= Seq::empty() && res@.log =~= Seq::empty());
        res
    }
}

} // verus!
