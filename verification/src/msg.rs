//! The messages that the contract takes and gives, and those it sends to the
//! oracle.

use vstd::prelude::*;

verus! {

/// Sets the contract up.
#[derive(Clone, Debug, PartialEq)]
pub struct InitMsg {
    /// The randomness oracle, in readable form.
    pub terrand_address: String,
    /// The smallest stake that a bet may carry.
    pub minimum_bet_amount: u128,
}

/// An [`InitMsg`] as a mathematical value.
pub ghost struct InitMsgView {
    pub terrand_address: Seq<char>,
    pub minimum_bet_amount: nat,
}

impl View for InitMsg {
    type V = InitMsgView;

    open spec fn view(&self) -> InitMsgView {
        InitMsgView {
            terrand_address: self.terrand_address@,
            minimum_bet_amount: self.minimum_bet_amount as nat,
        }
    }
}

/// What a caller can ask the contract to do.
#[derive(Clone, Debug, PartialEq)]
pub enum HandleMsg {
    /// Bet that `number` is the winning number of the oracle's latest round.
    GuessNumber { number: u8 },
}

/// What a caller can ask the contract to tell.
#[derive(Clone, Debug, PartialEq)]
pub enum QueryMsg {
    /// Who won last, and how much.
    LastWinner {},
}

/// The answer to [`QueryMsg::LastWinner`].
#[derive(Clone, Debug, PartialEq)]
pub struct LastWinnerResponse {
    /// The winner, in readable form.
    pub address: String,
    /// What the winner was paid.
    pub pot_amount: u128,
}

/// A [`LastWinnerResponse`] as a mathematical value.
pub ghost struct LastWinnerResponseView {
    pub address: Seq<char>,
    pub pot_amount: nat,
}

impl View for LastWinnerResponse {
    type V = LastWinnerResponseView;

    open spec fn view(&self) -> LastWinnerResponseView {
        LastWinnerResponseView { address: self.address@, pot_amount: self.pot_amount as nat }
    }
}

/// What the contract asks the oracle.
#[derive(Clone, Debug, PartialEq)]
pub enum TerrandQueryMsg {
    /// The latest round of randomness.
    LatestDrand {},
}

/// A question for the oracle: whom to ask, and what.
#[derive(Clone, Debug, PartialEq)]
pub struct OracleQuery {
    /// The oracle, in canonical form.
    pub contract_addr: Vec<u8>,
    /// The question.
    pub msg: TerrandQueryMsg,
}

/// An [`OracleQuery`] as a mathematical value.
pub ghost struct OracleQueryView {
    pub contract_addr: Seq<u8>,
    pub msg: TerrandQueryMsg,
}

impl View for OracleQuery {
    type V = OracleQueryView;

    open spec fn view(&self) -> OracleQueryView {
        OracleQueryView { contract_addr: self.contract_addr@, msg: self.msg }
    }
}

/// The oracle's answer to [`TerrandQueryMsg::LatestDrand`].
#[derive(Clone, Debug, PartialEq)]
pub struct LatestRandomResponse {
    /// The number of the round.
    pub round: u64,
    /// The randomness of the round.
    pub randomness: Vec<u8>,
    /// Who delivered the round to the oracle.
    pub worker: String,
}

/// A [`LatestRandomResponse`] as a mathematical value.
pub ghost struct LatestRandomResponseView {
    pub round: nat,
    pub randomness: Seq<u8>,
    pub worker: Seq<char>,
}

impl View for LatestRandomResponse {
    type V = LatestRandomResponseView;

    open spec fn view(&self) -> LatestRandomResponseView {
        LatestRandomResponseView {
            round: self.round as nat,
            randomness: self.randomness@,
            worker: self.worker@,
        }
    }
}

} // verus!
