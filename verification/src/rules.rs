//! The rules of the game, as mathematics.
//!
//! Everything here is ghost code: the functions of this module say what the
//! executable code of the contract computes, and the theorems about the game
//! are stated over them.

use vstd::prelude::*;
use crate::chain::{
    CoinView, EnvView, HandleResponseView, HostAnswersView, InitResponseView, LogAttributeView,
    TransferView,
};
use crate::error::ContractError;
use crate::msg::{
    HandleMsg, InitMsgView, LastWinnerResponseView, LatestRandomResponseView, OracleQueryView,
    QueryMsg, TerrandQueryMsg,
};
use crate::state::{ConfigView, LastWinnerView, StoreView};

verus! {

/// The denomination in which stakes are counted and the pot is paid.
pub open spec fn settlement_denom() -> Seq<char> {
    "uusd"@
}

/// The amount of the first coin of `denom` among `funds`, if there is one.
pub open spec fn sent_amount(funds: Seq<CoinView>, denom: Seq<char>) -> Option<nat>
    decreases funds.len(),
{
    if funds.len() == 0 {
        None
    } else if funds[0].denom == denom {
        Some(funds[0].amount)
    } else {
        sent_amount(funds.drop_first(), denom)
    }
}

/// The stake that `funds` carry, in the settlement denomination: nothing
/// where no coin of it is attached.
pub open spec fn stake(funds: Seq<CoinView>) -> nat {
    match sent_amount(funds, settlement_denom()) {
        Some(amount) => amount,
        None => 0,
    }
}

/// Whether `funds` make a bet that `config` accepts: a coin of the settlement
/// denomination is attached, and it reaches the minimum.
pub open spec fn stake_accepted(config: ConfigView, funds: Seq<CoinView>) -> bool {
    match sent_amount(funds, settlement_denom()) {
        Some(amount) => amount >= config.minimum_bet_amount,
        None => false,
    }
}

/// The winning number of a round: the second byte of its randomness. A round
/// with fewer than two bytes has none.
pub open spec fn winning_number(randomness: Seq<u8>) -> Result<u8, ContractError> {
    if randomness.len() < 2 {
        Err(ContractError::Data)
    } else {
        Ok(randomness[1])
    }
}

/// Initialization: with both addresses in canonical form, the configuration
/// is replaced whole; without one of them, nothing is written.
pub open spec fn init(
    store: StoreView,
    owner: Option<Seq<u8>>,
    terrand_address: Option<Seq<u8>>,
    msg: InitMsgView,
) -> (StoreView, Result<InitResponseView, ContractError>) {
    if owner is Some && terrand_address is Some {
        (
            StoreView {
                config: Some(
                    ConfigView {
                        owner: owner->0,
                        terrand_address: terrand_address->0,
                        minimum_bet_amount: msg.minimum_bet_amount,
                    },
                ),
                last_winner: store.last_winner,
            },
            Ok(InitResponseView::empty()),
        )
    } else {
        (store, Err(ContractError::Validation))
    }
}

/// The first step of a bet: is the contract set up, and does the stake do?
/// If so, the oracle named in the configuration is to be asked for its
/// latest round.
pub open spec fn check_bet(store: StoreView, env: EnvView) -> Result<OracleQueryView, ContractError> {
    match store.config {
        None => Err(ContractError::State),
        Some(config) => if stake_accepted(config, env.sent_funds) {
            Ok(
                OracleQueryView {
                    contract_addr: config.terrand_address,
                    msg: TerrandQueryMsg::LatestDrand {  },
                },
            )
        } else {
            Err(ContractError::InsufficientFunds)
        },
    }
}

/// The second step of a bet: does `number` win against what the oracle
/// answered? `Ok(true)` is a win, `Ok(false)` a loss, which is no error.
pub open spec fn judge(number: u8, reply: Option<LatestRandomResponseView>) -> Result<
    bool,
    ContractError,
> {
    match reply {
        None => Err(ContractError::Oracle),
        Some(round) => match winning_number(round.randomness) {
            Ok(winning) => Ok(number == winning),
            Err(e) => Err(e),
        },
    }
}

/// The transfer that pays `balance` out of the contract to the caller.
pub open spec fn prize(env: EnvView, balance: nat) -> TransferView {
    TransferView {
        from_address: env.contract_address,
        to_address: env.sender,
        amount: CoinView { denom: settlement_denom(), amount: balance },
    }
}

/// What a winning bet hands back: the one transfer of the prize, and the
/// note of what was done.
pub open spec fn win_response(env: EnvView, balance: nat) -> HandleResponseView {
    HandleResponseView {
        messages: seq![prize(env, balance)],
        log: seq![LogAttributeView { key: "action"@, value: "guess_number"@ }],
    }
}

/// The last step of a winning bet: `winner` replaces the last winner, with
/// `balance` as the pot, and the whole of `balance` is paid to the caller.
pub open spec fn pay_out(store: StoreView, env: EnvView, winner: Seq<u8>, balance: nat) -> (
    StoreView,
    HandleResponseView,
) {
    (
        StoreView {
            config: store.config,
            last_winner: Some(LastWinnerView { address: winner, pot_amount: balance }),
        },
        win_response(env, balance),
    )
}

/// One bet from beginning to end, given what the chain answers: the store
/// afterwards, and what the caller gets.
pub open spec fn guess_number(store: StoreView, env: EnvView, number: u8, host: HostAnswersView) -> (
    StoreView,
    Result<HandleResponseView, ContractError>,
) {
    match check_bet(store, env) {
        Err(e) => (store, Err(e)),
        Ok(_) => match judge(number, host.latest_random) {
            Err(e) => (store, Err(e)),
            Ok(false) => (store, Ok(HandleResponseView::empty())),
            Ok(true) => {
                let (after, response) = pay_out(store, env, host.sender, host.balance);
                (after, Ok(response))
            },
        },
    }
}

/// One bet as the chain sees it: the call, the guess, and what the chain
/// answers while the bet is settled.
pub ghost struct Bet {
    pub env: EnvView,
    pub number: u8,
    pub host: HostAnswersView,
}

/// Whether `bet`, placed on `store`, wins.
pub open spec fn wins(store: StoreView, bet: Bet) -> bool {
    check_bet(store, bet.env) is Ok && judge(bet.number, bet.host.latest_random) == Ok::<
        bool,
        ContractError,
    >(true)
}

/// The store after `bet` was placed on `store`.
pub open spec fn after_bet(store: StoreView, bet: Bet) -> StoreView {
    guess_number(store, bet.env, bet.number, bet.host).0
}

/// The store after `bets` were placed on `store`, one after the other.
pub open spec fn after_bets(store: StoreView, bets: Seq<Bet>) -> StoreView {
    bets.fold_left(store, |before: StoreView, bet: Bet| after_bet(before, bet))
}

/// What [`HandleMsg`] asks for.
pub open spec fn handle(store: StoreView, env: EnvView, msg: HandleMsg, host: HostAnswersView) -> (
    StoreView,
    Result<HandleResponseView, ContractError>,
) {
    match msg {
        HandleMsg::GuessNumber { number } => guess_number(store, env, number, host),
    }
}

/// The record of the last winner, where there is one.
pub open spec fn query_last_winner(store: StoreView) -> Result<LastWinnerView, ContractError> {
    match store.last_winner {
        Some(winner) => Ok(winner),
        None => Err(ContractError::NotFound),
    }
}

/// What [`QueryMsg`] asks for.
pub open spec fn query(store: StoreView, msg: QueryMsg) -> Result<LastWinnerView, ContractError> {
    match msg {
        QueryMsg::LastWinner {  } => query_last_winner(store),
    }
}

/// The answer about `winner`, whose readable address is `address`.
pub open spec fn last_winner_response(winner: LastWinnerView, address: Seq<char>) -> LastWinnerResponseView {
    LastWinnerResponseView { address, pot_amount: winner.pot_amount }
}

/// Coins that come before the first one of `denom` do not count.
pub proof fn lemma_sent_amount_skip(funds: Seq<CoinView>, denom: Seq<char>, n: int)
    requires
        0 <= n <= funds.len(),
        forall|j: int| 0 <= j < n ==> funds[j].denom != denom,
    ensures
        sent_amount(funds, denom) == sent_amount(funds.skip(n), denom),
    decreases n,
{
    if n == 0 {
        assert(funds.skip(0) =~= funds);
    } else {
        let rest = funds.drop_first();
        assert forall|j: int| 0 <= j < n - 1 implies rest[j].denom != denom by {
            assert(rest[j] == funds[j + 1]);
        }
        lemma_sent_amount_skip(rest, denom, n - 1);
        assert(rest.skip(n - 1) =~= funds.skip(n));
    }
}

} // verus!
