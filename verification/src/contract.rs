//! The entry points of the contract and the steps of one bet.

use vstd::prelude::*;
use crate::chain::{
    coins_view, Coin, Env, HandleResponse, HostAnswers, InitResponse, LogAttribute, Transfer,
};
use crate::error::{outcome_view, ContractError};
use crate::msg::{
    HandleMsg, InitMsg, LastWinnerResponse, LatestRandomResponse, OracleQuery, QueryMsg,
    TerrandQueryMsg,
};
use crate::rules;
use crate::rules::{lemma_sent_amount_skip, sent_amount, settlement_denom};
use crate::state::{config, config_read, last_winner, last_winner_read, Config, LastWinner, Store};

verus! {

/// A copy of an address in canonical form.
fn copy_bytes(bytes: &Vec<u8>) -> (copy: Vec<u8>)
    ensures
        copy@ == bytes@,
{
    let copy = bytes.clone();
    assert(copy@ =~= bytes@);
    copy
}

/// The settlement denomination, as an owned string.
fn settlement_denom_string() -> (denom: String)
    ensures
        denom@ == settlement_denom(),
{
    "uusd".to_owned()
}

/// What the caller attached in the settlement denomination: the amount of the
/// first such coin. Without one there is no bet.
pub fn get_sent_uusd(env: &Env) -> (res: Result<u128, ContractError>)
    ensures
        match res {
            Ok(sent) => sent_amount(env@.sent_funds, settlement_denom()) == Some(sent as nat),
            Err(e) => e == ContractError::InsufficientFunds && sent_amount(
                env@.sent_funds,
                settlement_denom(),
            ) is None,
        },
{
    let denom = settlement_denom_string();
    let ghost funds = env@.sent_funds;
    let mut i: usize = 0;
    while i < env.sent_funds.len()
        invariant
            0 <= i <= env.sent_funds.len(),
            funds == coins_view(env.sent_funds@),
            denom@ == settlement_denom(),
            forall|j: int| 0 <= j < i ==> funds[j].denom != settlement_denom(),
        decreases env.sent_funds.len() - i,
    {
        let coin: &Coin = &env.sent_funds[i];
        if coin.denom == denom {
            proof {
                lemma_sent_amount_skip(funds, settlement_denom(), i as int);
                assert(funds.skip(i as int)[0] == coin@);
            }
            return Ok(coin.amount);
        }
        i += 1;
    }
    proof {
        lemma_sent_amount_skip(funds, settlement_denom(), i as int);
        assert(funds.skip(i as int).len() == 0);
    }
    Err(ContractError::InsufficientFunds)
}

/// The first step of a bet. It fails with [`ContractError::State`] where the
/// contract was never initialized, and with
/// [`ContractError::InsufficientFunds`] where no coin of the settlement
/// denomination is attached or the attached amount is below the minimum.
/// Otherwise it names the oracle to ask. Nothing is written, and nothing of
/// the stake is handed back: all of it stays in the pot.
pub fn check_bet(store: &Store, env: &Env) -> (res: Result<OracleQuery, ContractError>)
    ensures
        outcome_view(res) == rules::check_bet(store@, env@),
{
    let settings: &Config = match config_read(store) {
        Some(settings) => settings,
        None => {
            return Err(ContractError::State);
        },
    };
    let sent: u128 = match get_sent_uusd(env) {
        Ok(sent) => sent,
        Err(e) => {
            return Err(e);
        },
    };
    if sent < settings.minimum_bet_amount {
        return Err(ContractError::InsufficientFunds);
    }
    Ok(
        OracleQuery {
            contract_addr: copy_bytes(&settings.terrand_address),
            msg: TerrandQueryMsg::LatestDrand {  },
        },
    )
}

/// The second step of a bet: whether `number` is the winning number of the
/// round that the oracle answered with. It fails with
/// [`ContractError::Oracle`] where there is no answer, and with
/// [`ContractError::Data`] where the randomness has fewer than two bytes. A
/// wrong guess is no failure: it gives `Ok(false)`, and the bet ends with the
/// empty response.
pub fn judge(number: u8, reply: &Option<LatestRandomResponse>) -> (res: Result<bool, ContractError>)
    ensures
        res == rules::judge(
            number,
            match *reply {
                Some(round) => Some(round@),
                None => None,
            },
        ),
{
    match reply {
        None => Err(ContractError::Oracle),
        Some(round) => {
            if round.randomness.len() < 2 {
                Err(ContractError::Data)
            } else {
                let winning: u8 = round.randomness[1];
                Ok(number == winning)
            }
        },
    }
}

/// The last step of a winning bet. The whole of `balance` goes to the caller
/// in one transfer, a balance of nothing included, and `winner`, the caller
/// in canonical form, replaces the last winner.
pub fn pay_out(store: &mut Store, env: &Env, winner: Vec<u8>, balance: u128) -> (res: HandleResponse)
    ensures
        (final(store)@, res@) == rules::pay_out(old(store)@, env@, winner@, balance as nat),
{
    let prize = Transfer {
        from_address: env.contract_address.clone(),
        to_address: env.sender.clone(),
        amount: Coin { denom: settlement_denom_string(), amount: balance },
    };
    let note = LogAttribute { key: "action".to_owned(), value: "guess_number".to_owned() };
    *last_winner(store) = Some(LastWinner { address: winner, pot_amount: balance });
    let res = HandleResponse { messages: vec![prize], log: vec![note] };
    proof {
        let expected = rules::win_response(env@, balance as nat);
        assert(res@.messages =~= expected.messages);
        assert(res@.log =~= expected.log);
    }
    res
}

/// One bet, settled against what the chain answers in `host`.
///
/// The steps are those of [`check_bet`], [`judge`] and [`pay_out`], in that
/// order, and the first failure ends the bet. Only a win writes: a refused
/// bet and a lost one leave the store as it was.
pub fn try_guess_number(store: &mut Store, env: &Env, number: u8, host: &HostAnswers) -> (res: Result<
    HandleResponse,
    ContractError,
>)
    ensures
        (final(store)@, outcome_view(res)) == rules::guess_number(old(store)@, env@, number, host@),
{
    match check_bet(store, env) {
        Err(e) => {
            return Err(e);
        },
        Ok(_) => {},
    }
    let won: bool = match judge(number, &host.latest_random) {
        Err(e) => {
            return Err(e);
        },
        Ok(won) => won,
    };
    if !won {
        return Ok(HandleResponse::default());
    }
    Ok(pay_out(store, env, copy_bytes(&host.sender), host.balance))
}

/// Carries out what `msg` asks for.
pub fn handle(store: &mut Store, env: &Env, msg: HandleMsg, host: &HostAnswers) -> (res: Result<
    HandleResponse,
    ContractError,
>)
    ensures
        (final(store)@, outcome_view(res)) == rules::handle(old(store)@, env@, msg, host@),
{
    match msg {
        HandleMsg::GuessNumber { number } => try_guess_number(store, env, number, host),
    }
}

/// Sets the contract up, or sets it up anew.
///
/// `owner` and `terrand_address` are the caller and the oracle of `msg` in
/// canonical form, each `None` where the chain has no canonical form for the
/// address. With both, the configuration is replaced whole; the last winner
/// stays. Without one of them the call fails with
/// [`ContractError::Validation`] and writes nothing.
pub fn init(
    store: &mut Store,
    owner: Option<Vec<u8>>,
    terrand_address: Option<Vec<u8>>,
    msg: &InitMsg,
) -> (res: Result<InitResponse, ContractError>)
    ensures
        (final(store)@, outcome_view(res)) == rules::init(
            old(store)@,
            match owner {
                Some(bytes) => Some(bytes@),
                None => None,
            },
            match terrand_address {
                Some(bytes) => Some(bytes@),
                None => None,
            },
            msg@,
        ),
{
    let owner: Vec<u8> = match owner {
        Some(owner) => owner,
        None => {
            return Err(ContractError::Validation);
        },
    };
    let terrand_address: Vec<u8> = match terrand_address {
        Some(terrand_address) => terrand_address,
        None => {
            return Err(ContractError::Validation);
        },
    };
    *config(store) = Some(
        Config { owner, terrand_address, minimum_bet_amount: msg.minimum_bet_amount },
    );
    Ok(InitResponse::default())
}

/// The record of the last winner. It fails with
/// [`ContractError::NotFound`] as long as nobody has won.
pub fn query_last_winner(store: &Store) -> (res: Result<LastWinner, ContractError>)
    ensures
        outcome_view(res) == rules::query_last_winner(store@),
{
    match last_winner_read(store) {
        Some(winner) => Ok(
            LastWinner { address: copy_bytes(&winner.address), pot_amount: winner.pot_amount },
        ),
        None => Err(ContractError::NotFound),
    }
}

/// Answers what `msg` asks.
pub fn query(store: &Store, msg: QueryMsg) -> (res: Result<LastWinner, ContractError>)
    ensures
        outcome_view(res) == rules::query(store@, msg),
{
    match msg {
        QueryMsg::LastWinner {  } => query_last_winner(store),
    }
}

/// The answer about `winner` for the caller, with `address` as the winner's
/// address in readable form.
pub fn last_winner_response(winner: &LastWinner, address: String) -> (res: LastWinnerResponse)
    ensures
        res@ == rules::last_winner_response(winner@, address@),
{
    LastWinnerResponse { address, pot_amount: winner.pot_amount }
}

} // verus!
