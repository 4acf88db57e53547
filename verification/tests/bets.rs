use guess_lottery::chain::{
    Coin, Env, HandleResponse, HostAnswers, LogAttribute, Transfer,
};
use guess_lottery::contract::{get_sent_uusd, handle, try_guess_number};
use guess_lottery::error::ContractError;
use guess_lottery::msg::{HandleMsg, LatestRandomResponse};
use guess_lottery::state::{Config, LastWinner, Store};

fn coin(amount: u128, denom: &str) -> Coin {
    Coin { denom: denom.to_string(), amount }
}

fn env_with(funds: Vec<Coin>) -> Env {
    Env {
        sender: "terra1bettor".to_string(),
        sent_funds: funds,
        contract_address: "terra1lottery".to_string(),
    }
}

fn config_with(minimum_bet_amount: u128) -> Config {
    Config {
        owner: b"owner-canonical".to_vec(),
        terrand_address: b"oracle-canonical".to_vec(),
        minimum_bet_amount,
    }
}

fn store_with(minimum_bet_amount: u128) -> Store {
    Store { config: Some(config_with(minimum_bet_amount)), last_winner: None }
}

fn round(randomness: Vec<u8>) -> Option<LatestRandomResponse> {
    Some(LatestRandomResponse { round: 7, randomness, worker: "terra1worker".to_string() })
}

fn host_with(randomness: Vec<u8>, balance: u128) -> HostAnswers {
    HostAnswers { latest_random: round(randomness), sender: b"bettor-canonical".to_vec(), balance }
}

fn prize_response(balance: u128) -> HandleResponse {
    HandleResponse {
        messages: vec![Transfer {
            from_address: "terra1lottery".to_string(),
            to_address: "terra1bettor".to_string(),
            amount: coin(balance, "uusd"),
        }],
        log: vec![LogAttribute { key: "action".to_string(), value: "guess_number".to_string() }],
    }
}

fn empty_response() -> HandleResponse {
    HandleResponse { messages: vec![], log: vec![] }
}

#[test]
fn right_guess_takes_the_whole_balance() {
    let mut store = store_with(1_000_000);
    let env = env_with(vec![coin(1_000_000, "uusd")]);
    let host = host_with(vec![0x05, 0x2A, 0x99, 0x01], 5_000_000);

    let res = try_guess_number(&mut store, &env, 42, &host);

    assert_eq!(res, Ok(prize_response(5_000_000)));
    assert_eq!(
        store.last_winner,
        Some(LastWinner { address: b"bettor-canonical".to_vec(), pot_amount: 5_000_000 })
    );
    assert_eq!(store.config, Some(config_with(1_000_000)));
}

#[test]
fn wrong_guess_under_the_same_conditions_changes_nothing() {
    let mut store = store_with(1_000_000);
    let env = env_with(vec![coin(1_000_000, "uusd")]);
    let host = host_with(vec![0x05, 0x2A, 0x99, 0x01], 5_000_000);

    let res = try_guess_number(&mut store, &env, 10, &host);

    assert_eq!(res, Ok(empty_response()));
    assert_eq!(store, store_with(1_000_000));
}

#[test]
fn wrong_guess_keeps_an_earlier_winner() {
    let earlier = LastWinner { address: b"someone".to_vec(), pot_amount: 77 };
    let mut store = Store { config: Some(config_with(10)), last_winner: Some(earlier.clone()) };
    let env = env_with(vec![coin(10, "uusd")]);
    let host = host_with(vec![1, 2], 500);

    let first = try_guess_number(&mut store, &env, 3, &host);
    let second = try_guess_number(&mut store, &env, 3, &host);

    assert_eq!(first, Ok(empty_response()));
    assert_eq!(second, Ok(empty_response()));
    assert_eq!(store.last_winner, Some(earlier));
}

#[test]
fn the_winning_number_is_the_second_byte_only() {
    let env = env_with(vec![coin(10, "uusd")]);
    let host = host_with(vec![200, 201, 202], 9);
    for number in [200u8, 202u8] {
        let mut store = store_with(10);
        assert_eq!(try_guess_number(&mut store, &env, number, &host), Ok(empty_response()));
        assert_eq!(store.last_winner, None);
    }
    let mut store = store_with(10);
    assert_eq!(try_guess_number(&mut store, &env, 201, &host), Ok(prize_response(9)));
}

#[test]
fn the_winning_number_spans_the_whole_byte() {
    let env = env_with(vec![coin(10, "uusd")]);
    for winning in [0u8, 255u8] {
        let mut store = store_with(10);
        let host = host_with(vec![17, winning], 1234);
        assert_eq!(try_guess_number(&mut store, &env, winning, &host), Ok(prize_response(1234)));
    }
}

#[test]
fn a_new_win_replaces_the_last_winner() {
    let mut store = Store {
        config: Some(config_with(10)),
        last_winner: Some(LastWinner { address: b"someone".to_vec(), pot_amount: 77 }),
    };
    let env = env_with(vec![coin(10, "uusd")]);
    let host = host_with(vec![1, 2], 500);

    assert_eq!(try_guess_number(&mut store, &env, 2, &host), Ok(prize_response(500)));
    assert_eq!(
        store.last_winner,
        Some(LastWinner { address: b"bettor-canonical".to_vec(), pot_amount: 500 })
    );
}

#[test]
fn an_empty_pot_is_paid_out_as_nothing() {
    let mut store = store_with(0);
    let env = env_with(vec![coin(0, "uusd")]);
    let host = host_with(vec![0, 0], 0);

    assert_eq!(try_guess_number(&mut store, &env, 0, &host), Ok(prize_response(0)));
    assert_eq!(
        store.last_winner,
        Some(LastWinner { address: b"bettor-canonical".to_vec(), pot_amount: 0 })
    );
}

#[test]
fn the_largest_balance_is_paid_out_whole() {
    let mut store = store_with(1);
    let env = env_with(vec![coin(u128::MAX, "uusd")]);
    let host = host_with(vec![9, 9], u128::MAX);

    assert_eq!(try_guess_number(&mut store, &env, 9, &host), Ok(prize_response(u128::MAX)));
}

#[test]
fn stake_below_the_minimum_is_refused() {
    let earlier = LastWinner { address: b"someone".to_vec(), pot_amount: 77 };
    let mut store =
        Store { config: Some(config_with(1_000_000)), last_winner: Some(earlier.clone()) };
    let env = env_with(vec![coin(999_999, "uusd")]);
    let host = host_with(vec![5, 42], 5_000_000);

    let res = try_guess_number(&mut store, &env, 42, &host);

    assert_eq!(res, Err(ContractError::InsufficientFunds));
    assert_eq!(store.last_winner, Some(earlier));
    assert_eq!(store.config, Some(config_with(1_000_000)));
}

#[test]
fn stake_at_the_minimum_is_accepted() {
    let mut store = store_with(1_000_000);
    let env = env_with(vec![coin(1_000_000, "uusd")]);
    let host = host_with(vec![5, 42], 1_000_000);
    assert_eq!(try_guess_number(&mut store, &env, 42, &host), Ok(prize_response(1_000_000)));
}

#[test]
fn stake_above_the_minimum_is_kept_whole() {
    let mut store = store_with(1_000_000);
    let env = env_with(vec![coin(3_000_000, "uusd")]);
    let host = host_with(vec![5, 42], 9_000_000);
    assert_eq!(try_guess_number(&mut store, &env, 1, &host), Ok(empty_response()));
}

#[test]
fn no_funds_at_all_is_refused() {
    let mut store = store_with(0);
    let env = env_with(vec![]);
    let host = host_with(vec![5, 42], 5_000_000);
    assert_eq!(
        try_guess_number(&mut store, &env, 42, &host),
        Err(ContractError::InsufficientFunds)
    );
    assert_eq!(store, store_with(0));
}

#[test]
fn funds_of_another_denomination_do_not_count() {
    let mut store = store_with(100);
    let env = env_with(vec![coin(1_000_000, "uluna"), coin(1_000_000, "UUSD")]);
    let host = host_with(vec![5, 42], 5_000_000);
    assert_eq!(
        try_guess_number(&mut store, &env, 42, &host),
        Err(ContractError::InsufficientFunds)
    );
}

#[test]
fn sent_amount_is_that_of_the_first_coin_of_the_denomination() {
    assert_eq!(get_sent_uusd(&env_with(vec![])), Err(ContractError::InsufficientFunds));
    assert_eq!(
        get_sent_uusd(&env_with(vec![coin(5, "uluna")])),
        Err(ContractError::InsufficientFunds)
    );
    assert_eq!(get_sent_uusd(&env_with(vec![coin(5, "uusd")])), Ok(5));
    assert_eq!(get_sent_uusd(&env_with(vec![coin(0, "uusd")])), Ok(0));
    assert_eq!(
        get_sent_uusd(&env_with(vec![coin(1, "uluna"), coin(2, "ukrw"), coin(3, "uusd")])),
        Ok(3)
    );
    assert_eq!(
        get_sent_uusd(&env_with(vec![coin(4, "uusd"), coin(9, "uusd"), coin(1, "uluna")])),
        Ok(4)
    );
    assert_eq!(
        get_sent_uusd(&env_with(vec![coin(4, "uusd "), coin(9, "uus"), coin(1, "")])),
        Err(ContractError::InsufficientFunds)
    );
}

#[test]
fn only_the_first_coin_of_the_denomination_is_the_stake() {
    let host = host_with(vec![5, 42], 5_000_000);

    let mut store = store_with(100);
    let low_first = env_with(vec![coin(99, "uusd"), coin(1_000, "uusd")]);
    assert_eq!(
        try_guess_number(&mut store, &low_first, 42, &host),
        Err(ContractError::InsufficientFunds)
    );

    let high_first = env_with(vec![coin(1_000, "uusd"), coin(99, "uusd")]);
    assert_eq!(try_guess_number(&mut store, &high_first, 42, &host), Ok(prize_response(5_000_000)));
}

#[test]
fn short_randomness_is_a_data_error() {
    let env = env_with(vec![coin(10, "uusd")]);
    for randomness in [vec![], vec![42u8]] {
        let mut store = store_with(10);
        let host = host_with(randomness, 500);
        assert_eq!(try_guess_number(&mut store, &env, 42, &host), Err(ContractError::Data));
        assert_eq!(store, store_with(10));
    }
}

#[test]
fn two_bytes_of_randomness_are_enough() {
    let mut store = store_with(10);
    let env = env_with(vec![coin(10, "uusd")]);
    let host = host_with(vec![0, 42], 500);
    assert_eq!(try_guess_number(&mut store, &env, 42, &host), Ok(prize_response(500)));
}

#[test]
fn a_silent_oracle_is_an_oracle_error() {
    let mut store = store_with(10);
    let env = env_with(vec![coin(10, "uusd")]);
    let host = HostAnswers { latest_random: None, sender: b"bettor-canonical".to_vec(), balance: 500 };
    assert_eq!(try_guess_number(&mut store, &env, 42, &host), Err(ContractError::Oracle));
    assert_eq!(store, store_with(10));
}

#[test]
fn an_uninitialized_contract_takes_no_bets() {
    let mut store = Store::new();
    let env = env_with(vec![coin(10, "uusd")]);
    let host = host_with(vec![5, 42], 500);
    assert_eq!(try_guess_number(&mut store, &env, 42, &host), Err(ContractError::State));
    assert_eq!(store, Store { config: None, last_winner: None });
}

#[test]
fn failures_come_in_the_order_of_the_steps() {
    let silent = HostAnswers { latest_random: None, sender: vec![], balance: 0 };
    let short = host_with(vec![1], 0);
    let no_funds = env_with(vec![]);
    let funded = env_with(vec![coin(10, "uusd")]);

    let mut store = Store::new();
    assert_eq!(try_guess_number(&mut store, &no_funds, 1, &silent), Err(ContractError::State));

    let mut store = store_with(10);
    assert_eq!(
        try_guess_number(&mut store, &no_funds, 1, &silent),
        Err(ContractError::InsufficientFunds)
    );
    assert_eq!(
        try_guess_number(&mut store, &no_funds, 1, &short),
        Err(ContractError::InsufficientFunds)
    );
    assert_eq!(try_guess_number(&mut store, &funded, 1, &silent), Err(ContractError::Oracle));
    assert_eq!(try_guess_number(&mut store, &funded, 1, &short), Err(ContractError::Data));
}

#[test]
fn handle_settles_a_guess() {
    let env = env_with(vec![coin(1_000_000, "uusd")]);
    let host = host_with(vec![0x05, 0x2A], 5_000_000);

    let mut store = store_with(1_000_000);
    let won = handle(&mut store, &env, HandleMsg::GuessNumber { number: 42 }, &host);
    assert_eq!(won, Ok(prize_response(5_000_000)));
    assert_eq!(
        store.last_winner,
        Some(LastWinner { address: b"bettor-canonical".to_vec(), pot_amount: 5_000_000 })
    );

    let mut store = store_with(1_000_000);
    let lost = handle(&mut store, &env, HandleMsg::GuessNumber { number: 10 }, &host);
    assert_eq!(lost, Ok(empty_response()));
    assert_eq!(store.last_winner, None);

    let mut store = Store::new();
    let refused = handle(&mut store, &env, HandleMsg::GuessNumber { number: 42 }, &host);
    assert_eq!(refused, Err(ContractError::State));
}
