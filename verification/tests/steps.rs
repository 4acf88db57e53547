use guess_lottery::chain::{Coin, Env, HandleResponse, LogAttribute, Transfer};
use guess_lottery::contract::{check_bet, judge, pay_out};
use guess_lottery::error::ContractError;
use guess_lottery::msg::{LatestRandomResponse, OracleQuery, TerrandQueryMsg};
use guess_lottery::state::{Config, LastWinner, Store};

fn bettor(funds: Vec<Coin>) -> Env {
    Env {
        sender: "terra1alice".to_string(),
        sent_funds: funds,
        contract_address: "terra1pot".to_string(),
    }
}

fn uusd(amount: u128) -> Coin {
    Coin { denom: "uusd".to_string(), amount }
}

fn set_up(minimum_bet_amount: u128) -> Store {
    Store {
        config: Some(Config {
            owner: vec![1, 2, 3],
            terrand_address: vec![9, 8, 7, 6],
            minimum_bet_amount,
        }),
        last_winner: None,
    }
}

fn reply(randomness: Vec<u8>) -> Option<LatestRandomResponse> {
    Some(LatestRandomResponse { round: 1, randomness, worker: String::new() })
}

#[test]
fn check_bet_names_the_configured_oracle() {
    let store = set_up(50);
    let res = check_bet(&store, &bettor(vec![uusd(50)]));
    assert_eq!(
        res,
        Ok(OracleQuery { contract_addr: vec![9, 8, 7, 6], msg: TerrandQueryMsg::LatestDrand {} })
    );
}

#[test]
fn check_bet_refuses_what_the_rules_refuse() {
    assert_eq!(check_bet(&Store::new(), &bettor(vec![uusd(50)])), Err(ContractError::State));
    assert_eq!(check_bet(&Store::new(), &bettor(vec![])), Err(ContractError::State));
    assert_eq!(check_bet(&set_up(50), &bettor(vec![])), Err(ContractError::InsufficientFunds));
    assert_eq!(
        check_bet(&set_up(50), &bettor(vec![uusd(49)])),
        Err(ContractError::InsufficientFunds)
    );
    assert_eq!(
        check_bet(&set_up(u128::MAX), &bettor(vec![uusd(u128::MAX - 1)])),
        Err(ContractError::InsufficientFunds)
    );
    assert!(check_bet(&set_up(u128::MAX), &bettor(vec![uusd(u128::MAX)])).is_ok());
    assert!(check_bet(&set_up(0), &bettor(vec![uusd(0)])).is_ok());
}

#[test]
fn judge_compares_with_the_second_byte() {
    assert_eq!(judge(42, &reply(vec![5, 42])), Ok(true));
    assert_eq!(judge(42, &reply(vec![5, 42, 42, 42])), Ok(true));
    assert_eq!(judge(10, &reply(vec![5, 42])), Ok(false));
    assert_eq!(judge(5, &reply(vec![5, 42])), Ok(false));
    assert_eq!(judge(0, &reply(vec![255, 0])), Ok(true));
    assert_eq!(judge(255, &reply(vec![0, 255])), Ok(true));
}

#[test]
fn judge_fails_without_enough_randomness() {
    assert_eq!(judge(42, &None), Err(ContractError::Oracle));
    assert_eq!(judge(42, &reply(vec![])), Err(ContractError::Data));
    assert_eq!(judge(42, &reply(vec![42])), Err(ContractError::Data));
}

#[test]
fn pay_out_moves_the_balance_and_records_the_winner() {
    let mut store = set_up(50);
    let env = bettor(vec![uusd(50)]);

    let res = pay_out(&mut store, &env, vec![0xAA, 0xBB], 750);

    assert_eq!(
        res,
        HandleResponse {
            messages: vec![Transfer {
                from_address: "terra1pot".to_string(),
                to_address: "terra1alice".to_string(),
                amount: uusd(750),
            }],
            log: vec![LogAttribute {
                key: "action".to_string(),
                value: "guess_number".to_string()
            }],
        }
    );
    assert_eq!(store.last_winner, Some(LastWinner { address: vec![0xAA, 0xBB], pot_amount: 750 }));
    assert_eq!(store.config, set_up(50).config);
}

#[test]
fn steps_in_a_row_settle_a_winning_bet() {
    let mut store = set_up(1_000_000);
    let env = bettor(vec![uusd(1_000_000)]);

    let query = check_bet(&store, &env).unwrap();
    assert_eq!(query.contract_addr, vec![9, 8, 7, 6]);
    let won = judge(42, &reply(vec![0x05, 0x2A])).unwrap();
    assert!(won);
    let res = pay_out(&mut store, &env, vec![7, 7], 5_000_000);

    assert_eq!(res.messages.len(), 1);
    assert_eq!(res.messages[0].amount, uusd(5_000_000));
    assert_eq!(res.messages[0].to_address, "terra1alice");
    assert_eq!(store.last_winner, Some(LastWinner { address: vec![7, 7], pot_amount: 5_000_000 }));
}
