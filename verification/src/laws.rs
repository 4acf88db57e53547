//! What holds of the game, whatever is bet and whatever the chain answers.
//!
//! The theorems are stated over the functions of [`crate::rules`], which the
//! contracts of the executable code are stated over too.

use vstd::prelude::*;
use crate::chain::{CoinView, EnvView, HandleResponseView, HostAnswersView};
use crate::error::ContractError;
use crate::msg::InitMsgView;
use crate::rules::{
    after_bet, after_bets, check_bet, guess_number, init, prize, query_last_winner,
    sent_amount, settlement_denom, stake, win_response, wins, Bet,
};
use crate::state::{ConfigView, LastWinnerView, StoreView};

verus! {

/// The amount that counts is that of the first coin of the denomination:
/// `sent_amount` gives `amount` exactly when some coin of `denom` carries it
/// and no coin before that one is of `denom`; it gives nothing exactly when
/// no coin is of `denom`.
pub proof fn law_sent_amount_is_first(funds: Seq<CoinView>, denom: Seq<char>)
    ensures
        sent_amount(funds, denom) is None <==> forall|i: int|
            0 <= i < funds.len() ==> funds[i].denom != denom,
        forall|amount: nat|
            sent_amount(funds, denom) == Some(amount) <==> exists|i: int|
                0 <= i < funds.len() && #[trigger] funds[i].denom == denom && funds[i].amount
                    == amount && forall|j: int| 0 <= j < i ==> funds[j].denom != denom,
    decreases funds.len(),
{
    if funds.len() == 0 {
    } else if funds[0].denom == denom {
        assert forall|amount: nat|
            (exists|i: int|
                0 <= i < funds.len() && #[trigger] funds[i].denom == denom && funds[i].amount
                    == amount && forall|j: int|
                    0 <= j < i ==> funds[j].denom != denom) implies sent_amount(funds, denom)
            == Some(amount) by {
            let i = choose|i: int|
                0 <= i < funds.len() && #[trigger] funds[i].denom == denom && funds[i].amount
                    == amount && forall|j: int| 0 <= j < i ==> funds[j].denom != denom;
            if i > 0 {
                assert(funds[0].denom != denom);
            }
        }
    } else {
        let rest = funds.drop_first();
        law_sent_amount_is_first(rest, denom);
        assert forall|i: int| 0 <= i < funds.len() && sent_amount(funds, denom) is None implies
            funds[i].denom != denom by {
            if i > 0 {
                assert(rest[i - 1] == funds[i]);
            }
        }
        if forall|i: int| 0 <= i < funds.len() ==> funds[i].denom != denom {
            assert forall|i: int| 0 <= i < rest.len() implies rest[i].denom != denom by {
                assert(rest[i] == funds[i + 1]);
            }
        }
        assert forall|amount: nat|
            sent_amount(funds, denom) == Some(amount) <==> exists|i: int|
                0 <= i < funds.len() && #[trigger] funds[i].denom == denom && funds[i].amount
                    == amount && forall|j: int| 0 <= j < i ==> funds[j].denom != denom by {
            if sent_amount(funds, denom) == Some(amount) {
                let k = choose|k: int|
                    0 <= k < rest.len() && #[trigger] rest[k].denom == denom && rest[k].amount
                        == amount && forall|j: int| 0 <= j < k ==> rest[j].denom != denom;
                assert(rest[k] == funds[k + 1]);
                assert forall|j: int| 0 <= j < k + 1 implies funds[j].denom != denom by {
                    if j > 0 {
                        assert(rest[j - 1] == funds[j]);
                    }
                }
                assert(funds[k + 1].denom == denom);
            }
            if exists|i: int|
                0 <= i < funds.len() && #[trigger] funds[i].denom == denom && funds[i].amount
                    == amount && forall|j: int| 0 <= j < i ==> funds[j].denom != denom {
                let i = choose|i: int|
                    0 <= i < funds.len() && #[trigger] funds[i].denom == denom && funds[i].amount
                        == amount && forall|j: int| 0 <= j < i ==> funds[j].denom != denom;
                assert(i > 0);
                assert(rest[i - 1] == funds[i]);
                assert forall|j: int| 0 <= j < i - 1 implies rest[j].denom != denom by {
                    assert(rest[j] == funds[j + 1]);
                }
                assert(rest[i - 1].denom == denom);
            }
        }
    }
}

/// A bet whose stake is below the configured minimum fails with
/// `InsufficientFunds`, whatever the guess and whatever the chain would
/// answer, and leaves the store, the last winner with it, as it was.
pub proof fn law_low_stake_is_refused(store: StoreView, env: EnvView, number: u8, host: HostAnswersView)
    requires
        store.config is Some,
        stake(env.sent_funds) < store.config->0.minimum_bet_amount,
    ensures
        guess_number(store, env, number, host) == (
            store,
            Err::<HandleResponseView, ContractError>(ContractError::InsufficientFunds),
        ),
{
}

/// A bet without a coin of the settlement denomination fails with
/// `InsufficientFunds` whatever the minimum is, a minimum of nothing included,
/// and leaves the store as it was.
pub proof fn law_no_stake_is_refused(store: StoreView, env: EnvView, number: u8, host: HostAnswersView)
    requires
        store.config is Some,
        sent_amount(env.sent_funds, settlement_denom()) is None,
    ensures
        guess_number(store, env, number, host) == (
            store,
            Err::<HandleResponseView, ContractError>(ContractError::InsufficientFunds),
        ),
{
}

/// A bet on a contract that was never initialized fails with `State` and
/// leaves the store as it was.
pub proof fn law_uninitialized_takes_no_bets(
    store: StoreView,
    env: EnvView,
    number: u8,
    host: HostAnswersView,
)
    requires
        store.config is None,
    ensures
        guess_number(store, env, number, host) == (
            store,
            Err::<HandleResponseView, ContractError>(ContractError::State),
        ),
{
}

/// An accepted bet fails with `Oracle` when the oracle gives no answer, and
/// leaves the store as it was.
pub proof fn law_silent_oracle_is_refused(
    store: StoreView,
    env: EnvView,
    number: u8,
    host: HostAnswersView,
)
    requires
        check_bet(store, env) is Ok,
        host.latest_random is None,
    ensures
        guess_number(store, env, number, host) == (
            store,
            Err::<HandleResponseView, ContractError>(ContractError::Oracle),
        ),
{
}

/// An accepted bet fails with `Data` when the oracle's randomness has fewer
/// than two bytes, whatever the guess, and leaves the store as it was.
pub proof fn law_short_randomness_is_refused(
    store: StoreView,
    env: EnvView,
    number: u8,
    host: HostAnswersView,
)
    requires
        check_bet(store, env) is Ok,
        host.latest_random is Some,
        host.latest_random->0.randomness.len() < 2,
    ensures
        guess_number(store, env, number, host) == (
            store,
            Err::<HandleResponseView, ContractError>(ContractError::Data),
        ),
{
}

/// An accepted bet on a number other than the second byte of the oracle's
/// randomness succeeds, asks for no transfer, records nothing, and leaves the
/// store as it was: placing it again changes nothing either.
pub proof fn law_wrong_guess_changes_nothing(
    store: StoreView,
    env: EnvView,
    number: u8,
    host: HostAnswersView,
)
    requires
        check_bet(store, env) is Ok,
        host.latest_random is Some,
        host.latest_random->0.randomness.len() >= 2,
        number != host.latest_random->0.randomness[1],
    ensures
        guess_number(store, env, number, host) == (
            store,
            Ok::<HandleResponseView, ContractError>(HandleResponseView::empty()),
        ),
        HandleResponseView::empty().messages.len() == 0,
        guess_number(guess_number(store, env, number, host).0, env, number, host)
            == guess_number(store, env, number, host),
{
}

/// An accepted bet on the second byte of the oracle's randomness succeeds
/// with exactly one transfer: the contract's whole balance in the settlement
/// denomination, from the contract to the caller. The caller becomes the last
/// winner with that balance as the pot, and the configuration stays.
pub proof fn law_right_guess_pays_the_pot(
    store: StoreView,
    env: EnvView,
    number: u8,
    host: HostAnswersView,
)
    requires
        check_bet(store, env) is Ok,
        host.latest_random is Some,
        host.latest_random->0.randomness.len() >= 2,
        number == host.latest_random->0.randomness[1],
    ensures
        guess_number(store, env, number, host).1 == Ok::<HandleResponseView, ContractError>(
            win_response(env, host.balance),
        ),
        win_response(env, host.balance).messages =~= seq![prize(env, host.balance)],
        prize(env, host.balance).to_address == env.sender,
        prize(env, host.balance).from_address == env.contract_address,
        prize(env, host.balance).amount.amount == host.balance,
        guess_number(store, env, number, host).0 == (StoreView {
            config: store.config,
            last_winner: Some(LastWinnerView { address: host.sender, pot_amount: host.balance }),
        }),
{
}

/// No bet touches the configuration, and only a winning bet touches the last
/// winner.
pub proof fn law_bet_writes_only_on_a_win(store: StoreView, bet: Bet)
    ensures
        after_bet(store, bet).config == store.config,
        !wins(store, bet) ==> after_bet(store, bet) == store,
        wins(store, bet) ==> after_bet(store, bet).last_winner == Some(
            LastWinnerView { address: bet.host.sender, pot_amount: bet.host.balance },
        ),
{
}

/// However many bets are placed, the configuration stays what it was.
pub proof fn law_bets_keep_the_config(store: StoreView, bets: Seq<Bet>)
    ensures
        after_bets(store, bets).config == store.config,
    decreases bets.len(),
{
    if bets.len() > 0 {
        law_bets_keep_the_config(store, bets.drop_last());
        law_bet_writes_only_on_a_win(after_bets(store, bets.drop_last()), bets.last());
    }
}

/// As long as no bet wins, the last winner stays what it was. On a store
/// without a winner, the query for the last winner therefore goes on failing
/// with `NotFound`.
pub proof fn law_no_win_no_new_winner(store: StoreView, bets: Seq<Bet>)
    requires
        forall|i: int| 0 <= i < bets.len() ==> !wins(store, #[trigger] bets[i]),
    ensures
        after_bets(store, bets) == store,
        store.last_winner is None ==> query_last_winner(after_bets(store, bets)) == Err::<
            LastWinnerView,
            ContractError,
        >(ContractError::NotFound),
    decreases bets.len(),
{
    if bets.len() > 0 {
        let earlier = bets.drop_last();
        assert forall|i: int| 0 <= i < earlier.len() implies !wins(store, #[trigger] earlier[i]) by {
            assert(earlier[i] == bets[i]);
        }
        law_no_win_no_new_winner(store, earlier);
        assert(!wins(store, bets.last()));
    }
}

/// After a win, the query for the last winner gives exactly that win, the
/// winner's address and the pot, however many bets were placed before it and
/// however many losing or refused bets came after it.
pub proof fn law_query_gives_the_last_win(store: StoreView, earlier: Seq<Bet>, win: Bet, later: Seq<Bet>)
    requires
        wins(after_bets(store, earlier), win),
        forall|i: int| 0 <= i < later.len() ==> !wins(store, #[trigger] later[i]),
    ensures
        query_last_winner(after_bets(store, earlier.push(win) + later)) == Ok::<
            LastWinnerView,
            ContractError,
        >(LastWinnerView { address: win.host.sender, pot_amount: win.host.balance }),
{
    let before = after_bets(store, earlier);
    let won = after_bet(before, win);
    assert(earlier.push(win).drop_last() =~= earlier);
    assert(after_bets(store, earlier.push(win)) == won);
    law_bets_keep_the_config(store, earlier);
    law_bet_writes_only_on_a_win(before, win);
    assert forall|i: int| 0 <= i < later.len() implies !wins(won, #[trigger] later[i]) by {
        assert(!wins(store, later[i]));
    }
    law_no_win_no_new_winner(won, later);
    lemma_after_bets_concat(store, earlier.push(win), later);
}

/// Placing one run of bets after another is placing them all in a row.
pub proof fn lemma_after_bets_concat(store: StoreView, first: Seq<Bet>, second: Seq<Bet>)
    ensures
        after_bets(store, first + second) == after_bets(after_bets(store, first), second),
    decreases second.len(),
{
    if second.len() == 0 {
        assert(first + second =~= first);
    } else {
        lemma_after_bets_concat(store, first, second.drop_last());
        assert((first + second).drop_last() =~= first + second.drop_last());
        assert((first + second).last() == second.last());
    }
}

/// Initializing again replaces the configuration whole: what the first
/// initialization wrote, its minimum bet included, is gone, and the outcome
/// is that of the second initialization alone. The last winner is not
/// touched.
pub proof fn law_reinit_replaces_the_config(
    store: StoreView,
    first_owner: Option<Seq<u8>>,
    first_oracle: Option<Seq<u8>>,
    first_msg: InitMsgView,
    owner: Seq<u8>,
    oracle: Seq<u8>,
    msg: InitMsgView,
)
    ensures
        ({
            let between = init(store, first_owner, first_oracle, first_msg).0;
            let after = init(between, Some(owner), Some(oracle), msg).0;
            &&& after.config == Some(
                ConfigView {
                    owner,
                    terrand_address: oracle,
                    minimum_bet_amount: msg.minimum_bet_amount,
                },
            )
            &&& after == init(store, Some(owner), Some(oracle), msg).0
            &&& after.last_winner == store.last_winner
        }),
{
}

} // verus!
