//! The two records that the contract keeps between invocations.
//!
//! Each is a singleton: at most one value lives under its key, and saving
//! replaces it whole.

use vstd::prelude::*;

verus! {

/// The key under which [`Config`] is persisted.
pub const CONFIG_KEY: &'static str = "config";

/// The key under which [`LastWinner`] is persisted.
pub const LAST_WINNER_KEY: &'static str = "last_winner_key";

/// The settings of the game, written at initialization.
#[derive(Clone, Debug, PartialEq)]
pub struct Config {
    /// Who set the contract up, in canonical form.
    pub owner: Vec<u8>,
    /// The randomness oracle, in canonical form.
    pub terrand_address: Vec<u8>,
    /// The smallest stake that a bet may carry.
    pub minimum_bet_amount: u128,
}

/// A [`Config`] as a mathematical value.
pub ghost struct ConfigView {
    pub owner: Seq<u8>,
    pub terrand_address: Seq<u8>,
    pub minimum_bet_amount: nat,
}

impl View for Config {
    type V = ConfigView;

    open spec fn view(&self) -> ConfigView {
        ConfigView {
            owner: self.owner@,
            terrand_address: self.terrand_address@,
            minimum_bet_amount: self.minimum_bet_amount as nat,
        }
    }
}

/// The most recent winner. There is no history: a win replaces the record.
#[derive(Clone, Debug, PartialEq)]
pub struct LastWinner {
    /// The winner, in canonical form.
    pub address: Vec<u8>,
    /// What the winner was paid.
    pub pot_amount: u128,
}

/// A [`LastWinner`] as a mathematical value.
pub ghost struct LastWinnerView {
    pub address: Seq<u8>,
    pub pot_amount: nat,
}

impl View for LastWinner {
    type V = LastWinnerView;

    open spec fn view(&self) -> LastWinnerView {
        LastWinnerView { address: self.address@, pot_amount: self.pot_amount as nat }
    }
}

/// Everything the contract persists. A record that was never saved is `None`.
#[derive(Clone, Debug, PartialEq)]
pub struct Store {
    pub config: Option<Config>,
    pub last_winner: Option<LastWinner>,
}

/// A [`Store`] as a mathematical value.
pub ghost struct StoreView {
    pub config: Option<ConfigView>,
    pub last_winner: Option<LastWinnerView>,
}

impl StoreView {
    /// The store of a contract that was never initialized.
    pub open spec fn empty() -> StoreView {
        StoreView { config: None, last_winner: None }
    }
}

impl View for Store {
    type V = StoreView;

    open spec fn view(&self) -> StoreView {
        StoreView {
            config: match self.config {
                Some(c) => Some(c@),
                None => None,
            },
            last_winner: match self.last_winner {
                Some(w) => Some(w@),
                None => None,
            },
        }
    }
}

impl Store {
    /// The store of a contract that was never initialized.
    pub fn new() -> (store: Store)
        ensures
            store@ == StoreView::empty(),
    {
        Store { config: None, last_winner: None }
    }
}

/// The place of the [`Config`] record, for writing.
pub fn config(store: &mut Store) -> (slot: &mut Option<Config>)
    ensures
        *slot == old(store).config,
        final(store).config == *final(slot),
        final(store).last_winner == old(store).last_winner,
{
    &mut store.config
}

/// The place of the [`Config`] record, for reading.
pub fn config_read(store: &Store) -> (slot: &Option<Config>)
    ensures
        *slot == store.config,
{
    &store.config
}

/// The place of the [`LastWinner`] record, for writing.
pub fn last_winner(store: &mut Store) -> (slot: &mut Option<LastWinner>)
    ensures
        *slot == old(store).last_winner,
        final(store).last_winner == *final(slot),
        final(store).config == old(store).config,
{
    &mut store.last_winner
}

/// The place of the [`LastWinner`] record, for reading.
pub fn last_winner_read(store: &Store) -> (slot: &Option<LastWinner>)
    ensures
        *slot == store.last_winner,
{
    &store.last_winner
}

} // verus!
