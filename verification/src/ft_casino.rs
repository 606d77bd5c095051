//! The fungible-token casino: every balance is held in a token contract's
//! units, deposits arrive as token transfers carrying a request message,
//! and each account pays storage rent from its own registered deposit.
//! Partner games carry their own configuration and house pool.

use vstd::prelude::*;

use crate::account_id::is_valid_account_id;
use crate::account_id::valid_account_id;
use crate::assoc::AssocMap;
use crate::assoc::balance_or_zero;
use crate::casino::fee_cut;
use crate::casino::net_bet;
use crate::casino::win_payout;
use crate::messages::lemma_first_quote_is;
use crate::messages::matches_at;
use crate::messages::no_quote;
use crate::messages::parse_tail;
use crate::decimal::bool_to_dec_str;
use crate::decimal::dec_str;
use crate::decimal::u128_to_dec;
use crate::messages::spec_matches_at;
use crate::messages::spec_parse_tail;
use crate::token_casino::STORAGE_BYTE_COST;
use crate::token_casino::StorageBalance;
use crate::token_casino::StorageBalanceBounds;
use crate::transfer::TokenTransfer;
use crate::transfer::Transfer;
use vstd::string::StrSliceExecFns;

verus! {

/// Denominator of every fee fraction and of the payment adjustment.
pub const FRACTIONAL_BASE: u128 = 100_000;

/// The smallest storage deposit accepted at registration.
pub const MIN_STORAGE_BALANCE: u128 = 250_000_000_000_000_000_000_000;

#[derive(Clone, Copy, PartialEq, Eq, Structural, Debug)]
pub enum FtCasinoError {
    /// The owner account handed to the constructor is not a valid account id.
    InvalidOwnerAccount,
    /// The account is not registered.
    AccountNotRegistered,
    /// No partner is registered for this address.
    UnknownPartner,
    /// A partner is already registered for this address.
    PartnerAlreadyRegistered,
    /// Only the partner game's owner may call this entry point.
    OnlyPartnerOwner,
    /// The transfer message matches no known request.
    BadMessage,
    /// The storage deposit does not cover the rent of the state held.
    InsufficientStorage,
    /// The deposit is below the minimum storage deposit.
    MinimumStorageDeposit,
    /// Storage cannot be unregistered while token balances remain.
    BalancesNotEmpty,
    /// The owner fee pool holds nothing to withdraw.
    NoOwnerFunds,
    /// The token holders' fee pool holds nothing to withdraw.
    NoNftFunds,
    /// The token that sent the funds is not the game's registered token.
    TokenMismatch,
    /// The panic switch is on: wagering is halted.
    Paused,
    /// Only the owner may call this entry point.
    OnlyOwner,
    /// Exactly one yocto of native currency must be attached.
    OneYocto,
    /// The deposit is at or below the minimum accepted deposit.
    MinimumDeposit,
    /// The caller's credits do not cover the bet.
    NoCredits,
    /// The bet is below the minimum bet.
    BetBelowMinimum,
    /// The bet is above the maximum bet.
    BetAboveMaximum,
    /// The game's house pool does not cover the potential payout.
    InsufficientHouseFunds,
}

/// One registered account: its storage-rent bookkeeping and its playing
/// balances, one per token contract.
pub struct Account {
    pub account_id: String,
    /// Native funds deposited to pay for this account's storage.
    pub storage_deposit: u128,
    /// Bytes of contract storage this account occupies.
    pub storage_used: u64,
    /// Playing balances, keyed by token contract.
    pub balances: AssocMap<u128>,
}

impl Account {
    /// Well-formed: the ledger is a map and the deposit covers the rent of
    /// the storage used.
    pub open spec fn wf(self) -> bool {
        &&& self.balances.wf()
        &&& self.storage_used * STORAGE_BYTE_COST <= self.storage_deposit
    }

    pub fn new(account_id: &String, initial_deposit: u128) -> (a: Account)
        ensures
            a.account_id@ == account_id@,
            a.storage_deposit == initial_deposit,
            a.storage_used == 0,
            a.balances@ == Map::<Seq<char>, u128>::empty(),
            a.wf(),
    {
        Account {
            account_id: account_id.clone(),
            storage_deposit: initial_deposit,
            storage_used: 0,
            balances: AssocMap::new(),
        }
    }

    /// The rent the storage this account occupies costs.
    pub open spec fn spec_storage_usage_cost(self) -> int {
        self.storage_used * STORAGE_BYTE_COST
    }

    pub fn storage_usage_cost(&self) -> (r: u128)
        ensures
            r == self.spec_storage_usage_cost(),
    {
        (self.storage_used as u128) * STORAGE_BYTE_COST
    }

    /// The deposited funds not locked as rent.
    pub open spec fn spec_storage_funds_available(self) -> int {
        self.storage_deposit - self.spec_storage_usage_cost()
    }

    pub fn storage_funds_available(&self) -> (r: u128)
        requires
            self.wf(),
        ensures
            r == self.spec_storage_funds_available(),
    {
        let locked = self.storage_usage_cost();
        self.storage_deposit - locked
    }

    /// Whether the deposit covers the rent of the storage used.
    pub fn check_storage_usage_cost(&self) -> (r: bool)
        ensures
            r == (self.spec_storage_usage_cost() <= self.storage_deposit),
    {
        self.storage_usage_cost() <= self.storage_deposit
    }

    /// Books a measured storage change: a growth must still be covered by
    /// the deposit, a shrink releases the difference.
    pub fn track_storage_usage(&mut self, initial_storage: u64, final_storage: u64) -> (r: Result<
        (),
        FtCasinoError,
    >)
        requires
            old(self).wf(),
            // machine limits: the bytes used never overflow nor fall
            // below zero
            final_storage > initial_storage ==> old(self).storage_used + (final_storage
                - initial_storage) <= u64::MAX,
            final_storage <= initial_storage ==> old(self).storage_used >= initial_storage
                - final_storage,
        ensures
            match r {
                Err(e) => {
                    &&& *final(self) == *old(self)
                    &&& e == FtCasinoError::InsufficientStorage
                    &&& final_storage > initial_storage
                    &&& (old(self).storage_used + final_storage - initial_storage)
                        * STORAGE_BYTE_COST > old(self).storage_deposit
                },
                Ok(()) => {
                    &&& final(self).wf()
                    &&& *final(self) == (Account {
                        storage_used: (if final_storage > initial_storage {
                            old(self).storage_used + final_storage - initial_storage
                        } else {
                            old(self).storage_used - (initial_storage - final_storage)
                        }) as u64,
                        ..*old(self)
                    })
                },
            },
    {
        if final_storage > initial_storage {
            let old_used = self.storage_used;
            self.storage_used = self.storage_used + (final_storage - initial_storage);
            if !self.check_storage_usage_cost() {
                self.storage_used = old_used;
                return Err(FtCasinoError::InsufficientStorage);
            }
        } else {
            self.storage_used = self.storage_used - (initial_storage - final_storage);
            proof {
                vstd::arithmetic::mul::lemma_mul_inequality(
                    self.storage_used as int,
                    old(self).storage_used as int,
                    STORAGE_BYTE_COST as int,
                );
            }
        }
        Ok(())
    }

    /// Adds native funds to the storage deposit.
    pub fn deposit_storage_funds(&mut self, deposit: u128)
        requires
            old(self).storage_deposit + deposit <= u128::MAX,
        ensures
            *final(self) == (Account {
                storage_deposit: (old(self).storage_deposit + deposit) as u128,
                ..*old(self)
            }),
    {
        self.storage_deposit = self.storage_deposit + deposit;
    }

    /// Takes native funds out of the storage deposit.
    pub fn withdraw_storage_funds(&mut self, withdraw: u128)
        requires
            withdraw <= old(self).storage_deposit,
        ensures
            *final(self) == (Account {
                storage_deposit: (old(self).storage_deposit - withdraw) as u128,
                ..*old(self)
            }),
    {
        self.storage_deposit = self.storage_deposit - withdraw;
    }
}

/// A partner game: its own token, fee share, house pool and bet bounds.
#[derive(Debug)]
pub struct PartneredGame {
    pub partner_owner: String,
    pub blocked: bool,
    /// The pool payouts of this game are paid from.
    pub house_funds: u128,
    /// The token contract this game plays in.
    pub partner_token: String,
    /// Fee share of this partner, over `FRACTIONAL_BASE`.
    pub partner_fee: u128,
    /// Fees accrued to this partner so far.
    pub partner_balance: u128,
    pub bet_payment_adjustment: u128,
    pub house_fee: u128,
    pub max_bet: u128,
    pub min_bet: u128,
    pub max_odds: u8,
    pub min_odds: u8,
}

impl Clone for PartneredGame {
    fn clone(&self) -> (res: Self)
        ensures
            res == *self,
    {
        PartneredGame {
            partner_owner: self.partner_owner.clone(),
            blocked: self.blocked,
            house_funds: self.house_funds,
            partner_token: self.partner_token.clone(),
            partner_fee: self.partner_fee,
            partner_balance: self.partner_balance,
            bet_payment_adjustment: self.bet_payment_adjustment,
            house_fee: self.house_fee,
            max_bet: self.max_bet,
            min_bet: self.min_bet,
            max_odds: self.max_odds,
            min_odds: self.min_odds,
        }
    }
}

/// A request carried by a token transfer's message.
pub enum CallType {
    /// Fund the named game's house pool with the transferred amount.
    FundGame { game_code: String },
    /// Credit the transferred amount to the sender's playing balance.
    DepositBalance,
}

/// The message that funds a game's house pool.
pub open spec fn fund_game_msg(code: Seq<char>) -> Seq<char> {
    "{\"type\":\"FundGame\",\"game_code\":\""@ + code + "\"}"@
}

/// The message that deposits playing credits for the sender.
pub open spec fn deposit_balance_msg() -> Seq<char> {
    "{\"type\":\"DepositBalance\"}"@
}

/// What a message means: `None` deposits for the sender, `Some` names the
/// game whose house pool is funded.
pub open spec fn spec_parse_call_type(s: Seq<char>) -> Option<Option<Seq<char>>> {
    let fund_pre = "{\"type\":\"FundGame\",\"game_code\":\""@;
    if s == deposit_balance_msg() {
        Some(None)
    } else if spec_matches_at(s, 0, fund_pre) {
        match spec_parse_tail(s, fund_pre.len() as int) {
            Some(t) => Some(Some(t)),
            None => None,
        }
    } else {
        None
    }
}

/// Decides `spec_parse_call_type`.
pub fn parse_call_type(msg: &str) -> (r: Option<CallType>)
    ensures
        match r {
            Some(CallType::DepositBalance) => spec_parse_call_type(msg@) == Some(
                None::<Seq<char>>,
            ),
            Some(CallType::FundGame { game_code }) => spec_parse_call_type(msg@) == Some(
                Some(game_code@),
            ),
            None => spec_parse_call_type(msg@) is None,
        },
{
    let dep = "{\"type\":\"DepositBalance\"}";
    let fund_pre = "{\"type\":\"FundGame\",\"game_code\":\"";
    if matches_at(msg, 0, dep) && msg.unicode_len() == dep.unicode_len() {
        proof {
            assert(msg@ =~= deposit_balance_msg());
        }
        return Some(CallType::DepositBalance);
    }
    proof {
        if msg@ == deposit_balance_msg() {
            assert(msg@.subrange(0, dep@.len() as int) =~= dep@);
        }
    }
    if matches_at(msg, 0, fund_pre) {
        match parse_tail(msg, fund_pre.unicode_len()) {
            Some(game_code) => Some(CallType::FundGame { game_code }),
            None => None,
        }
    } else {
        None
    }
}

/// A rendered house-funding message parses back to its game code.
pub proof fn lemma_fund_game_msg_roundtrip(code: Seq<char>)
    requires
        no_quote(code),
    ensures
        spec_parse_call_type(fund_game_msg(code)) == Some(Some(code)),
{
    let pre = "{\"type\":\"FundGame\",\"game_code\":\""@;
    let dep = deposit_balance_msg();
    let suf = "\"}"@;
    let s = fund_game_msg(code);
    reveal_strlit("{\"type\":\"FundGame\",\"game_code\":\"");
    reveal_strlit("{\"type\":\"DepositBalance\"}");
    reveal_strlit("\"}");
    assert(s != dep) by {
        assert(s[9] == pre[9]);
        assert(pre[9] == 'F' && dep[9] == 'D');
    }
    assert(s.subrange(0, pre.len() as int) =~= pre);
    let q = pre.len() as int + code.len() as int;
    assert(s[q] == suf[0]);
    lemma_first_quote_is(s, pre.len() as int, q);
    assert(s[s.len() - 1] == suf[1]);
    assert(s.subrange(pre.len() as int, q) =~= code);
}

/// The deposit message parses to a deposit for the sender.
pub proof fn lemma_deposit_balance_msg_roundtrip()
    ensures
        spec_parse_call_type(deposit_balance_msg()) == Some(None::<Seq<char>>),
{
}

/// The interface of the token contracts this casino pays through.
pub trait FunglibleToken {
    fn ft_transfer(receiver_id: String, amount: u128, memo: Option<String>);
}

/// The callbacks the host fires once a dispatched transfer resolves.
pub trait Callbacks {
    fn owner_transfer_callback(token_contract: String, amount: u128);

    fn nft_transfer_callback(token_contract: String, amount: u128);

    fn project_transfer_callback(amount: u128, project_id: String);

    fn user_transfer_callback(token_contract: String, amount: u128, user_account_id: String);
}

/// The transfer request a payout dispatches through a token contract.
pub fn transfer_token(token_contract: String, receiver: String, amount: u128) -> (t: TokenTransfer)
    ensures
        t.token@ == token_contract@,
        t.receiver@ == receiver@,
        t.amount == amount,
{
    TokenTransfer { token: token_contract, receiver, amount }
}

pub struct Contract {
    pub owner_id: String,
    pub nft_account: String,
    pub panic_button: bool,
    pub bet_payment_adjustment: u128,
    pub nft_fee: u128,
    pub owner_fee: u128,
    pub house_fee: u128,
    pub max_bet: u128,
    pub min_bet: u128,
    /// Fraction of `min_bet` that bounds the smallest accepted deposit.
    pub min_balance_fraction: u128,
    pub max_odds: u8,
    pub min_odds: u8,
    /// Plays resolved so far; mixed into the randomness by the host.
    pub game_count: u128,
    pub accounts: AssocMap<Account>,
    pub games: AssocMap<PartneredGame>,
    /// Token holders' fee pool, per token contract.
    pub nft_balance: AssocMap<u128>,
    /// Owner's fee pool, per token contract.
    pub owner_balance: AssocMap<u128>,
}

/// The configuration fields a play never touches.
pub open spec fn same_ft_casino_config(a: Contract, b: Contract) -> bool {
    &&& a.owner_id == b.owner_id
    &&& a.nft_account == b.nft_account
    &&& a.panic_button == b.panic_button
    &&& a.bet_payment_adjustment == b.bet_payment_adjustment
    &&& a.nft_fee == b.nft_fee
    &&& a.owner_fee == b.owner_fee
    &&& a.house_fee == b.house_fee
    &&& a.max_bet == b.max_bet
    &&& a.min_bet == b.min_bet
    &&& a.min_balance_fraction == b.min_balance_fraction
    &&& a.max_odds == b.max_odds
    &&& a.min_odds == b.min_odds
}

impl Contract {
    /// Well-formed: every registry is a map, and every account is
    /// well-formed and filed under its own id.
    pub open spec fn wf(self) -> bool {
        &&& self.accounts.wf()
        &&& self.games.wf()
        &&& self.nft_balance.wf()
        &&& self.owner_balance.wf()
        &&& forall|a: Seq<char>|
            self.accounts@.contains_key(a) ==> (#[trigger] self.accounts@[a]).wf()
                && self.accounts@[a].account_id@ == a
    }

    /// The playing balance one user holds in one token.
    pub open spec fn credits_of(self, user: Seq<char>, token: Seq<char>) -> u128 {
        if self.accounts@.contains_key(user) {
            balance_or_zero(self.accounts@[user].balances@, token)
        } else {
            0
        }
    }

    /// The guard every owner-only entry point runs first: one yocto
    /// attached, and the caller must be the owner.
    pub open spec fn owner_gate(self, caller: Seq<char>, deposit: u128) -> Option<FtCasinoError> {
        if deposit != 1 {
            Some(FtCasinoError::OneYocto)
        } else if caller != self.owner_id@ {
            Some(FtCasinoError::OnlyOwner)
        } else {
            None
        }
    }

    /// Builds a casino whose own account is registered to pay for the
    /// contract's storage.
    pub fn new(
        owner_id: String,
        nft_account: String,
        bet_payment_adjustment: u128,
        nft_fee: u128,
        owner_fee: u128,
        house_fee: u128,
        max_bet: u128,
        min_bet: u128,
        min_balance_fraction: u128,
        max_odds: u128,
        min_odds: u128,
        current_account_id: String,
        account_balance: u128,
        storage_usage: u64,
    ) -> (r: Result<Contract, FtCasinoError>)
        requires
            // machine limits: the odds must fit a byte and the contract's
            // balance must cover the rent of its initial storage
            max_odds <= 255,
            min_odds <= 255,
            storage_usage * STORAGE_BYTE_COST <= account_balance,
        ensures
            match r {
                Ok(m) => {
                    &&& valid_account_id(owner_id@)
                    &&& m.wf()
                    &&& m.owner_id@ == owner_id@
                    &&& m.nft_account@ == nft_account@
                    &&& m.panic_button == false
                    &&& m.bet_payment_adjustment == bet_payment_adjustment
                    &&& m.nft_fee == nft_fee
                    &&& m.owner_fee == owner_fee
                    &&& m.house_fee == house_fee
                    &&& m.max_bet == max_bet
                    &&& m.min_bet == min_bet
                    &&& m.min_balance_fraction == min_balance_fraction
                    &&& m.max_odds == max_odds
                    &&& m.min_odds == min_odds
                    &&& m.game_count == 0
                    &&& m.games@ == Map::<Seq<char>, PartneredGame>::empty()
                    &&& m.nft_balance@ == Map::<Seq<char>, u128>::empty()
                    &&& m.owner_balance@ == Map::<Seq<char>, u128>::empty()
                    &&& m.accounts@.dom() == Set::<Seq<char>>::empty().insert(current_account_id@)
                    &&& m.accounts@[current_account_id@].storage_deposit == account_balance
                    &&& m.accounts@[current_account_id@].storage_used == storage_usage
                    &&& m.accounts@[current_account_id@].balances@ == Map::<Seq<char>, u128>::empty()
                },
                Err(e) => e == FtCasinoError::InvalidOwnerAccount && !valid_account_id(owner_id@),
            },
    {
        if !is_valid_account_id(owner_id.as_str()) {
            return Err(FtCasinoError::InvalidOwnerAccount);
        }
        let mut contract = Contract {
            owner_id,
            nft_account,
            panic_button: false,
            bet_payment_adjustment,
            nft_fee,
            owner_fee,
            house_fee,
            max_bet,
            min_bet,
            min_balance_fraction,
            max_odds: max_odds as u8,
            min_odds: min_odds as u8,
            game_count: 0,
            accounts: AssocMap::new(),
            games: AssocMap::new(),
            nft_balance: AssocMap::new(),
            owner_balance: AssocMap::new(),
        };
        let ghost cid = current_account_id@;
        let mut contract_account_entry = Account::new(&current_account_id, account_balance);
        let tracked_r = contract_account_entry.track_storage_usage(0, storage_usage);
        proof {
            assert(tracked_r is Ok);
        }
        contract.accounts.insert(current_account_id, contract_account_entry);
        proof {
            assert(contract.accounts@.dom() =~= Set::<Seq<char>>::empty().insert(cid));
        }
        Ok(contract)
    }

    /// The registered account under an id, if any.
    pub fn internal_get_account(&self, account_id: &String) -> (r: Option<&Account>)
        requires
            self.wf(),
        ensures
            match r {
                Some(a) => self.accounts@.contains_key(account_id@) && *a
                    == self.accounts@[account_id@],
                None => !self.accounts@.contains_key(account_id@),
            },
    {
        self.accounts.get(account_id)
    }

    /// Files an account under its id.
    pub fn internal_update_account(&mut self, account_id: &String, account: Account)
        requires
            old(self).wf(),
            account.wf(),
            account.account_id@ == account_id@,
        ensures
            final(self).wf(),
            *final(self) == (Contract { accounts: final(self).accounts, ..*old(self) }),
            final(self).accounts@ == old(self).accounts@.insert(account_id@, account),
    {
        self.accounts.insert(account_id.clone(), account);
        proof {
            assert forall|a: Seq<char>| self.accounts@.contains_key(a) implies (
            #[trigger] self.accounts@[a]).wf() && self.accounts@[a].account_id@ == a by {
                if a != account_id@ {
                    assert(self.accounts@[a] == old(self).accounts@[a]);
                }
            }
        }
    }

    /// Adds a storage deposit to an account, registering it when new.
    pub fn internal_deposit_storage_account(&mut self, account_id: &String, deposit: u128)
        requires
            old(self).wf(),
            old(self).accounts@.contains_key(account_id@) ==> old(
                self,
            ).accounts@[account_id@].storage_deposit + deposit <= u128::MAX,
        ensures
            final(self).wf(),
            *final(self) == (Contract { accounts: final(self).accounts, ..*old(self) }),
            final(self).accounts@.dom() == old(self).accounts@.dom().insert(account_id@),
            final(self).accounts@[account_id@] == (if old(self).accounts@.contains_key(account_id@) {
                (Account {
                    storage_deposit: (old(self).accounts@[account_id@].storage_deposit
                        + deposit) as u128,
                    ..old(self).accounts@[account_id@]
                })
            } else {
                final(self).accounts@[account_id@]
            }),
            !old(self).accounts@.contains_key(account_id@) ==> ({
                let a = final(self).accounts@[account_id@];
                a.storage_deposit == deposit && a.storage_used == 0 && a.balances@ == Map::<
                    Seq<char>,
                    u128,
                >::empty()
            }),
            forall|a: Seq<char>|
                old(self).accounts@.contains_key(a) && a != account_id@ ==> final(self).accounts@[a]
                    == (#[trigger] old(self).accounts@[a]),
    {
        let ghost aid = account_id@;
        match self.accounts.remove(account_id) {
            Some(mut acct) => {
                acct.deposit_storage_funds(deposit);
                self.accounts.insert(account_id.clone(), acct);
            },
            None => {
                let acct = Account::new(account_id, deposit);
                self.accounts.insert(account_id.clone(), acct);
            },
        }
        proof {
            assert(self.accounts@.dom() =~= old(self).accounts@.dom().insert(aid));
            assert forall|a: Seq<char>| self.accounts@.contains_key(a) implies (
            #[trigger] self.accounts@[a]).wf() && self.accounts@[a].account_id@ == a by {
                if a != aid {
                    assert(self.accounts@[a] == old(self).accounts@[a]);
                }
            }
        }
    }

    /// Withdraws storage funds from an account: a given amount, or
    /// everything available when zero is asked.  The account must be
    /// registered and the available funds must cover the withdrawal.
    pub fn internal_storage_withdraw_account(&mut self, account_id: &String, amount: u128) -> (r:
        Result<u128, FtCasinoError>)
        requires
            old(self).wf(),
        ensures
            final(self).wf(),
            match r {
                Err(e) => {
                    &&& *final(self) == *old(self)
                    &&& if !old(self).accounts@.contains_key(account_id@) {
                        e == FtCasinoError::AccountNotRegistered
                    } else {
                        let avail = old(self).accounts@[account_id@].spec_storage_funds_available();
                        e == FtCasinoError::InsufficientStorage && (avail == 0 || amount > avail)
                    }
                },
                Ok(w) => ({
                    let a0 = old(self).accounts@[account_id@];
                    let avail = a0.spec_storage_funds_available();
                    &&& old(self).accounts@.contains_key(account_id@)
                    &&& avail > 0
                    &&& w == if amount == 0 {
                        avail
                    } else {
                        amount as int
                    }
                    &&& w <= avail
                    &&& *final(self) == (Contract { accounts: final(self).accounts, ..*old(self) })
                    &&& final(self).accounts@ == old(self).accounts@.insert(
                        account_id@,
                        (Account { storage_deposit: (a0.storage_deposit - w) as u128, ..a0 }),
                    )
                }),
            },
    {
        let ghost aid = account_id@;
        let (available, withdraw_amount) = match self.accounts.get(account_id) {
            None => {
                return Err(FtCasinoError::AccountNotRegistered);
            },
            Some(acct) => {
                let available = acct.storage_funds_available();
                (available, if amount == 0 {
                    available
                } else {
                    amount
                })
            },
        };
        if available == 0 {
            return Err(FtCasinoError::InsufficientStorage);
        }
        if withdraw_amount > available {
            return Err(FtCasinoError::InsufficientStorage);
        }
        let mut acct = self.accounts.remove(account_id).unwrap();
        acct.withdraw_storage_funds(withdraw_amount);
        self.accounts.insert(account_id.clone(), acct);
        proof {
            assert(self.accounts@ =~= old(self).accounts@.insert(aid, self.accounts@[aid]));
            assert forall|a: Seq<char>| self.accounts@.contains_key(a) implies (
            #[trigger] self.accounts@[a]).wf() && self.accounts@[a].account_id@ == a by {
                if a != aid {
                    assert(self.accounts@[a] == old(self).accounts@[a]);
                }
            }
        }
        Ok(withdraw_amount)
    }

    /// The partner game registered under a code, if any.
    pub fn internal_get_game(&self, code: &String) -> (r: Option<&PartneredGame>)
        requires
            self.wf(),
        ensures
            match r {
                Some(g) => self.games@.contains_key(code@) && *g == self.games@[code@],
                None => !self.games@.contains_key(code@),
            },
    {
        self.games.get(code)
    }

    /// Files a partner game under its code.
    pub fn internal_update_game(&mut self, code: &String, game: &PartneredGame)
        requires
            old(self).wf(),
        ensures
            final(self).wf(),
            *final(self) == (Contract { games: final(self).games, ..*old(self) }),
            final(self).games@ == old(self).games@.insert(code@, *game),
    {
        self.games.insert(code.clone(), game.clone());
    }

    /// Toggles the panic switch that halts wagering; owner only, one
    /// yocto.  Returns the new switch state.
    pub fn emergency_panic(&mut self, caller: String, deposit: u128) -> (r: Result<
        bool,
        FtCasinoError,
    >)
        requires
            old(self).wf(),
        ensures
            final(self).wf(),
            match r {
                Err(e) => Some(e) == old(self).owner_gate(caller@, deposit) && *final(self) == *old(
                    self,
                ),
                Ok(b) => {
                    &&& old(self).owner_gate(caller@, deposit) is None
                    &&& b == !old(self).panic_button
                    &&& *final(self) == (Contract {
                        panic_button: !old(self).panic_button,
                        ..*old(self)
                    })
                },
            },
    {
        if deposit != 1 {
            return Err(FtCasinoError::OneYocto);
        }
        if !(caller == self.owner_id) {
            return Err(FtCasinoError::OnlyOwner);
        }
        self.panic_button = !self.panic_button;
        Ok(self.panic_button)
    }

    /// Replaces the two shared fee fractions; owner only, one yocto.
    pub fn update_contract(&mut self, caller: String, deposit: u128, nft_fee: u128, owner_fee: u128)
        -> (r: Result<(), FtCasinoError>)
        requires
            old(self).wf(),
        ensures
            final(self).wf(),
            match r {
                Err(e) => Some(e) == old(self).owner_gate(caller@, deposit) && *final(self) == *old(
                    self,
                ),
                Ok(()) => {
                    &&& old(self).owner_gate(caller@, deposit) is None
                    &&& *final(self) == (Contract { nft_fee, owner_fee, ..*old(self) })
                },
            },
    {
        if deposit != 1 {
            return Err(FtCasinoError::OneYocto);
        }
        if !(caller == self.owner_id) {
            return Err(FtCasinoError::OnlyOwner);
        }
        self.nft_fee = nft_fee;
        self.owner_fee = owner_fee;
        Ok(())
    }

    /// Empties one token's owner fee pool and returns the transfer paying
    /// it to the owner; owner only.  Which token is drawn first is not
    /// promised.
    pub fn retrieve_owner_funds(&mut self, caller: String) -> (r: Result<
        TokenTransfer,
        FtCasinoError,
    >)
        requires
            old(self).wf(),
        ensures
            final(self).wf(),
            match r {
                Err(e) => {
                    &&& *final(self) == *old(self)
                    &&& if caller@ != old(self).owner_id@ {
                        e == FtCasinoError::OnlyOwner
                    } else {
                        e == FtCasinoError::NoOwnerFunds && old(self).owner_balance@ == Map::<
                            Seq<char>,
                            u128,
                        >::empty()
                    }
                },
                Ok(t) => {
                    &&& caller@ == old(self).owner_id@
                    &&& old(self).owner_balance@.contains_key(t.token@)
                    &&& t.amount == old(self).owner_balance@[t.token@]
                    &&& t.receiver@ == old(self).owner_id@
                    &&& *final(self) == (Contract {
                        owner_balance: final(self).owner_balance,
                        ..*old(self)
                    })
                    &&& final(self).owner_balance@ == old(self).owner_balance@.insert(t.token@, 0)
                },
            },
    {
        if !(caller == self.owner_id) {
            return Err(FtCasinoError::OnlyOwner);
        }
        if self.owner_balance.is_empty() {
            return Err(FtCasinoError::NoOwnerFunds);
        }
        let key = self.owner_balance.first_key().unwrap().clone();
        let value = self.owner_balance.get_or_zero(&key);
        self.owner_balance.insert(key.clone(), 0);
        Ok(self.safe_transfer_owner(key, value))
    }

    /// Empties one token's holder fee pool and returns the transfer
    /// paying it to the nft account; owner only.  Which token is drawn
    /// first is not promised.
    pub fn retrieve_nft_funds(&mut self, caller: String) -> (r: Result<
        TokenTransfer,
        FtCasinoError,
    >)
        requires
            old(self).wf(),
        ensures
            final(self).wf(),
            match r {
                Err(e) => {
                    &&& *final(self) == *old(self)
                    &&& if caller@ != old(self).owner_id@ {
                        e == FtCasinoError::OnlyOwner
                    } else {
                        e == FtCasinoError::NoNftFunds && old(self).nft_balance@ == Map::<
                            Seq<char>,
                            u128,
                        >::empty()
                    }
                },
                Ok(t) => {
                    &&& caller@ == old(self).owner_id@
                    &&& old(self).nft_balance@.contains_key(t.token@)
                    &&& t.amount == old(self).nft_balance@[t.token@]
                    &&& t.receiver@ == old(self).nft_account@
                    &&& *final(self) == (Contract {
                        nft_balance: final(self).nft_balance,
                        ..*old(self)
                    })
                    &&& final(self).nft_balance@ == old(self).nft_balance@.insert(t.token@, 0)
                },
            },
    {
        if !(caller == self.owner_id) {
            return Err(FtCasinoError::OnlyOwner);
        }
        if self.nft_balance.is_empty() {
            return Err(FtCasinoError::NoNftFunds);
        }
        let key = self.nft_balance.first_key().unwrap().clone();
        let value = self.nft_balance.get_or_zero(&key);
        self.nft_balance.insert(key.clone(), 0);
        Ok(self.safe_transfer_nft(key, value))
    }

    /// The transfer paying owner fees out, with its restoring callback
    /// handled by `owner_transfer_callback`.
    pub fn safe_transfer_owner(&self, token_contract: String, amount: u128) -> (t: TokenTransfer)
        ensures
            t.token@ == token_contract@,
            t.receiver@ == self.owner_id@,
            t.amount == amount,
    {
        transfer_token(token_contract, self.owner_id.clone(), amount)
    }

    /// The transfer paying holder fees out, with its restoring callback
    /// handled by `nft_transfer_callback`.
    pub fn safe_transfer_nft(&self, token_contract: String, amount: u128) -> (t: TokenTransfer)
        ensures
            t.token@ == token_contract@,
            t.receiver@ == self.nft_account@,
            t.amount == amount,
    {
        transfer_token(token_contract, self.nft_account.clone(), amount)
    }

    /// The transfer paying a partner's fees out, with its restoring
    /// callback handled by `project_transfer_callback`.
    pub fn safe_transfer_project(
        &self,
        token_contract: String,
        amount: u128,
        _project_id: String,
        project_owner_id: String,
    ) -> (t: TokenTransfer)
        ensures
            t.token@ == token_contract@,
            t.receiver@ == project_owner_id@,
            t.amount == amount,
    {
        transfer_token(token_contract, project_owner_id, amount)
    }

    /// The transfer paying a user's credits out, with its restoring
    /// callback handled by `user_transfer_callback`.
    pub fn safe_transfer_user(
        &self,
        token_contract: String,
        amount: u128,
        user_account_id: String,
    ) -> (t: TokenTransfer)
        ensures
            t.token@ == token_contract@,
            t.receiver@ == user_account_id@,
            t.amount == amount,
    {
        transfer_token(token_contract, user_account_id, amount)
    }

    /// Registers a new partner game with its full configuration, opening
    /// its fee pools; owner only, one yocto, fresh code, and the
    /// contract's own account pays for the storage grown.
    pub fn create_new_partner(
        &mut self,
        caller: String,
        deposit: u128,
        partner_owner: String,
        nft_contract: String,
        token_contract: String,
        partner_fee: u128,
        bet_payment_adjustment: u128,
        house_fee: u128,
        max_bet: u128,
        min_bet: u128,
        max_odds: u8,
        min_odds: u8,
        current_account_id: String,
        initial_storage: u64,
        final_storage: u64,
    ) -> (r: Result<(), FtCasinoError>)
        requires
            old(self).wf(),
            // the host aborts when the contract's own account is
            // missing or the bytes used overflow
            old(self).accounts@.contains_key(current_account_id@),
            final_storage > initial_storage ==> old(
                self,
            ).accounts@[current_account_id@].storage_used + (final_storage - initial_storage)
                <= u64::MAX,
            final_storage <= initial_storage ==> old(
                self,
            ).accounts@[current_account_id@].storage_used >= initial_storage - final_storage,
        ensures
            final(self).wf(),
            match r {
                Err(e) => {
                    &&& *final(self) == *old(self)
                    &&& match old(self).owner_gate(caller@, deposit) {
                        Some(ge) => e == ge,
                        None => {
                            if old(self).games@.contains_key(nft_contract@) {
                                e == FtCasinoError::PartnerAlreadyRegistered
                            } else {
                                let a0 = old(self).accounts@[current_account_id@];
                                &&& e == FtCasinoError::InsufficientStorage
                                &&& final_storage > initial_storage
                                &&& (a0.storage_used + final_storage - initial_storage)
                                    * STORAGE_BYTE_COST > a0.storage_deposit
                            }
                        },
                    }
                },
                Ok(()) => ({
                    let a0 = old(self).accounts@[current_account_id@];
                    &&& old(self).owner_gate(caller@, deposit) is None
                    &&& !old(self).games@.contains_key(nft_contract@)
                    &&& same_ft_casino_config(*final(self), *old(self))
                    &&& final(self).game_count == old(self).game_count
                    &&& final(self).games@ == old(self).games@.insert(
                        nft_contract@,
                        (PartneredGame {
                            partner_owner,
                            blocked: false,
                            house_funds: 0,
                            partner_token: token_contract,
                            partner_fee,
                            partner_balance: 0,
                            bet_payment_adjustment,
                            house_fee,
                            max_bet,
                            min_bet,
                            max_odds,
                            min_odds,
                        }),
                    )
                    &&& final(self).nft_balance@ == old(self).nft_balance@.insert(
                        token_contract@,
                        0,
                    )
                    &&& final(self).owner_balance@ == old(self).owner_balance@.insert(
                        token_contract@,
                        0,
                    )
                    &&& final(self).accounts@ == old(self).accounts@.insert(
                        current_account_id@,
                        (Account {
                            storage_used: (if final_storage > initial_storage {
                                a0.storage_used + final_storage - initial_storage
                            } else {
                                a0.storage_used - (initial_storage - final_storage)
                            }) as u64,
                            ..a0
                        }),
                    )
                }),
            },
    {
        let ghost aid = current_account_id@;
        if deposit != 1 {
            return Err(FtCasinoError::OneYocto);
        }
        if !(caller == self.owner_id) {
            return Err(FtCasinoError::OnlyOwner);
        }
        if self.games.contains_key(&nft_contract) {
            return Err(FtCasinoError::PartnerAlreadyRegistered);
        }
        if final_storage > initial_storage {
            let acct = self.accounts.get(&current_account_id).unwrap();
            let new_used = acct.storage_used + (final_storage - initial_storage);
            proof {
                vstd::arithmetic::mul::lemma_mul_inequality(
                    new_used as int,
                    u64::MAX as int,
                    STORAGE_BYTE_COST as int,
                );
            }
            if (new_used as u128) * STORAGE_BYTE_COST > acct.storage_deposit {
                return Err(FtCasinoError::InsufficientStorage);
            }
        }
        self.nft_balance.insert(token_contract.clone(), 0);
        self.owner_balance.insert(token_contract.clone(), 0);
        let game_settings = PartneredGame {
            partner_owner,
            blocked: false,
            house_funds: 0,
            partner_token: token_contract,
            partner_fee,
            partner_balance: 0,
            bet_payment_adjustment,
            house_fee,
            max_bet,
            min_bet,
            max_odds,
            min_odds,
        };
        self.games.insert(nft_contract, game_settings);
        let mut contract_account = self.accounts.remove(&current_account_id).unwrap();
        let tracked_r = contract_account.track_storage_usage(initial_storage, final_storage);
        proof {
            assert(tracked_r is Ok);
        }
        self.accounts.insert(current_account_id, contract_account);
        proof {
            assert(self.accounts@ =~= old(self).accounts@.insert(aid, self.accounts@[aid]));
            assert forall|a: Seq<char>| self.accounts@.contains_key(a) implies (
            #[trigger] self.accounts@[a]).wf() && self.accounts@[a].account_id@ == a by {
                if a != aid {
                    assert(self.accounts@[a] == old(self).accounts@[a]);
                }
            }
        }
        Ok(())
    }

    /// Rewrites a partner game's owner, fee share and block flag; owner
    /// only, one yocto, and the game must exist.
    pub fn alter_partner(
        &mut self,
        caller: String,
        deposit: u128,
        game_id: String,
        partner_owner: String,
        partner_fee: u128,
        blocked: bool,
    ) -> (r: Result<(), FtCasinoError>)
        requires
            old(self).wf(),
        ensures
            final(self).wf(),
            match r {
                Err(e) => {
                    &&& *final(self) == *old(self)
                    &&& match old(self).owner_gate(caller@, deposit) {
                        Some(ge) => e == ge,
                        None => e == FtCasinoError::UnknownPartner && !old(
                            self,
                        ).games@.contains_key(game_id@),
                    }
                },
                Ok(()) => {
                    &&& old(self).owner_gate(caller@, deposit) is None
                    &&& old(self).games@.contains_key(game_id@)
                    &&& *final(self) == (Contract { games: final(self).games, ..*old(self) })
                    &&& final(self).games@ == old(self).games@.insert(
                        game_id@,
                        (PartneredGame {
                            partner_owner,
                            partner_fee,
                            blocked,
                            ..old(self).games@[game_id@]
                        }),
                    )
                },
            },
    {
        if deposit != 1 {
            return Err(FtCasinoError::OneYocto);
        }
        if !(caller == self.owner_id) {
            return Err(FtCasinoError::OnlyOwner);
        }
        if !self.games.contains_key(&game_id) {
            return Err(FtCasinoError::UnknownPartner);
        }
        let ghost g = game_id@;
        let mut game = self.games.remove(&game_id).unwrap();
        game.partner_owner = partner_owner;
        game.partner_fee = partner_fee;
        game.blocked = blocked;
        self.games.insert(game_id, game);
        proof {
            assert(self.games@ =~= old(self).games@.insert(g, self.games@[g]));
        }
        Ok(())
    }

    /// Empties a partner game's accrued fee balance and returns the token
    /// transfer paying it to the partner's owner, who must be the caller.
    pub fn retrieve_partner_balance(&mut self, caller: String, game_code: String) -> (r: Result<
        TokenTransfer,
        FtCasinoError,
    >)
        requires
            old(self).wf(),
        ensures
            final(self).wf(),
            match r {
                Err(e) => {
                    &&& *final(self) == *old(self)
                    &&& if !old(self).games@.contains_key(game_code@) {
                        e == FtCasinoError::UnknownPartner
                    } else {
                        e == FtCasinoError::OnlyPartnerOwner && caller@ != old(
                            self,
                        ).games@[game_code@].partner_owner@
                    }
                },
                Ok(t) => ({
                    let game = old(self).games@[game_code@];
                    &&& old(self).games@.contains_key(game_code@)
                    &&& caller@ == game.partner_owner@
                    &&& t.token@ == game.partner_token@
                    &&& t.receiver@ == game.partner_owner@
                    &&& t.amount == game.partner_balance
                    &&& *final(self) == (Contract { games: final(self).games, ..*old(self) })
                    &&& final(self).games@ == old(self).games@.insert(
                        game_code@,
                        (PartneredGame { partner_balance: 0, ..game }),
                    )
                }),
            },
    {
        if !self.games.contains_key(&game_code) {
            return Err(FtCasinoError::UnknownPartner);
        }
        let ghost g = game_code@;
        {
            let game_ref = self.games.get(&game_code).unwrap();
            if !(caller == game_ref.partner_owner) {
                return Err(FtCasinoError::OnlyPartnerOwner);
            }
        }
        let mut game = self.games.remove(&game_code).unwrap();
        let balance = game.partner_balance;
        game.partner_balance = 0;
        let token = game.partner_token.clone();
        let receiver = game.partner_owner.clone();
        self.games.insert(game_code.clone(), game);
        proof {
            assert(self.games@ =~= old(self).games@.insert(g, self.games@[g]));
        }
        Ok(self.safe_transfer_project(token, balance, game_code, receiver))
    }

    /// Adds token funds to a game's house pool; the sending token must be
    /// the game's registered token.
    pub fn fund_game_house(&mut self, token_contract: String, amount: u128, game_code: String)
        -> (r: Result<(), FtCasinoError>)
        requires
            old(self).wf(),
            old(self).games@.contains_key(game_code@) ==> old(self).games@[game_code@].house_funds
                + amount <= u128::MAX,
        ensures
            final(self).wf(),
            match r {
                Err(e) => {
                    &&& *final(self) == *old(self)
                    &&& if !old(self).games@.contains_key(game_code@) {
                        e == FtCasinoError::UnknownPartner
                    } else {
                        e == FtCasinoError::TokenMismatch && old(
                            self,
                        ).games@[game_code@].partner_token@ != token_contract@
                    }
                },
                Ok(()) => ({
                    let game = old(self).games@[game_code@];
                    &&& old(self).games@.contains_key(game_code@)
                    &&& game.partner_token@ == token_contract@
                    &&& *final(self) == (Contract { games: final(self).games, ..*old(self) })
                    &&& final(self).games@ == old(self).games@.insert(
                        game_code@,
                        (PartneredGame {
                            house_funds: (game.house_funds + amount) as u128,
                            ..game
                        }),
                    )
                }),
            },
    {
        if !self.games.contains_key(&game_code) {
            return Err(FtCasinoError::UnknownPartner);
        }
        let ghost g = game_code@;
        {
            let game_ref = self.games.get(&game_code).unwrap();
            if !(game_ref.partner_token == token_contract) {
                return Err(FtCasinoError::TokenMismatch);
            }
        }
        let mut game = self.games.remove(&game_code).unwrap();
        game.house_funds = game.house_funds + amount;
        self.games.insert(game_code, game);
        proof {
            assert(self.games@ =~= old(self).games@.insert(g, self.games@[g]));
        }
        Ok(())
    }

    /// Credits an attached deposit to the caller's balance in a game's
    /// token, registering the balance entry when new.  Deposits at or
    /// below the minimum are refused, as is everything while paused.
    pub fn deposit_balance(&mut self, caller: String, deposit: u128, game_collection_id: String)
        -> (r: Result<u128, FtCasinoError>)
        requires
            old(self).wf(),
            old(self).min_balance_fraction > 0,
            // the host aborts on an unregistered game
            old(self).games@.contains_key(game_collection_id@),
            old(self).credits_of(caller@, old(self).games@[game_collection_id@].partner_token@)
                + deposit <= u128::MAX,
        ensures
            final(self).wf(),
            match r {
                Err(e) => {
                    &&& *final(self) == *old(self)
                    &&& if old(self).panic_button {
                        e == FtCasinoError::Paused
                    } else {
                        e == FtCasinoError::MinimumDeposit && deposit <= (old(self).min_bet as int)
                            / (old(self).min_balance_fraction as int)
                    }
                },
                Ok(credits) => ({
                    let tok = old(self).games@[game_collection_id@].partner_token@;
                    &&& !old(self).panic_button
                    &&& deposit > (old(self).min_bet as int) / (old(self).min_balance_fraction
                        as int)
                    &&& credits == old(self).credits_of(caller@, tok) + deposit
                    &&& *final(self) == (Contract { accounts: final(self).accounts, ..*old(self) })
                    &&& final(self).accounts@.dom() == old(self).accounts@.dom().insert(caller@)
                    &&& final(self).accounts@[caller@].balances@ == (if old(
                        self,
                    ).accounts@.contains_key(caller@) {
                        old(self).accounts@[caller@].balances@.insert(tok, credits)
                    } else {
                        Map::<Seq<char>, u128>::empty().insert(tok, credits)
                    })
                    &&& (old(self).accounts@.contains_key(caller@) ==> final(self).accounts@[caller@].storage_deposit == old(
                        self,
                    ).accounts@[caller@].storage_deposit && final(self).accounts@[caller@].storage_used == old(self).accounts@[caller@].storage_used)
                    &&& forall|a: Seq<char>|
                        old(self).accounts@.contains_key(a) && a != caller@ ==> final(self).accounts@[a] == (#[trigger] old(self).accounts@[a])
                }),
            },
    {
        if self.panic_button {
            return Err(FtCasinoError::Paused);
        }
        if deposit <= self.min_bet / self.min_balance_fraction {
            return Err(FtCasinoError::MinimumDeposit);
        }
        let ghost u = caller@;
        let token = {
            let game_ref = self.games.get(&game_collection_id).unwrap();
            game_ref.partner_token.clone()
        };
        let mut acct = match self.accounts.remove(&caller) {
            Some(a) => a,
            None => Account::new(&caller, 0),
        };
        let credits0 = acct.balances.get_or_zero(&token);
        let credits = credits0 + deposit;
        acct.balances.insert(token, credits);
        self.accounts.insert(caller, acct);
        proof {
            assert(self.accounts@.dom() =~= old(self).accounts@.dom().insert(u));
            assert forall|a: Seq<char>| self.accounts@.contains_key(a) implies (
            #[trigger] self.accounts@[a]).wf() && self.accounts@[a].account_id@ == a by {
                if a != u {
                    assert(self.accounts@[a] == old(self).accounts@[a]);
                }
            }
        }
        Ok(credits)
    }

    /// The credits one player holds in one partner game's token; zero for
    /// an unknown player.
    pub fn get_credits(&self, game_collection_id: String, user_account_id: String) -> (r: u128)
        requires
            self.wf(),
            // the host aborts on an unregistered game
            self.games@.contains_key(game_collection_id@),
        ensures
            r == self.credits_of(user_account_id@, self.games@[game_collection_id@].partner_token@),
    {
        let token = {
            let game_ref = self.games.get(&game_collection_id).unwrap();
            game_ref.partner_token.clone()
        };
        match self.accounts.get(&user_account_id) {
            Some(acct) => acct.balances.get_or_zero(&token),
            None => 0,
        }
    }

    /// Removes the caller's balance in a game's token and returns the
    /// token transfer paying it back to the caller.
    pub fn retrieve_credits(&mut self, caller: String, game_collection_id: String) -> (r: Result<
        TokenTransfer,
        FtCasinoError,
    >)
        requires
            old(self).wf(),
        ensures
            final(self).wf(),
            match r {
                Err(e) => {
                    &&& *final(self) == *old(self)
                    &&& if old(self).panic_button {
                        e == FtCasinoError::Paused
                    } else {
                        e == FtCasinoError::UnknownPartner && !old(self).games@.contains_key(
                            game_collection_id@,
                        )
                    }
                },
                Ok(t) => ({
                    let tok = old(self).games@[game_collection_id@].partner_token@;
                    &&& !old(self).panic_button
                    &&& old(self).games@.contains_key(game_collection_id@)
                    &&& t.token@ == tok
                    &&& t.receiver@ == caller@
                    &&& t.amount == old(self).credits_of(caller@, tok)
                    &&& *final(self) == (Contract { accounts: final(self).accounts, ..*old(self) })
                    &&& final(self).accounts@.dom() == old(self).accounts@.dom()
                    &&& (old(self).accounts@.contains_key(caller@) ==> final(self).accounts@[caller@] == (Account {
                        balances: final(self).accounts@[caller@].balances,
                        ..old(self).accounts@[caller@]
                    }) && final(self).accounts@[caller@].balances@ == old(
                        self,
                    ).accounts@[caller@].balances@.remove(tok))
                    &&& forall|a: Seq<char>|
                        old(self).accounts@.contains_key(a) && a != caller@ ==> final(self).accounts@[a] == (#[trigger] old(self).accounts@[a])
                }),
            },
    {
        if self.panic_button {
            return Err(FtCasinoError::Paused);
        }
        if !self.games.contains_key(&game_collection_id) {
            return Err(FtCasinoError::UnknownPartner);
        }
        let ghost u = caller@;
        let token = {
            let game_ref = self.games.get(&game_collection_id).unwrap();
            game_ref.partner_token.clone()
        };
        let credits = match self.accounts.remove(&caller) {
            Some(mut acct) => {
                let credits = acct.balances.get_or_zero(&token);
                let _ = acct.balances.remove(&token);
                self.accounts.insert(caller.clone(), acct);
                credits
            },
            None => 0,
        };
        proof {
            assert(self.accounts@.dom() =~= old(self).accounts@.dom());
            assert forall|a: Seq<char>| self.accounts@.contains_key(a) implies (
            #[trigger] self.accounts@[a]).wf() && self.accounts@[a].account_id@ == a by {
                if a != u {
                    assert(self.accounts@[a] == old(self).accounts@[a]);
                }
            }
        }
        let receiver = caller;
        Ok(self.safe_transfer_user(token, credits, receiver))
    }

    /// The checks a play makes before it prices the payout.
    pub open spec fn play_pre_gate(self, game: Seq<char>, user: Seq<char>, bet: u128) -> Option<
        FtCasinoError,
    > {
        if self.panic_button {
            Some(FtCasinoError::Paused)
        } else if !self.games@.contains_key(game) {
            Some(FtCasinoError::UnknownPartner)
        } else if self.credits_of(user, self.games@[game].partner_token@) < bet {
            Some(FtCasinoError::NoCredits)
        } else if bet < self.min_bet {
            Some(FtCasinoError::BetBelowMinimum)
        } else if bet > self.max_bet {
            Some(FtCasinoError::BetAboveMaximum)
        } else {
            None
        }
    }

    /// The payout a winning bet in this game would earn.
    pub open spec fn priced_payout(self, game: PartneredGame, bet: u128, odds: u128) -> int {
        win_payout(
            net_bet(bet, self.nft_fee, self.owner_fee, self.house_fee, game.partner_fee),
            odds,
            self.bet_payment_adjustment,
        )
    }

    /// The checks a play makes, pricing included: the game's house pool
    /// must cover the potential payout before the bet is taken.
    pub open spec fn play_gate(self, game: Seq<char>, user: Seq<char>, bet: u128, odds: u128)
        -> Option<FtCasinoError> {
        match self.play_pre_gate(game, user, bet) {
            Some(e) => Some(e),
            None => {
                let g = self.games@[game];
                if self.priced_payout(g, bet, odds) > g.house_funds + fee_cut(bet, self.house_fee) {
                    Some(FtCasinoError::InsufficientHouseFunds)
                } else {
                    None
                }
            },
        }
    }

    /// Resolves one play.  The four fee cuts go to the per-token holder
    /// and owner pools, the game's house pool and the partner balance; the
    /// payout is priced first and the play refused when the house pool
    /// cannot cover it.  The outcome byte is the byte sum of the
    /// host-derived random hash reduced modulo 256, and a byte below the
    /// odds wins.
    pub fn play(
        &mut self,
        caller: String,
        game_collection_id: String,
        bet_size: u128,
        odds: u128,
        random_hash: Vec<u8>,
    ) -> (r: Result<bool, FtCasinoError>)
        requires
            old(self).wf(),
            // machine limits: the host aborts the call on arithmetic
            // overflow and on odds outside a byte
            1 <= odds <= 255,
            old(self).game_count < u128::MAX,
            old(self).play_pre_gate(game_collection_id@, caller@, bet_size) is None ==> ({
                let game = old(self).games@[game_collection_id@];
                let tok = game.partner_token@;
                let net = net_bet(
                    bet_size,
                    old(self).nft_fee,
                    old(self).owner_fee,
                    old(self).house_fee,
                    game.partner_fee,
                );
                let payout = old(self).priced_payout(game, bet_size, odds);
                &&& bet_size * old(self).nft_fee <= u128::MAX
                &&& bet_size * old(self).owner_fee <= u128::MAX
                &&& bet_size * old(self).house_fee <= u128::MAX
                &&& bet_size * game.partner_fee <= u128::MAX
                &&& fee_cut(bet_size, old(self).nft_fee) + fee_cut(bet_size, old(self).owner_fee)
                    + fee_cut(bet_size, old(self).house_fee) + fee_cut(bet_size, game.partner_fee)
                    <= bet_size
                &&& balance_or_zero(old(self).nft_balance@, tok) + fee_cut(
                    bet_size,
                    old(self).nft_fee,
                ) <= u128::MAX
                &&& balance_or_zero(old(self).owner_balance@, tok) + fee_cut(
                    bet_size,
                    old(self).owner_fee,
                ) <= u128::MAX
                &&& game.house_funds + fee_cut(bet_size, old(self).house_fee) <= u128::MAX
                &&& game.partner_balance + fee_cut(bet_size, game.partner_fee) <= u128::MAX
                &&& net * 256 <= u128::MAX
                &&& ((net * 256) / (odds as int)) * old(self).bet_payment_adjustment <= u128::MAX
                &&& old(self).credits_of(caller@, tok) - bet_size + payout <= u128::MAX
            }),
        ensures
            final(self).wf(),
            match r {
                Err(e) => {
                    &&& *final(self) == *old(self)
                    &&& Some(e) == old(self).play_gate(game_collection_id@, caller@, bet_size, odds)
                },
                Ok(outcome) => ({
                    let game = old(self).games@[game_collection_id@];
                    let tok = game.partner_token@;
                    let payout = old(self).priced_payout(game, bet_size, odds);
                    let bal0 = old(self).credits_of(caller@, tok);
                    &&& old(self).play_gate(game_collection_id@, caller@, bet_size, odds) is None
                    &&& outcome == (byte_sum(random_hash@) % 256 < odds)
                    &&& same_ft_casino_config(*final(self), *old(self))
                    &&& final(self).game_count == old(self).game_count + 1
                    &&& final(self).nft_balance@ == old(self).nft_balance@.insert(
                        tok,
                        (balance_or_zero(old(self).nft_balance@, tok) + fee_cut(
                            bet_size,
                            old(self).nft_fee,
                        )) as u128,
                    )
                    &&& final(self).owner_balance@ == old(self).owner_balance@.insert(
                        tok,
                        (balance_or_zero(old(self).owner_balance@, tok) + fee_cut(
                            bet_size,
                            old(self).owner_fee,
                        )) as u128,
                    )
                    &&& final(self).games@ == old(self).games@.insert(
                        game_collection_id@,
                        (PartneredGame {
                            partner_balance: (game.partner_balance + fee_cut(
                                bet_size,
                                game.partner_fee,
                            )) as u128,
                            house_funds: (game.house_funds + fee_cut(bet_size, old(self).house_fee)
                                - (if outcome {
                                payout
                            } else {
                                0
                            })) as u128,
                            ..game
                        }),
                    )
                    &&& final(self).accounts@.dom() == old(self).accounts@.dom().insert(caller@)
                    &&& final(self).accounts@[caller@].balances@ == (if old(
                        self,
                    ).accounts@.contains_key(caller@) {
                        old(self).accounts@[caller@].balances@
                    } else {
                        Map::<Seq<char>, u128>::empty()
                    }).insert(
                        tok,
                        (if outcome {
                            bal0 - bet_size + payout
                        } else {
                            bal0 - bet_size
                        }) as u128,
                    )
                    &&& forall|a: Seq<char>|
                        old(self).accounts@.contains_key(a) && a != caller@ ==> final(self).accounts@[a] == (#[trigger] old(self).accounts@[a])
                }),
            },
    {
        let ghost g = game_collection_id@;
        let ghost u = caller@;
        if self.panic_button {
            return Err(FtCasinoError::Paused);
        }
        let (token, partner_fee, partner_balance0, house_funds0) = match self.games.get(
            &game_collection_id,
        ) {
            None => {
                return Err(FtCasinoError::UnknownPartner);
            },
            Some(game) => (
                game.partner_token.clone(),
                game.partner_fee,
                game.partner_balance,
                game.house_funds,
            ),
        };
        let credits0 = match self.accounts.get(&caller) {
            Some(acct) => acct.balances.get_or_zero(&token),
            None => 0,
        };
        if credits0 < bet_size {
            return Err(FtCasinoError::NoCredits);
        }
        if bet_size < self.min_bet {
            return Err(FtCasinoError::BetBelowMinimum);
        }
        if bet_size > self.max_bet {
            return Err(FtCasinoError::BetAboveMaximum);
        }

        let nft_cut = bet_size * self.nft_fee / FRACTIONAL_BASE;
        let owner_cut = bet_size * self.owner_fee / FRACTIONAL_BASE;
        let house_cut = bet_size * self.house_fee / FRACTIONAL_BASE;
        let partner_cut = bet_size * partner_fee / FRACTIONAL_BASE;
        let net = bet_size - nft_cut - owner_cut - house_cut - partner_cut;
        let won_value = ((net * 256) / odds) * self.bet_payment_adjustment / FRACTIONAL_BASE;
        let new_house = house_funds0 + house_cut;
        if won_value > new_house {
            return Err(FtCasinoError::InsufficientHouseFunds);
        }

        let nb0 = self.nft_balance.get_or_zero(&token);
        self.nft_balance.insert(token.clone(), nb0 + nft_cut);
        let ob0 = self.owner_balance.get_or_zero(&token);
        self.owner_balance.insert(token.clone(), ob0 + owner_cut);

        let rand_shuffled = shuffle_byte(&random_hash);
        let u8_odds = odds as u8;
        let outcome = rand_shuffled < u8_odds;

        let mut game = self.games.remove(&game_collection_id).unwrap();
        game.partner_balance = partner_balance0 + partner_cut;
        game.house_funds = if outcome {
            new_house - won_value
        } else {
            new_house
        };
        self.games.insert(game_collection_id, game);

        let mut new_credits = credits0 - bet_size;
        if outcome {
            new_credits = new_credits + won_value;
        }
        let mut acct = match self.accounts.remove(&caller) {
            Some(a) => a,
            None => Account::new(&caller, 0),
        };
        acct.balances.insert(token, new_credits);
        self.accounts.insert(caller, acct);
        self.game_count = self.game_count + 1;
        proof {
            let game0 = old(self).games@[g];
            let payout = old(self).priced_payout(game0, bet_size, odds);
            assert(self.games@ =~= old(self).games@.insert(
                g,
                (PartneredGame {
                    partner_balance: (game0.partner_balance + fee_cut(
                        bet_size,
                        game0.partner_fee,
                    )) as u128,
                    house_funds: (game0.house_funds + fee_cut(bet_size, old(self).house_fee) - (
                    if byte_sum(random_hash@) % 256 < odds {
                        payout
                    } else {
                        0
                    })) as u128,
                    ..game0
                }),
            ));
            assert(self.accounts@.dom() =~= old(self).accounts@.dom().insert(u));
            assert forall|a: Seq<char>| self.accounts@.contains_key(a) implies (
            #[trigger] self.accounts@[a]).wf() && self.accounts@[a].account_id@ == a by {
                if a != u {
                    assert(self.accounts@[a] == old(self).accounts@[a]);
                }
            }
        }
        Ok(outcome)
    }
}

impl Contract {
    /// Credits a token transfer to the sender's playing balance in that
    /// token, registering the balance entry when new.
    pub fn user_deposit_balance(&mut self, sender_id: String, token_contract: String, amount: u128)
        requires
            old(self).wf(),
            old(self).credits_of(sender_id@, token_contract@) + amount <= u128::MAX,
        ensures
            final(self).wf(),
            *final(self) == (Contract { accounts: final(self).accounts, ..*old(self) }),
            final(self).accounts@.dom() == old(self).accounts@.dom().insert(sender_id@),
            final(self).accounts@[sender_id@].balances@ == (if old(self).accounts@.contains_key(
                sender_id@,
            ) {
                old(self).accounts@[sender_id@].balances@
            } else {
                Map::<Seq<char>, u128>::empty()
            }).insert(
                token_contract@,
                (old(self).credits_of(sender_id@, token_contract@) + amount) as u128,
            ),
            old(self).accounts@.contains_key(sender_id@) ==> final(self).accounts@[sender_id@].storage_deposit == old(
                self,
            ).accounts@[sender_id@].storage_deposit && final(self).accounts@[sender_id@].storage_used == old(self).accounts@[sender_id@].storage_used,
            forall|a: Seq<char>|
                old(self).accounts@.contains_key(a) && a != sender_id@ ==> final(self).accounts@[a]
                    == (#[trigger] old(self).accounts@[a]),
    {
        let ghost u = sender_id@;
        let mut acct = match self.accounts.remove(&sender_id) {
            Some(a) => a,
            None => Account::new(&sender_id, 0),
        };
        let credits0 = acct.balances.get_or_zero(&token_contract);
        acct.balances.insert(token_contract, credits0 + amount);
        self.accounts.insert(sender_id, acct);
        proof {
            assert(self.accounts@.dom() =~= old(self).accounts@.dom().insert(u));
            assert forall|a: Seq<char>| self.accounts@.contains_key(a) implies (
            #[trigger] self.accounts@[a]).wf() && self.accounts@[a].account_id@ == a by {
                if a != u {
                    assert(self.accounts@[a] == old(self).accounts@[a]);
                }
            }
        }
    }

    /// Routes a token transfer by its message: funding a game's house
    /// pool, or depositing playing credits for the sender.  Returns how
    /// much of the transfer is given back: nothing.
    pub fn ft_on_transfer(
        &mut self,
        sender_id: String,
        token_contract: String,
        amount: u128,
        msg: String,
    ) -> (r: Result<u128, FtCasinoError>)
        requires
            old(self).wf(),
            match spec_parse_call_type(msg@) {
                Some(Some(code)) => old(self).games@.contains_key(code) ==> old(
                    self,
                ).games@[code].house_funds + amount <= u128::MAX,
                Some(None) => old(self).credits_of(sender_id@, token_contract@) + amount
                    <= u128::MAX,
                None => true,
            },
        ensures
            final(self).wf(),
            match spec_parse_call_type(msg@) {
                None => r == Err::<u128, FtCasinoError>(FtCasinoError::BadMessage) && *final(self)
                    == *old(self),
                Some(Some(code)) => match r {
                    Err(e) => {
                        &&& *final(self) == *old(self)
                        &&& if !old(self).games@.contains_key(code) {
                            e == FtCasinoError::UnknownPartner
                        } else {
                            e == FtCasinoError::TokenMismatch && old(
                                self,
                            ).games@[code].partner_token@ != token_contract@
                        }
                    },
                    Ok(give_back) => ({
                        let game = old(self).games@[code];
                        &&& give_back == 0
                        &&& old(self).games@.contains_key(code)
                        &&& game.partner_token@ == token_contract@
                        &&& *final(self) == (Contract { games: final(self).games, ..*old(self) })
                        &&& final(self).games@ == old(self).games@.insert(
                            code,
                            (PartneredGame {
                                house_funds: (game.house_funds + amount) as u128,
                                ..game
                            }),
                        )
                    }),
                },
                Some(None) => {
                    &&& r == Ok::<u128, FtCasinoError>(0)
                    &&& *final(self) == (Contract { accounts: final(self).accounts, ..*old(self) })
                    &&& final(self).accounts@.dom() == old(self).accounts@.dom().insert(sender_id@)
                    &&& final(self).accounts@[sender_id@].balances@ == (if old(
                        self,
                    ).accounts@.contains_key(sender_id@) {
                        old(self).accounts@[sender_id@].balances@
                    } else {
                        Map::<Seq<char>, u128>::empty()
                    }).insert(
                        token_contract@,
                        (old(self).credits_of(sender_id@, token_contract@) + amount) as u128,
                    )
                    &&& forall|a: Seq<char>|
                        old(self).accounts@.contains_key(a) && a != sender_id@ ==> final(self).accounts@[a] == (#[trigger] old(self).accounts@[a])
                },
            },
    {
        match parse_call_type(msg.as_str()) {
            None => Err(FtCasinoError::BadMessage),
            Some(CallType::FundGame { game_code }) => {
                match self.fund_game_house(token_contract, amount, game_code) {
                    Ok(()) => Ok(0),
                    Err(e) => Err(e),
                }
            },
            Some(CallType::DepositBalance) => {
                self.user_deposit_balance(sender_id, token_contract, amount);
                Ok(0)
            },
        }
    }

    /// Restores the owner fee pool when the dispatched payout failed.
    pub fn owner_transfer_callback(&mut self, success: bool, token_contract: String, amount: u128)
        requires
            old(self).wf(),
        ensures
            final(self).wf(),
            success ==> *final(self) == *old(self),
            !success ==> {
                &&& *final(self) == (Contract {
                    owner_balance: final(self).owner_balance,
                    ..*old(self)
                })
                &&& final(self).owner_balance@ == old(self).owner_balance@.insert(
                    token_contract@,
                    amount,
                )
            },
    {
        if !success {
            self.owner_balance.insert(token_contract, amount);
        }
    }

    /// Restores the token holders' fee pool when the dispatched payout
    /// failed.
    pub fn nft_transfer_callback(&mut self, success: bool, token_contract: String, amount: u128)
        requires
            old(self).wf(),
        ensures
            final(self).wf(),
            success ==> *final(self) == *old(self),
            !success ==> {
                &&& *final(self) == (Contract {
                    nft_balance: final(self).nft_balance,
                    ..*old(self)
                })
                &&& final(self).nft_balance@ == old(self).nft_balance@.insert(
                    token_contract@,
                    amount,
                )
            },
    {
        if !success {
            self.nft_balance.insert(token_contract, amount);
        }
    }

    /// Restores a partner's accrued balance when the dispatched payout
    /// failed.
    pub fn project_transfer_callback(&mut self, success: bool, amount: u128, project_id: String)
        requires
            old(self).wf(),
            // the host aborts on an unknown game and on overflow
            !success ==> old(self).games@.contains_key(project_id@) && old(
                self,
            ).games@[project_id@].partner_balance + amount <= u128::MAX,
        ensures
            final(self).wf(),
            success ==> *final(self) == *old(self),
            !success ==> {
                &&& *final(self) == (Contract { games: final(self).games, ..*old(self) })
                &&& final(self).games@ == old(self).games@.insert(
                    project_id@,
                    (PartneredGame {
                        partner_balance: (old(self).games@[project_id@].partner_balance
                            + amount) as u128,
                        ..old(self).games@[project_id@]
                    }),
                )
            },
    {
        if !success {
            let ghost g = project_id@;
            let mut game = self.games.remove(&project_id).unwrap();
            game.partner_balance = game.partner_balance + amount;
            self.games.insert(project_id, game);
            proof {
                assert(self.games@ =~= old(self).games@.insert(g, self.games@[g]));
            }
        }
    }

    /// Settles a user payout: on success a drained-to-zero balance entry
    /// is dropped and the storage released is credited back; on failure
    /// the paid amount is restored to the user's balance.  Either way the
    /// measured storage change is booked against the user's account.
    pub fn user_transfer_callback(
        &mut self,
        success: bool,
        token_contract: String,
        amount: u128,
        user_account_id: String,
        initial_storage: u64,
        final_storage: u64,
    ) -> (r: Result<(), FtCasinoError>)
        requires
            old(self).wf(),
            // the host aborts on an unregistered user and on overflow
            old(self).accounts@.contains_key(user_account_id@),
            final_storage > initial_storage ==> old(
                self,
            ).accounts@[user_account_id@].storage_used + (final_storage - initial_storage)
                <= u64::MAX,
            final_storage <= initial_storage ==> old(
                self,
            ).accounts@[user_account_id@].storage_used >= initial_storage - final_storage,
            old(self).credits_of(user_account_id@, token_contract@) + amount <= u128::MAX,
        ensures
            final(self).wf(),
            ({
                let a0 = old(self).accounts@[user_account_id@];
                let zero_entry = a0.balances@.contains_key(token_contract@)
                    && a0.balances@[token_contract@] == 0;
                let new_used = (if final_storage > initial_storage {
                    a0.storage_used + final_storage - initial_storage
                } else {
                    a0.storage_used - (initial_storage - final_storage)
                });
                match r {
                    Err(e) => {
                        &&& *final(self) == *old(self)
                        &&& e == FtCasinoError::InsufficientStorage
                        &&& (!success || zero_entry)
                        &&& final_storage > initial_storage
                        &&& (a0.storage_used + final_storage - initial_storage) * STORAGE_BYTE_COST
                            > a0.storage_deposit
                    },
                    Ok(()) => {
                        &&& *final(self) == (Contract {
                            accounts: final(self).accounts,
                            ..*old(self)
                        })
                        &&& if success {
                            if zero_entry {
                                &&& final(self).accounts@ == old(self).accounts@.insert(
                                    user_account_id@,
                                    final(self).accounts@[user_account_id@],
                                )
                                &&& final(self).accounts@[user_account_id@].balances@
                                    == a0.balances@.remove(token_contract@)
                                &&& final(self).accounts@[user_account_id@].storage_used
                                    == new_used
                                &&& final(self).accounts@[user_account_id@].storage_deposit
                                    == a0.storage_deposit
                            } else {
                                *final(self) == *old(self)
                            }
                        } else {
                            &&& final(self).accounts@ == old(self).accounts@.insert(
                                user_account_id@,
                                final(self).accounts@[user_account_id@],
                            )
                            &&& final(self).accounts@[user_account_id@].balances@
                                == a0.balances@.insert(
                                token_contract@,
                                (old(self).credits_of(user_account_id@, token_contract@)
                                    + amount) as u128,
                            )
                            &&& final(self).accounts@[user_account_id@].storage_used == new_used
                            &&& final(self).accounts@[user_account_id@].storage_deposit
                                == a0.storage_deposit
                        }
                    },
                }
            }),
            forall|a: Seq<char>|
                old(self).accounts@.contains_key(a) && a != user_account_id@ ==> final(self).accounts@[a] == (#[trigger] old(self).accounts@[a]),
    {
        let ghost u = user_account_id@;
        if success {
            let zero_entry = {
                let acct = self.accounts.get(&user_account_id).unwrap();
                match acct.balances.get(&token_contract) {
                    Some(v) => *v == 0,
                    None => false,
                }
            };
            if !zero_entry {
                return Ok(());
            }
        }
        if final_storage > initial_storage {
            let acct = self.accounts.get(&user_account_id).unwrap();
            let new_used = acct.storage_used + (final_storage - initial_storage);
            proof {
                vstd::arithmetic::mul::lemma_mul_inequality(
                    new_used as int,
                    u64::MAX as int,
                    STORAGE_BYTE_COST as int,
                );
            }
            if (new_used as u128) * STORAGE_BYTE_COST > acct.storage_deposit {
                return Err(FtCasinoError::InsufficientStorage);
            }
        }
        let mut acct = self.accounts.remove(&user_account_id).unwrap();
        if success {
            let _ = acct.balances.remove(&token_contract);
        } else {
            let current_balance = acct.balances.get_or_zero(&token_contract);
            acct.balances.insert(token_contract, current_balance + amount);
        }
        let tracked_r = acct.track_storage_usage(initial_storage, final_storage);
        proof {
            assert(tracked_r is Ok);
        }
        self.accounts.insert(user_account_id, acct);
        proof {
            assert(self.accounts@ =~= old(self).accounts@.insert(u, self.accounts@[u]));
            assert forall|a: Seq<char>| self.accounts@.contains_key(a) implies (
            #[trigger] self.accounts@[a]).wf() && self.accounts@[a].account_id@ == a by {
                if a != u {
                    assert(self.accounts@[a] == old(self).accounts@[a]);
                }
            }
        }
        Ok(())
    }
}

impl Contract {
    /// Registers or tops up a storage balance.  A registration-only
    /// deposit is capped at the minimum, with the surplus refunded; the
    /// deposit must cover the rent of the storage measured.  Returns the
    /// recorded balance and the refund owed to the caller.
    pub fn storage_deposit(
        &mut self,
        caller: String,
        amount: u128,
        account_id: Option<String>,
        registration_only: Option<bool>,
        initial_storage: u64,
        final_storage: u64,
    ) -> (r: Result<(StorageBalance, u128), FtCasinoError>)
        requires
            old(self).wf(),
            ({
                let account = match account_id {
                    Some(a) => a@,
                    None => caller@,
                };
                &&& (old(self).accounts@.contains_key(account) ==> old(
                    self,
                ).accounts@[account].storage_deposit + amount <= u128::MAX)
                &&& (old(self).accounts@.contains_key(account) && final_storage > initial_storage
                    ==> old(self).accounts@[account].storage_used + (final_storage
                    - initial_storage) <= u64::MAX)
            }),
        ensures
            final(self).wf(),
            *final(self) == (Contract { accounts: final(self).accounts, ..*old(self) }),
            ({
                let account = match account_id {
                    Some(a) => a@,
                    None => caller@,
                };
                let registration = match registration_only {
                    Some(b) => b,
                    None => false,
                };
                let already = old(self).accounts@.contains_key(account);
                let added = if registration {
                    if already {
                        0
                    } else {
                        MIN_STORAGE_BALANCE as int
                    }
                } else {
                    amount as int
                };
                let dep_after = (if already {
                    old(self).accounts@[account].storage_deposit + added
                } else {
                    added
                });
                let used_after = (if already {
                    old(self).accounts@[account].storage_used as int
                } else {
                    0
                }) + (if final_storage > initial_storage {
                    final_storage - initial_storage
                } else {
                    0
                });
                match r {
                    Err(e) => {
                        &&& *final(self) == *old(self)
                        &&& if amount < MIN_STORAGE_BALANCE && !already {
                            e == FtCasinoError::MinimumStorageDeposit
                        } else {
                            e == FtCasinoError::InsufficientStorage && used_after
                                * STORAGE_BYTE_COST > dep_after
                        }
                    },
                    Ok((balance, refund)) => {
                        &&& (already || amount >= MIN_STORAGE_BALANCE)
                        &&& used_after * STORAGE_BYTE_COST <= dep_after
                        &&& refund == if registration {
                            if already {
                                amount as int
                            } else {
                                amount - MIN_STORAGE_BALANCE
                            }
                        } else {
                            0
                        }
                        &&& final(self).accounts@.dom() == old(self).accounts@.dom().insert(
                            account,
                        )
                        &&& final(self).accounts@[account].storage_deposit == dep_after
                        &&& balance.total == dep_after
                        &&& balance.available == dep_after - final(self).accounts@[account].storage_used * STORAGE_BYTE_COST
                        &&& (already ==> final(self).accounts@[account] == (Account {
                            storage_deposit: dep_after as u128,
                            ..old(self).accounts@[account]
                        }))
                        &&& forall|a: Seq<char>|
                            old(self).accounts@.contains_key(a) && a != account ==> final(self).accounts@[a] == (#[trigger] old(self).accounts@[a])
                    },
                }
            }),
    {
        let account = match account_id {
            Some(a) => a,
            None => caller,
        };
        let ghost aid = account@;
        let registration = match registration_only {
            Some(b) => b,
            None => false,
        };
        let min_balance = MIN_STORAGE_BALANCE;
        let already_registered = self.accounts.contains_key(&account);
        if amount < min_balance && !already_registered {
            return Err(FtCasinoError::MinimumStorageDeposit);
        }
        let added = if registration {
            if already_registered {
                0
            } else {
                min_balance
            }
        } else {
            amount
        };
        let refund = if registration {
            if already_registered {
                amount
            } else {
                amount - min_balance
            }
        } else {
            0
        };
        let (dep_after, used0) = match self.accounts.get(&account) {
            Some(a) => (a.storage_deposit + added, a.storage_used),
            None => (added, 0),
        };
        if final_storage > initial_storage {
            let used_after = used0 + (final_storage - initial_storage);
            proof {
                vstd::arithmetic::mul::lemma_mul_inequality(
                    used_after as int,
                    u64::MAX as int,
                    STORAGE_BYTE_COST as int,
                );
            }
            if (used_after as u128) * STORAGE_BYTE_COST > dep_after {
                return Err(FtCasinoError::InsufficientStorage);
            }
        } else {
            proof {
                vstd::arithmetic::mul::lemma_mul_inequality(
                    used0 as int,
                    u64::MAX as int,
                    STORAGE_BYTE_COST as int,
                );
            }
        }
        self.internal_deposit_storage_account(&account, added);
        let acct = self.internal_get_account(&account).unwrap();
        let total = acct.storage_deposit;
        let locked = acct.storage_usage_cost();
        let balance = StorageBalance { total, available: total - locked };
        Ok((balance, refund))
    }

    /// Withdraws available storage funds to the caller: a given amount, or
    /// everything available when none is named; one yocto must be
    /// attached.  Returns the updated balance and the transfer owed.
    pub fn storage_withdraw(&mut self, caller: String, deposit: u128, amount: Option<u128>) -> (r:
        Result<(StorageBalance, Transfer), FtCasinoError>)
        requires
            old(self).wf(),
        ensures
            final(self).wf(),
            *final(self) == (Contract { accounts: final(self).accounts, ..*old(self) }),
            match r {
                Err(e) => {
                    &&& *final(self) == *old(self)
                    &&& if deposit != 1 {
                        e == FtCasinoError::OneYocto
                    } else if !old(self).accounts@.contains_key(caller@) {
                        e == FtCasinoError::AccountNotRegistered
                    } else {
                        let avail = old(self).accounts@[caller@].spec_storage_funds_available();
                        let asked = match amount {
                            Some(a) => a as int,
                            None => 0,
                        };
                        e == FtCasinoError::InsufficientStorage && (avail == 0 || asked > avail)
                    }
                },
                Ok((balance, t)) => ({
                    let a0 = old(self).accounts@[caller@];
                    let avail = a0.spec_storage_funds_available();
                    let w = match amount {
                        Some(a) => if a == 0 {
                            avail
                        } else {
                            a as int
                        },
                        None => avail,
                    };
                    &&& deposit == 1
                    &&& old(self).accounts@.contains_key(caller@)
                    &&& avail > 0
                    &&& w <= avail
                    &&& t.receiver@ == caller@
                    &&& t.amount == w
                    &&& balance.total == a0.storage_deposit - w
                    &&& balance.available == avail - w
                    &&& final(self).accounts@ == old(self).accounts@.insert(
                        caller@,
                        (Account { storage_deposit: (a0.storage_deposit - w) as u128, ..a0 }),
                    )
                }),
            },
    {
        if deposit != 1 {
            return Err(FtCasinoError::OneYocto);
        }
        let asked = match amount {
            Some(a) => a,
            None => 0,
        };
        let withdraw_amount = match self.internal_storage_withdraw_account(&caller, asked) {
            Ok(w) => w,
            Err(e) => {
                return Err(e);
            },
        };
        let receiver = caller.clone();
        let acct = self.internal_get_account(&caller).unwrap();
        let total = acct.storage_deposit;
        let locked = acct.storage_usage_cost();
        let balance = StorageBalance { total, available: total - locked };
        Ok((balance, Transfer { receiver, amount: withdraw_amount }))
    }

    /// Unregisters the caller, returning their whole storage deposit,
    /// provided no token balances remain; one yocto must be attached.
    /// Reports `false` without a transfer when the caller never
    /// registered.
    pub fn storage_unregister(&mut self, caller: String, deposit: u128, _force: Option<bool>) -> (r:
        Result<(bool, Option<Transfer>), FtCasinoError>)
        requires
            old(self).wf(),
        ensures
            final(self).wf(),
            *final(self) == (Contract { accounts: final(self).accounts, ..*old(self) }),
            match r {
                Err(e) => {
                    &&& *final(self) == *old(self)
                    &&& if deposit != 1 {
                        e == FtCasinoError::OneYocto
                    } else {
                        &&& e == FtCasinoError::BalancesNotEmpty
                        &&& old(self).accounts@.contains_key(caller@)
                        &&& old(self).accounts@[caller@].balances@ != Map::<Seq<char>, u128>::empty()
                    }
                },
                Ok((removed, t)) => {
                    &&& deposit == 1
                    &&& if removed {
                        &&& old(self).accounts@.contains_key(caller@)
                        &&& final(self).accounts@ == old(self).accounts@.remove(caller@)
                        &&& t == Some(
                            Transfer {
                                receiver: caller,
                                amount: old(self).accounts@[caller@].storage_deposit,
                            },
                        )
                    } else {
                        &&& !old(self).accounts@.contains_key(caller@)
                        &&& *final(self) == *old(self)
                        &&& t is None
                    }
                },
            },
    {
        if deposit != 1 {
            return Err(FtCasinoError::OneYocto);
        }
        let is_registered = self.accounts.contains_key(&caller);
        if !is_registered {
            return Ok((false, None));
        }
        {
            let acct = self.accounts.get(&caller).unwrap();
            if !acct.balances.is_empty() {
                return Err(FtCasinoError::BalancesNotEmpty);
            }
        }
        let acct = self.accounts.remove(&caller).unwrap();
        let refund = acct.storage_deposit;
        proof {
            assert forall|a: Seq<char>| self.accounts@.contains_key(a) implies (
            #[trigger] self.accounts@[a]).wf() && self.accounts@[a].account_id@ == a by {
                assert(self.accounts@[a] == old(self).accounts@[a]);
            }
        }
        Ok((true, Some(Transfer { receiver: caller, amount: refund })))
    }

    /// The registration bounds of this casino.
    pub fn storage_balance_bounds(&self) -> (r: StorageBalanceBounds)
        ensures
            r == (StorageBalanceBounds { min: MIN_STORAGE_BALANCE, max: None::<u128> }),
    {
        StorageBalanceBounds { min: MIN_STORAGE_BALANCE, max: None }
    }

    /// The storage balance one account has registered, if any: its whole
    /// deposit, and the part not locked as rent.
    pub fn storage_balance_of(&self, account_id: String) -> (r: Option<StorageBalance>)
        requires
            self.wf(),
        ensures
            match r {
                Some(b) => {
                    &&& self.accounts@.contains_key(account_id@)
                    &&& b.total == self.accounts@[account_id@].storage_deposit
                    &&& b.available == self.accounts@[account_id@].spec_storage_funds_available()
                },
                None => !self.accounts@.contains_key(account_id@),
            },
    {
        match self.accounts.get(&account_id) {
            Some(acct) => {
                let total = acct.storage_deposit;
                let locked = acct.storage_usage_cost();
                Some(StorageBalance { total, available: total - locked })
            },
            None => None,
        }
    }

    /// The serialized configuration: every scalar field, in declaration
    /// order, as one object.
    pub open spec fn contract_state_json(self) -> Seq<char> {
        "{\"owner_id\":\""@ + self.owner_id@ + "\",\"nft_account\":\""@ + self.nft_account@
            + "\",\"panic_button\":"@ + (if self.panic_button {
            "true"@
        } else {
            "false"@
        }) + ",\"bet_payment_adjustment\":"@ + dec_str(self.bet_payment_adjustment as int)
            + ",\"nft_fee\":"@ + dec_str(self.nft_fee as int) + ",\"owner_fee\":"@ + dec_str(
            self.owner_fee as int,
        ) + ",\"house_fee\":"@ + dec_str(self.house_fee as int) + ",\"max_bet\":"@ + dec_str(
            self.max_bet as int,
        ) + ",\"min_bet\":"@ + dec_str(self.min_bet as int) + ",\"min_balance_fraction\":"@
            + dec_str(self.min_balance_fraction as int) + ",\"max_odds\":"@ + dec_str(
            self.max_odds as int,
        ) + ",\"min_odds\":"@ + dec_str(self.min_odds as int) + ",\"game_count\":"@ + dec_str(
            self.game_count as int,
        ) + "}"@
    }

    /// Renders `contract_state_json`.
    pub fn get_contract_state(&self) -> (state: String)
        ensures
            state@ == self.contract_state_json(),
    {
        let mut state = String::new();
        state.append("{\"owner_id\":\"");
        state.append(self.owner_id.as_str());
        state.append("\",\"nft_account\":\"");
        state.append(self.nft_account.as_str());
        state.append("\",\"panic_button\":");
        state.append(bool_to_dec_str(self.panic_button));
        state.append(",\"bet_payment_adjustment\":");
        state.append(u128_to_dec(self.bet_payment_adjustment).as_str());
        state.append(",\"nft_fee\":");
        state.append(u128_to_dec(self.nft_fee).as_str());
        state.append(",\"owner_fee\":");
        state.append(u128_to_dec(self.owner_fee).as_str());
        state.append(",\"house_fee\":");
        state.append(u128_to_dec(self.house_fee).as_str());
        state.append(",\"max_bet\":");
        state.append(u128_to_dec(self.max_bet).as_str());
        state.append(",\"min_bet\":");
        state.append(u128_to_dec(self.min_bet).as_str());
        state.append(",\"min_balance_fraction\":");
        state.append(u128_to_dec(self.min_balance_fraction).as_str());
        state.append(",\"max_odds\":");
        state.append(u128_to_dec(self.max_odds as u128).as_str());
        state.append(",\"min_odds\":");
        state.append(u128_to_dec(self.min_odds as u128).as_str());
        state.append(",\"game_count\":");
        state.append(u128_to_dec(self.game_count).as_str());
        state.append("}");
        proof {
            assert(state@ =~= self.contract_state_json());
        }
        state
    }

    /// A copy of the partner game registered under an address.
    pub fn view_partner_data(&self, nft_contract: String) -> (r: Result<
        PartneredGame,
        FtCasinoError,
    >)
        requires
            self.wf(),
        ensures
            match r {
                Ok(g) => self.games@.contains_key(nft_contract@) && g == self.games@[nft_contract@],
                Err(e) => e == FtCasinoError::UnknownPartner && !self.games@.contains_key(
                    nft_contract@,
                ),
            },
    {
        match self.games.get(&nft_contract) {
            Some(g) => Ok(g.clone()),
            None => Err(FtCasinoError::UnknownPartner),
        }
    }
}

/// Sum of the bytes of a host-derived random hash.
pub open spec fn byte_sum(s: Seq<u8>) -> int
    decreases s.len(),
{
    if s.len() == 0 {
        0
    } else {
        byte_sum(s.drop_last()) + s.last()
    }
}

/// Reduces a random hash to one byte: the byte sum modulo 256.
pub fn shuffle_byte(hash: &Vec<u8>) -> (r: u8)
    ensures
        r == byte_sum(hash@) % 256,
{
    let n = hash.len();
    let mut sum: u128 = 0;
    for i in 0..n
        invariant
            n == hash@.len(),
            sum == byte_sum(hash@.subrange(0, i as int)),
            sum <= i * 255,
    {
        proof {
            assert(hash@.subrange(0, i + 1).drop_last() =~= hash@.subrange(0, i as int));
            assert(hash@.subrange(0, i + 1).last() == hash@[i as int]);
        }
        sum = sum + (hash[i] as u128);
    }
    proof {
        assert(hash@.subrange(0, n as int) =~= hash@);
        vstd::arithmetic::div_mod::lemma_mod_bound(byte_sum(hash@), 256);
    }
    (sum % 256) as u8
}

/// A play the guards admit never pays out more than its funding pool: the
/// priced payout is covered by the game's house pool together with the
/// house cut the bet itself contributes.
pub proof fn lemma_payout_within_pool(
    m: Contract,
    game: Seq<char>,
    user: Seq<char>,
    bet: u128,
    odds: u128,
)
    requires
        m.play_gate(game, user, bet, odds) is None,
    ensures
        m.play_pre_gate(game, user, bet) is None,
        m.priced_payout(m.games@[game], bet, odds) <= m.games@[game].house_funds + fee_cut(
            bet,
            m.house_fee,
        ),
{
}

} // verus!
