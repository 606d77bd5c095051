//! The token casino: the partnered casino rebuilt over fungible tokens.
//! Fee pools are kept per token contract, every partner game carries its
//! own sub-house pool that must cover a payout before the bet is taken,
//! and players pay storage rent from a registered storage balance.

use vstd::prelude::*;

use crate::account_id::is_valid_account_id;
use crate::account_id::valid_account_id;
use crate::assoc::AssocMap;
use crate::assoc::balance_or_zero;
use crate::casino::fee_cut;
use crate::casino::net_bet;
use crate::casino::win_payout;
use crate::messages::lemma_first_quote_is;
use crate::messages::matches_at;
use crate::messages::no_quote;
use crate::messages::parse_tail;
use crate::messages::spec_matches_at;
use crate::messages::spec_parse_tail;
use crate::transfer::TokenTransfer;
use crate::transfer::Transfer;

verus! {

/// Denominator of every fee fraction and of the payment adjustment.
pub const FRACTIONAL_BASE: u128 = 100_000;

/// Rent the chain charges per byte of stored state, in yocto.
pub const STORAGE_BYTE_COST: u128 = 10_000_000_000_000_000_000;

/// The smallest storage deposit accepted at registration.
pub const MIN_STORAGE_BALANCE: u128 = 100_000_000_000_000_000_000_000;

#[derive(Clone, Copy, PartialEq, Eq, Structural, Debug)]
pub enum TokenCasinoError {
    /// The owner account handed to the constructor is not a valid account id.
    InvalidOwnerAccount,
    /// The panic switch is on: wagering is halted.
    Paused,
    /// Only the owner may call this entry point.
    OnlyOwner,
    /// Exactly one yocto of native currency must be attached.
    OneYocto,
    /// The deposit is at or below the minimum accepted deposit.
    MinimumDeposit,
    /// No partner game is registered under this collection id.
    UnknownGame,
    /// A partner game is already registered under this collection id.
    GameAlreadyExists,
    /// The caller's credits do not cover the bet.
    NoCredits,
    /// The bet is below the minimum bet.
    BetBelowMinimum,
    /// The bet is above the maximum bet.
    BetAboveMaximum,
    /// The game's sub-house pool does not cover the potential payout.
    InsufficientHouseFunds,
    /// The token that sent the funds is not the game's registered token.
    TokenMismatch,
    /// The transfer message matches no known request.
    UnknownMessage,
    /// The storage deposit does not cover the rent of the state just grown.
    InsufficientStorage,
    /// The deposit is below the minimum storage deposit.
    MinimumStorageDeposit,
    /// The caller has no registered storage balance.
    AccountNotRegistered,
    /// The available storage balance does not cover the withdrawal.
    NotEnoughBalance,
    /// The entry point exists but performs no action.
    NotSupported,
}

/// The token a partner game pays in.
pub enum TokenType {
    FT(String),
}

/// A partner game with its own insurance pool and payout token.
pub struct PartneredGame {
    pub partner_owner: String,
    pub blocked: bool,
    pub token: TokenType,
    /// Fee share of this partner, over `FRACTIONAL_BASE`.
    pub partner_fee: u128,
    /// Fees accrued to this partner so far.
    pub partner_balance: u128,
    /// The pool payouts of this game are paid from.
    pub sub_house_balance: u128,
}

impl PartneredGame {
    /// The token contract this game pays in.
    pub open spec fn token_id(self) -> Seq<char> {
        match self.token {
            TokenType::FT(t) => t@,
        }
    }

    /// Funds the game's insurance pool.
    pub fn deposit_sub_house_funds(&mut self, amount: u128)
        requires
            old(self).sub_house_balance + amount <= u128::MAX,
        ensures
            *final(self) == (PartneredGame {
                sub_house_balance: (old(self).sub_house_balance + amount) as u128,
                ..*old(self)
            }),
    {
        self.sub_house_balance = self.sub_house_balance + amount;
    }
}

/// A request carried by a token transfer's message.
pub enum HouseMessage {
    /// Fund the named game's sub-house pool with the transferred amount.
    SubHouseFunds { target_game: String },
    /// Credit the transferred amount to the sender inside the named game.
    UserFunds { target_game: String },
}

/// The message that funds a game's sub-house pool.
pub open spec fn sub_house_msg(target: Seq<char>) -> Seq<char> {
    "{\"method\":\"deposit_sub_house_funds\",\"target_game\":\""@ + target + "\"}"@
}

/// The message that deposits playing credits for the sender.
pub open spec fn user_funds_msg(target: Seq<char>) -> Seq<char> {
    "{\"method\":\"deposit_user_funds\",\"target_game\":\""@ + target + "\"}"@
}

/// What a message means: the flag is true for a sub-house funding, and the
/// sequence is the target game.
pub open spec fn spec_parse_house_msg(s: Seq<char>) -> Option<(bool, Seq<char>)> {
    let sub_pre = "{\"method\":\"deposit_sub_house_funds\",\"target_game\":\""@;
    let user_pre = "{\"method\":\"deposit_user_funds\",\"target_game\":\""@;
    if spec_matches_at(s, 0, sub_pre) {
        match spec_parse_tail(s, sub_pre.len() as int) {
            Some(t) => Some((true, t)),
            None => None,
        }
    } else if spec_matches_at(s, 0, user_pre) {
        match spec_parse_tail(s, user_pre.len() as int) {
            Some(t) => Some((false, t)),
            None => None,
        }
    } else {
        None
    }
}

/// Decides `spec_parse_house_msg`.
pub fn parse_house_message(msg: &str) -> (r: Option<HouseMessage>)
    ensures
        match r {
            Some(m) => match m {
                HouseMessage::SubHouseFunds { target_game } => spec_parse_house_msg(msg@) == Some(
                    (true, target_game@),
                ),
                HouseMessage::UserFunds { target_game } => spec_parse_house_msg(msg@) == Some(
                    (false, target_game@),
                ),
            },
            None => spec_parse_house_msg(msg@) is None,
        },
{
    let sub_pre = "{\"method\":\"deposit_sub_house_funds\",\"target_game\":\"";
    let user_pre = "{\"method\":\"deposit_user_funds\",\"target_game\":\"";
    if matches_at(msg, 0, sub_pre) {
        match parse_tail(msg, sub_pre.unicode_len()) {
            Some(target_game) => Some(HouseMessage::SubHouseFunds { target_game }),
            None => None,
        }
    } else if matches_at(msg, 0, user_pre) {
        match parse_tail(msg, user_pre.unicode_len()) {
            Some(target_game) => Some(HouseMessage::UserFunds { target_game }),
            None => None,
        }
    } else {
        None
    }
}

/// A rendered sub-house funding message parses back to its target.
pub proof fn lemma_sub_house_msg_roundtrip(target: Seq<char>)
    requires
        no_quote(target),
    ensures
        spec_parse_house_msg(sub_house_msg(target)) == Some((true, target)),
{
    let pre = "{\"method\":\"deposit_sub_house_funds\",\"target_game\":\""@;
    let suf = "\"}"@;
    let s = sub_house_msg(target);
    reveal_strlit("{\"method\":\"deposit_sub_house_funds\",\"target_game\":\"");
    reveal_strlit("\"}");
    assert(s.subrange(0, pre.len() as int) =~= pre);
    let q = pre.len() as int + target.len() as int;
    assert(s[q] == suf[0]);
    lemma_first_quote_is(s, pre.len() as int, q);
    assert(s[s.len() - 1] == suf[1]);
    assert(s.subrange(pre.len() as int, q) =~= target);
}

/// A rendered user-funds message parses back to its target.
pub proof fn lemma_user_funds_msg_roundtrip(target: Seq<char>)
    requires
        no_quote(target),
    ensures
        spec_parse_house_msg(user_funds_msg(target)) == Some((false, target)),
{
    let sub_pre = "{\"method\":\"deposit_sub_house_funds\",\"target_game\":\""@;
    let pre = "{\"method\":\"deposit_user_funds\",\"target_game\":\""@;
    let suf = "\"}"@;
    let s = user_funds_msg(target);
    reveal_strlit("{\"method\":\"deposit_sub_house_funds\",\"target_game\":\"");
    reveal_strlit("{\"method\":\"deposit_user_funds\",\"target_game\":\"");
    reveal_strlit("\"}");
    assert(!spec_matches_at(s, 0, sub_pre)) by {
        if spec_matches_at(s, 0, sub_pre) {
            assert(s.subrange(0, sub_pre.len() as int)[19] == s[19]);
            assert(s[19] == pre[19]);
            assert(pre[19] == 'u' && sub_pre[19] == 's');
        }
    }
    assert(s.subrange(0, pre.len() as int) =~= pre);
    let q = pre.len() as int + target.len() as int;
    assert(s[q] == suf[0]);
    lemma_first_quote_is(s, pre.len() as int, q);
    assert(s[s.len() - 1] == suf[1]);
    assert(s.subrange(pre.len() as int, q) =~= target);
}

/// A registered storage-rent balance.
#[derive(Clone, Copy, PartialEq, Eq, Structural, Debug)]
pub struct StorageBalance {
    pub total: u128,
    pub available: u128,
}

/// The bounds a storage registration must respect.
#[derive(Clone, Copy, PartialEq, Eq, Structural, Debug)]
pub struct StorageBalanceBounds {
    pub min: u128,
    pub max: Option<u128>,
}

/// A storage balance after a measured change is booked: a shrink credits
/// the released rent back to the available funds, a growth debits its
/// cost from them.
pub open spec fn charged_storage_balance(
    b: StorageBalance,
    initial_storage: u64,
    final_storage: u64,
) -> StorageBalance {
    if initial_storage > final_storage {
        (StorageBalance {
            available: (b.available + (initial_storage - final_storage)
                * STORAGE_BYTE_COST) as u128,
            ..b
        })
    } else {
        (StorageBalance {
            available: (b.available - (final_storage - initial_storage)
                * STORAGE_BYTE_COST) as u128,
            ..b
        })
    }
}

pub struct SlotMachine {
    pub owner_id: String,
    pub nft_account: String,
    pub panic_button: bool,
    pub bet_payment_adjustment: u128,
    pub nft_fee: u128,
    pub owner_fee: u128,
    pub house_fee: u128,
    /// Token holders' fee pool, per token contract.
    pub nft_balance: AssocMap<u128>,
    /// Owner's fee pool, per token contract.
    pub owner_balance: AssocMap<u128>,
    pub max_bet: u128,
    pub min_bet: u128,
    /// Fraction of `min_bet` that bounds the smallest accepted deposit.
    pub min_balance_fraction: u128,
    pub max_odds: u8,
    pub min_odds: u8,
    pub game_structs: AssocMap<PartneredGame>,
    pub game_balances: AssocMap<AssocMap<u128>>,
    pub storage_balances: AssocMap<StorageBalance>,
    pub storage_balance_bounds: StorageBalanceBounds,
}

/// The configuration fields a play never touches.
pub open spec fn same_token_casino_config(a: SlotMachine, b: SlotMachine) -> bool {
    &&& a.owner_id == b.owner_id
    &&& a.nft_account == b.nft_account
    &&& a.panic_button == b.panic_button
    &&& a.bet_payment_adjustment == b.bet_payment_adjustment
    &&& a.nft_fee == b.nft_fee
    &&& a.owner_fee == b.owner_fee
    &&& a.house_fee == b.house_fee
    &&& a.max_bet == b.max_bet
    &&& a.min_bet == b.min_bet
    &&& a.min_balance_fraction == b.min_balance_fraction
    &&& a.max_odds == b.max_odds
    &&& a.min_odds == b.min_odds
    &&& a.storage_balance_bounds == b.storage_balance_bounds
}

impl SlotMachine {
    pub open spec fn wf(self) -> bool {
        &&& self.nft_balance.wf()
        &&& self.owner_balance.wf()
        &&& self.game_structs.wf()
        &&& self.game_balances.wf()
        &&& self.storage_balances.wf()
        &&& self.game_structs@.dom() == self.game_balances@.dom()
        &&& forall|g: Seq<char>|
            self.game_balances@.contains_key(g) ==> (#[trigger] self.game_balances@[g]).wf()
    }

    /// The credits a player holds inside one partner game.
    pub open spec fn game_credits(self, game: Seq<char>, user: Seq<char>) -> u128 {
        if self.game_balances@.contains_key(game) {
            balance_or_zero(self.game_balances@[game]@, user)
        } else {
            0
        }
    }

    /// The smallest deposit the machine refuses: deposits must exceed it.
    pub open spec fn min_deposit(self) -> int
        recommends
            self.min_balance_fraction > 0,
    {
        (self.min_bet as int) / (self.min_balance_fraction as int)
    }

    /// The guard every owner-only entry point runs first.
    pub open spec fn owner_gate(self, caller: Seq<char>, deposit: u128) -> Option<
        TokenCasinoError,
    > {
        if caller != self.owner_id@ {
            Some(TokenCasinoError::OnlyOwner)
        } else if deposit != 1 {
            Some(TokenCasinoError::OneYocto)
        } else {
            None
        }
    }

    /// The checks a play makes before it prices the payout.
    pub open spec fn play_pre_gate(self, game: Seq<char>, user: Seq<char>, bet: u128) -> Option<
        TokenCasinoError,
    > {
        if self.panic_button {
            Some(TokenCasinoError::Paused)
        } else if !self.game_structs@.contains_key(game) {
            Some(TokenCasinoError::UnknownGame)
        } else if self.game_credits(game, user) < bet {
            Some(TokenCasinoError::NoCredits)
        } else if bet < self.min_bet {
            Some(TokenCasinoError::BetBelowMinimum)
        } else if bet > self.max_bet {
            Some(TokenCasinoError::BetAboveMaximum)
        } else {
            None
        }
    }

    /// The payout a winning bet in this game would earn.
    pub open spec fn priced_payout(self, game: PartneredGame, bet: u128, odds: u128) -> int {
        win_payout(
            net_bet(bet, self.nft_fee, self.owner_fee, self.house_fee, game.partner_fee),
            odds,
            self.bet_payment_adjustment,
        )
    }

    /// Builds a token casino with no partner games; the owner account must
    /// be a valid account id.
    pub fn new(
        owner_id: String,
        nft_account: String,
        bet_payment_adjustment: u128,
        nft_fee: u128,
        owner_fee: u128,
        house_fee: u128,
        max_bet: u128,
        min_bet: u128,
        min_balance_fraction: u128,
        max_odds: u128,
        min_odds: u128,
    ) -> (r: Result<SlotMachine, TokenCasinoError>)
        requires
            // the host aborts the call when the odds do not fit a byte
            max_odds <= 255,
            min_odds <= 255,
        ensures
            match r {
                Ok(m) => {
                    &&& valid_account_id(owner_id@)
                    &&& m.wf()
                    &&& m.owner_id@ == owner_id@
                    &&& m.nft_account@ == nft_account@
                    &&& m.panic_button == false
                    &&& m.bet_payment_adjustment == bet_payment_adjustment
                    &&& m.nft_fee == nft_fee
                    &&& m.owner_fee == owner_fee
                    &&& m.house_fee == house_fee
                    &&& m.nft_balance@ == Map::<Seq<char>, u128>::empty()
                    &&& m.owner_balance@ == Map::<Seq<char>, u128>::empty()
                    &&& m.max_bet == max_bet
                    &&& m.min_bet == min_bet
                    &&& m.min_balance_fraction == min_balance_fraction
                    &&& m.max_odds == max_odds
                    &&& m.min_odds == min_odds
                    &&& m.game_structs@ == Map::<Seq<char>, PartneredGame>::empty()
                    &&& m.game_balances@ == Map::<Seq<char>, AssocMap<u128>>::empty()
                    &&& m.storage_balances@ == Map::<Seq<char>, StorageBalance>::empty()
                    &&& m.storage_balance_bounds == (StorageBalanceBounds {
                        min: MIN_STORAGE_BALANCE,
                        max: None,
                    })
                },
                Err(e) => e == TokenCasinoError::InvalidOwnerAccount && !valid_account_id(
                    owner_id@,
                ),
            },
    {
        if !is_valid_account_id(owner_id.as_str()) {
            return Err(TokenCasinoError::InvalidOwnerAccount);
        }
        let m = SlotMachine {
            owner_id,
            nft_account,
            panic_button: false,
            bet_payment_adjustment,
            nft_fee,
            owner_fee,
            house_fee,
            nft_balance: AssocMap::new(),
            owner_balance: AssocMap::new(),
            max_bet,
            min_bet,
            min_balance_fraction,
            max_odds: max_odds as u8,
            min_odds: min_odds as u8,
            game_structs: AssocMap::new(),
            game_balances: AssocMap::new(),
            storage_balances: AssocMap::new(),
            storage_balance_bounds: StorageBalanceBounds { min: MIN_STORAGE_BALANCE, max: None },
        };
        proof {
            assert(m.game_structs@.dom() =~= m.game_balances@.dom());
        }
        Ok(m)
    }

    /// The credits one player holds inside one partner game; zero for an
    /// unknown player.
    pub fn get_credits(&self, game_collection_id: String, user_account_id: String) -> (r: u128)
        requires
            self.wf(),
            // the host aborts on an unregistered game
            self.game_structs@.contains_key(game_collection_id@),
        ensures
            r == self.game_credits(game_collection_id@, user_account_id@),
    {
        let inner = self.game_balances.get(&game_collection_id).unwrap();
        inner.get_or_zero(&user_account_id)
    }

    /// Credits a token deposit to one player's balance inside one partner
    /// game.  Deposits at or below the minimum are refused, as is
    /// everything while the machine is paused.  Returns the new balance.
    pub fn deposit_balance(&mut self, account_id: String, deposit: u128, game_collection_id: String)
        -> (r: Result<u128, TokenCasinoError>)
        requires
            old(self).wf(),
            old(self).min_balance_fraction > 0,
            // the host aborts on an unregistered game
            old(self).game_structs@.contains_key(game_collection_id@),
            old(self).game_credits(game_collection_id@, account_id@) + deposit <= u128::MAX,
        ensures
            final(self).wf(),
            match r {
                Err(e) => {
                    &&& *final(self) == *old(self)
                    &&& if old(self).panic_button {
                        e == TokenCasinoError::Paused
                    } else {
                        e == TokenCasinoError::MinimumDeposit && deposit <= old(self).min_deposit()
                    }
                },
                Ok(credits) => {
                    &&& !old(self).panic_button
                    &&& deposit > old(self).min_deposit()
                    &&& credits == old(self).game_credits(game_collection_id@, account_id@)
                        + deposit
                    &&& same_token_casino_config(*final(self), *old(self))
                    &&& final(self).nft_balance == old(self).nft_balance
                    &&& final(self).owner_balance == old(self).owner_balance
                    &&& final(self).storage_balances == old(self).storage_balances
                    &&& final(self).game_structs@ == old(self).game_structs@
                    &&& final(self).game_balances@.dom() == old(self).game_balances@.dom()
                    &&& final(self).game_balances@[game_collection_id@]@ == old(
                        self,
                    ).game_balances@[game_collection_id@]@.insert(account_id@, credits)
                    &&& forall|g: Seq<char>|
                        old(self).game_balances@.contains_key(g) && g != game_collection_id@
                            ==> final(self).game_balances@[g] == (#[trigger] old(
                            self,
                        ).game_balances@[g])
                },
            },
    {
        if self.panic_button {
            return Err(TokenCasinoError::Paused);
        }
        if deposit <= self.min_bet / self.min_balance_fraction {
            return Err(TokenCasinoError::MinimumDeposit);
        }
        let ghost g = game_collection_id@;
        let mut inner = self.game_balances.remove(&game_collection_id).unwrap();
        let credits0 = inner.get_or_zero(&account_id);
        let credits = credits0 + deposit;
        inner.insert(account_id, credits);
        self.game_balances.insert(game_collection_id, inner);
        proof {
            assert(self.game_balances@.dom() =~= old(self).game_balances@.dom());
            assert forall|g2: Seq<char>| self.game_balances@.contains_key(g2) implies (
            #[trigger] self.game_balances@[g2]).wf() by {
                if g2 != g {
                    assert(self.game_balances@[g2] == old(self).game_balances@[g2]);
                }
            }
        }
        Ok(credits)
    }

    /// The checks a play makes, pricing included: the sub-house pool must
    /// cover the potential payout before the bet is taken.
    pub open spec fn play_gate(self, game: Seq<char>, user: Seq<char>, bet: u128, odds: u128)
        -> Option<TokenCasinoError> {
        match self.play_pre_gate(game, user, bet) {
            Some(e) => Some(e),
            None => {
                let g = self.game_structs@[game];
                if self.priced_payout(g, bet, odds) > g.sub_house_balance + fee_cut(
                    bet,
                    self.house_fee,
                ) {
                    Some(TokenCasinoError::InsufficientHouseFunds)
                } else {
                    None
                }
            },
        }
    }

    /// Resolves one play inside a partner game.  The four fee cuts go to
    /// the per-token holder and owner pools, the game's sub-house pool and
    /// the partner balance; the payout is priced first and the play is
    /// refused when the sub-house pool cannot cover it; the drawn byte
    /// below the odds wins.
    pub fn play(
        &mut self,
        caller: String,
        game_collection_id: String,
        bet_size: u128,
        odds: u128,
        rand: u8,
    ) -> (r: Result<bool, TokenCasinoError>)
        requires
            old(self).wf(),
            // machine limits: the host aborts the call on arithmetic
            // overflow and on odds outside a byte
            1 <= odds <= 255,
            old(self).play_pre_gate(game_collection_id@, caller@, bet_size) is None ==> ({
                let game = old(self).game_structs@[game_collection_id@];
                let net = net_bet(
                    bet_size,
                    old(self).nft_fee,
                    old(self).owner_fee,
                    old(self).house_fee,
                    game.partner_fee,
                );
                let payout = old(self).priced_payout(game, bet_size, odds);
                &&& bet_size * old(self).nft_fee <= u128::MAX
                &&& bet_size * old(self).owner_fee <= u128::MAX
                &&& bet_size * old(self).house_fee <= u128::MAX
                &&& bet_size * game.partner_fee <= u128::MAX
                &&& fee_cut(bet_size, old(self).nft_fee) + fee_cut(bet_size, old(self).owner_fee)
                    + fee_cut(bet_size, old(self).house_fee) + fee_cut(bet_size, game.partner_fee)
                    <= bet_size
                &&& balance_or_zero(old(self).nft_balance@, game.token_id()) + fee_cut(
                    bet_size,
                    old(self).nft_fee,
                ) <= u128::MAX
                &&& balance_or_zero(old(self).owner_balance@, game.token_id()) + fee_cut(
                    bet_size,
                    old(self).owner_fee,
                ) <= u128::MAX
                &&& game.sub_house_balance + fee_cut(bet_size, old(self).house_fee) <= u128::MAX
                &&& game.partner_balance + fee_cut(bet_size, game.partner_fee) <= u128::MAX
                &&& net * 256 <= u128::MAX
                &&& ((net * 256) / (odds as int)) * old(self).bet_payment_adjustment <= u128::MAX
                &&& old(self).game_credits(game_collection_id@, caller@) - bet_size + payout
                    <= u128::MAX
            }),
        ensures
            final(self).wf(),
            match r {
                Err(e) => {
                    &&& *final(self) == *old(self)
                    &&& Some(e) == old(self).play_gate(game_collection_id@, caller@, bet_size, odds)
                },
                Ok(outcome) => ({
                    let game = old(self).game_structs@[game_collection_id@];
                    let tok = game.token_id();
                    let payout = old(self).priced_payout(game, bet_size, odds);
                    let bal0 = old(self).game_credits(game_collection_id@, caller@);
                    &&& old(self).play_gate(game_collection_id@, caller@, bet_size, odds) is None
                    &&& outcome == ((rand as u128) < odds)
                    &&& same_token_casino_config(*final(self), *old(self))
                    &&& final(self).storage_balances == old(self).storage_balances
                    &&& final(self).nft_balance@ == old(self).nft_balance@.insert(
                        tok,
                        (balance_or_zero(old(self).nft_balance@, tok) + fee_cut(
                            bet_size,
                            old(self).nft_fee,
                        )) as u128,
                    )
                    &&& final(self).owner_balance@ == old(self).owner_balance@.insert(
                        tok,
                        (balance_or_zero(old(self).owner_balance@, tok) + fee_cut(
                            bet_size,
                            old(self).owner_fee,
                        )) as u128,
                    )
                    &&& final(self).game_structs@ == old(self).game_structs@.insert(
                        game_collection_id@,
                        (PartneredGame {
                            partner_balance: (game.partner_balance + fee_cut(
                                bet_size,
                                game.partner_fee,
                            )) as u128,
                            sub_house_balance: (game.sub_house_balance + fee_cut(
                                bet_size,
                                old(self).house_fee,
                            ) - (if outcome {
                                payout
                            } else {
                                0
                            })) as u128,
                            ..game
                        }),
                    )
                    &&& final(self).game_balances@.dom() == old(self).game_balances@.dom()
                    &&& final(self).game_balances@[game_collection_id@]@ == old(
                        self,
                    ).game_balances@[game_collection_id@]@.insert(
                        caller@,
                        (if outcome {
                            bal0 - bet_size + payout
                        } else {
                            bal0 - bet_size
                        }) as u128,
                    )
                    &&& forall|g: Seq<char>|
                        old(self).game_balances@.contains_key(g) && g != game_collection_id@
                            ==> final(self).game_balances@[g] == (#[trigger] old(
                            self,
                        ).game_balances@[g])
                }),
            },
    {
        let ghost g = game_collection_id@;
        if self.panic_button {
            return Err(TokenCasinoError::Paused);
        }
        let game_opt = self.game_structs.get(&game_collection_id);
        let (token_id, partner_fee, partner_balance0, sub0) = match game_opt {
            None => {
                return Err(TokenCasinoError::UnknownGame);
            },
            Some(game) => {
                let t = match &game.token {
                    TokenType::FT(i) => i.clone(),
                };
                (t, game.partner_fee, game.partner_balance, game.sub_house_balance)
            },
        };
        let inner_ref = self.game_balances.get(&game_collection_id).unwrap();
        let credits0 = inner_ref.get_or_zero(&caller);
        if credits0 < bet_size {
            return Err(TokenCasinoError::NoCredits);
        }
        if bet_size < self.min_bet {
            return Err(TokenCasinoError::BetBelowMinimum);
        }
        if bet_size > self.max_bet {
            return Err(TokenCasinoError::BetAboveMaximum);
        }

        let nft_cut = bet_size * self.nft_fee / FRACTIONAL_BASE;
        let owner_cut = bet_size * self.owner_fee / FRACTIONAL_BASE;
        let house_cut = bet_size * self.house_fee / FRACTIONAL_BASE;
        let partner_cut = bet_size * partner_fee / FRACTIONAL_BASE;
        let net = bet_size - nft_cut - owner_cut - house_cut - partner_cut;
        let won_value = ((net * 256) / odds) * self.bet_payment_adjustment / FRACTIONAL_BASE;
        let new_sub = sub0 + house_cut;
        if won_value > new_sub {
            return Err(TokenCasinoError::InsufficientHouseFunds);
        }

        let nb0 = self.nft_balance.get_or_zero(&token_id);
        self.nft_balance.insert(token_id.clone(), nb0 + nft_cut);
        let ob0 = self.owner_balance.get_or_zero(&token_id);
        self.owner_balance.insert(token_id, ob0 + owner_cut);

        let outcome = (rand as u128) < odds;
        let mut game = self.game_structs.remove(&game_collection_id).unwrap();
        game.partner_balance = partner_balance0 + partner_cut;
        game.sub_house_balance = if outcome {
            new_sub - won_value
        } else {
            new_sub
        };
        self.game_structs.insert(game_collection_id.clone(), game);

        let mut new_credits = credits0 - bet_size;
        if outcome {
            new_credits = new_credits + won_value;
        }
        let mut inner = self.game_balances.remove(&game_collection_id).unwrap();
        inner.insert(caller, new_credits);
        self.game_balances.insert(game_collection_id, inner);
        proof {
            let game0 = old(self).game_structs@[g];
            let payout = old(self).priced_payout(game0, bet_size, odds);
            assert(self.game_structs@ =~= old(self).game_structs@.insert(
                g,
                (PartneredGame {
                    partner_balance: (game0.partner_balance + fee_cut(
                        bet_size,
                        game0.partner_fee,
                    )) as u128,
                    sub_house_balance: (game0.sub_house_balance + fee_cut(
                        bet_size,
                        old(self).house_fee,
                    ) - (if (rand as u128) < odds {
                        payout
                    } else {
                        0
                    })) as u128,
                    ..game0
                }),
            ));
            assert(self.game_balances@.dom() =~= old(self).game_balances@.dom());
            assert(self.game_structs@.dom() =~= self.game_balances@.dom());
            assert forall|g2: Seq<char>| self.game_balances@.contains_key(g2) implies (
            #[trigger] self.game_balances@[g2]).wf() by {
                if g2 != g {
                    assert(self.game_balances@[g2] == old(self).game_balances@[g2]);
                }
            }
        }
        Ok(outcome)
    }

    /// Books a measured storage change against one account's storage
    /// balance: a growth must be covered by the available funds, which are
    /// debited by its cost; a shrink credits the released rent back.
    pub fn charge_storage_cost(
        &mut self,
        initial_storage: u64,
        final_storage: u64,
        account: String,
    ) -> (r: Result<(), TokenCasinoError>)
        requires
            old(self).wf(),
            // the host aborts on an account with no storage balance and
            // on arithmetic overflow
            old(self).storage_balances@.contains_key(account@),
            initial_storage > final_storage ==> old(self).storage_balances@[account@].available + (
            initial_storage - final_storage) * STORAGE_BYTE_COST <= u128::MAX,
        ensures
            final(self).wf(),
            match r {
                Err(e) => {
                    &&& *final(self) == *old(self)
                    &&& e == TokenCasinoError::InsufficientStorage
                    &&& final_storage >= initial_storage
                    &&& old(self).storage_balances@[account@].available < (final_storage
                        - initial_storage) * STORAGE_BYTE_COST
                },
                Ok(()) => ({
                    let b0 = old(self).storage_balances@[account@];
                    &&& (final_storage >= initial_storage ==> b0.available >= (final_storage
                        - initial_storage) * STORAGE_BYTE_COST)
                    &&& final(self).storage_balances@ == old(self).storage_balances@.insert(
                        account@,
                        charged_storage_balance(b0, initial_storage, final_storage),
                    )
                    &&& same_token_casino_config(*final(self), *old(self))
                    &&& final(self).nft_balance == old(self).nft_balance
                    &&& final(self).owner_balance == old(self).owner_balance
                    &&& final(self).game_structs == old(self).game_structs
                    &&& final(self).game_balances == old(self).game_balances
                }),
            },
    {
        let b0 = *self.storage_balances.get(&account).unwrap();
        let user_balance = b0.available;
        if initial_storage > final_storage {
            let released_cost = ((initial_storage - final_storage) as u128) * STORAGE_BYTE_COST;
            let new_balance = StorageBalance { available: user_balance + released_cost, ..b0 };
            self.storage_balances.insert(account, new_balance);
            Ok(())
        } else {
            let new_cost = ((final_storage - initial_storage) as u128) * STORAGE_BYTE_COST;
            if user_balance < new_cost {
                return Err(TokenCasinoError::InsufficientStorage);
            }
            let new_balance = StorageBalance { available: user_balance - new_cost, ..b0 };
            self.storage_balances.insert(account, new_balance);
            Ok(())
        }
    }

    /// Empties the caller's balance in one partner game and returns the
    /// token transfer paying it out; the measured storage change is booked
    /// against the caller's storage balance.
    pub fn retrieve_credits(
        &mut self,
        caller: String,
        deposit: u128,
        game_collection_id: String,
        initial_storage: u64,
        final_storage: u64,
    ) -> (r: Result<TokenTransfer, TokenCasinoError>)
        requires
            old(self).wf(),
            // the host aborts on an account with no storage balance and
            // on arithmetic overflow
            old(self).storage_balances@.contains_key(caller@),
            initial_storage > final_storage ==> old(self).storage_balances@[caller@].available + (
            initial_storage - final_storage) * STORAGE_BYTE_COST <= u128::MAX,
        ensures
            final(self).wf(),
            match r {
                Err(e) => {
                    &&& *final(self) == *old(self)
                    &&& if old(self).panic_button {
                        e == TokenCasinoError::Paused
                    } else if deposit != 1 {
                        e == TokenCasinoError::OneYocto
                    } else if !old(self).game_structs@.contains_key(game_collection_id@) {
                        e == TokenCasinoError::UnknownGame
                    } else {
                        e == TokenCasinoError::InsufficientStorage && final_storage
                            >= initial_storage && old(self).storage_balances@[caller@].available < (
                        final_storage - initial_storage) * STORAGE_BYTE_COST
                    }
                },
                Ok(t) => ({
                    let game = old(self).game_structs@[game_collection_id@];
                    let b0 = old(self).storage_balances@[caller@];
                    &&& !old(self).panic_button
                    &&& deposit == 1
                    &&& old(self).game_structs@.contains_key(game_collection_id@)
                    &&& t.token@ == game.token_id()
                    &&& t.receiver@ == caller@
                    &&& t.amount == old(self).game_credits(game_collection_id@, caller@)
                    &&& same_token_casino_config(*final(self), *old(self))
                    &&& final(self).nft_balance == old(self).nft_balance
                    &&& final(self).owner_balance == old(self).owner_balance
                    &&& final(self).game_structs@ == old(self).game_structs@
                    &&& final(self).game_balances@.dom() == old(self).game_balances@.dom()
                    &&& final(self).game_balances@[game_collection_id@]@ == old(
                        self,
                    ).game_balances@[game_collection_id@]@.remove(caller@)
                    &&& forall|g: Seq<char>|
                        old(self).game_balances@.contains_key(g) && g != game_collection_id@
                            ==> final(self).game_balances@[g] == (#[trigger] old(
                            self,
                        ).game_balances@[g])
                    &&& final(self).storage_balances@ == old(self).storage_balances@.insert(
                        caller@,
                        charged_storage_balance(b0, initial_storage, final_storage),
                    )
                }),
            },
    {
        let ghost g = game_collection_id@;
        if self.panic_button {
            return Err(TokenCasinoError::Paused);
        }
        if deposit != 1 {
            return Err(TokenCasinoError::OneYocto);
        }
        if !self.game_structs.contains_key(&game_collection_id) {
            return Err(TokenCasinoError::UnknownGame);
        }
        if final_storage >= initial_storage {
            let new_cost = ((final_storage - initial_storage) as u128) * STORAGE_BYTE_COST;
            let b = self.storage_balances.get(&caller).unwrap();
            if b.available < new_cost {
                return Err(TokenCasinoError::InsufficientStorage);
            }
        }
        let token_id = {
            let game_ref = self.game_structs.get(&game_collection_id).unwrap();
            match &game_ref.token {
                TokenType::FT(i) => i.clone(),
            }
        };
        let mut inner = self.game_balances.remove(&game_collection_id).unwrap();
        let credits = inner.get_or_zero(&caller);
        let _ = inner.remove(&caller);
        self.game_balances.insert(game_collection_id, inner);
        let receiver = caller.clone();
        let charge = self.charge_storage_cost(initial_storage, final_storage, caller);
        proof {
            assert(charge is Ok);
            assert(self.game_balances@.dom() =~= old(self).game_balances@.dom());
            assert(self.game_structs@.dom() =~= self.game_balances@.dom());
            assert forall|g2: Seq<char>| self.game_balances@.contains_key(g2) implies (
            #[trigger] self.game_balances@[g2]).wf() by {
                if g2 != g {
                    assert(self.game_balances@[g2] == old(self).game_balances@[g2]);
                }
            }
        }
        Ok(TokenTransfer { token: token_id, receiver, amount: credits })
    }

    /// Toggles the panic switch that halts wagering; owner only, with
    /// exactly one yocto attached.  Returns the new switch state.
    pub fn emergency_panic(&mut self, caller: String, deposit: u128) -> (r: Result<
        bool,
        TokenCasinoError,
    >)
        requires
            old(self).wf(),
        ensures
            final(self).wf(),
            match r {
                Err(e) => Some(e) == old(self).owner_gate(caller@, deposit) && *final(self) == *old(
                    self,
                ),
                Ok(b) => {
                    &&& old(self).owner_gate(caller@, deposit) is None
                    &&& b == !old(self).panic_button
                    &&& *final(self) == (SlotMachine {
                        panic_button: !old(self).panic_button,
                        ..*old(self)
                    })
                },
            },
    {
        if !(caller == self.owner_id) {
            return Err(TokenCasinoError::OnlyOwner);
        }
        if deposit != 1 {
            return Err(TokenCasinoError::OneYocto);
        }
        self.panic_button = !self.panic_button;
        Ok(self.panic_button)
    }

    /// Registers a new partner game paying in the given token, with empty
    /// pools and an empty player ledger; owner only, one yocto, fresh id.
    pub fn create_new_partner(
        &mut self,
        caller: String,
        deposit: u128,
        partner_owner: String,
        nft_contract: String,
        token_contract: String,
        partner_fee: u128,
    ) -> (r: Result<bool, TokenCasinoError>)
        requires
            old(self).wf(),
        ensures
            final(self).wf(),
            match r {
                Err(e) => {
                    &&& *final(self) == *old(self)
                    &&& match old(self).owner_gate(caller@, deposit) {
                        Some(ge) => e == ge,
                        None => e == TokenCasinoError::GameAlreadyExists && old(
                            self,
                        ).game_structs@.contains_key(nft_contract@),
                    }
                },
                Ok(b) => {
                    &&& old(self).owner_gate(caller@, deposit) is None
                    &&& !old(self).game_structs@.contains_key(nft_contract@)
                    &&& b == true
                    &&& same_token_casino_config(*final(self), *old(self))
                    &&& final(self).nft_balance == old(self).nft_balance
                    &&& final(self).owner_balance == old(self).owner_balance
                    &&& final(self).storage_balances == old(self).storage_balances
                    &&& final(self).game_structs@ == old(self).game_structs@.insert(
                        nft_contract@,
                        (PartneredGame {
                            partner_owner,
                            blocked: false,
                            token: TokenType::FT(token_contract),
                            partner_fee,
                            partner_balance: 0,
                            sub_house_balance: 0,
                        }),
                    )
                    &&& final(self).game_balances@.dom() == old(self).game_balances@.dom().insert(
                        nft_contract@,
                    )
                    &&& final(self).game_balances@[nft_contract@]@ == Map::<Seq<char>, u128>::empty()
                    &&& forall|g: Seq<char>|
                        old(self).game_balances@.contains_key(g) && g != nft_contract@ ==> final(self).game_balances@[g] == (#[trigger] old(self).game_balances@[g])
                },
            },
    {
        if !(caller == self.owner_id) {
            return Err(TokenCasinoError::OnlyOwner);
        }
        if deposit != 1 {
            return Err(TokenCasinoError::OneYocto);
        }
        if self.game_structs.contains_key(&nft_contract) {
            return Err(TokenCasinoError::GameAlreadyExists);
        }
        let ghost g = nft_contract@;
        let game_settings = PartneredGame {
            partner_owner,
            blocked: false,
            token: TokenType::FT(token_contract),
            partner_fee,
            partner_balance: 0,
            sub_house_balance: 0,
        };
        self.game_balances.insert(nft_contract.clone(), AssocMap::new());
        self.game_structs.insert(nft_contract, game_settings);
        proof {
            assert(self.game_structs@.dom() =~= self.game_balances@.dom());
            assert(self.game_balances@.dom() =~= old(self).game_balances@.dom().insert(g));
            assert forall|g2: Seq<char>| self.game_balances@.contains_key(g2) implies (
            #[trigger] self.game_balances@[g2]).wf() by {
                if g2 != g {
                    assert(self.game_balances@[g2] == old(self).game_balances@[g2]);
                }
            }
        }
        Ok(true)
    }

    /// Registers or tops up a storage balance.  A plain deposit is added
    /// to both the total and the available balance; a registration-only
    /// deposit is capped at the minimum and the surplus refunded.  Returns
    /// the recorded balance and the refund owed to the caller.
    pub fn storage_deposit(
        &mut self,
        caller: String,
        deposit: u128,
        account_id: Option<String>,
        registration_only: Option<bool>,
    ) -> (r: Result<(StorageBalance, u128), TokenCasinoError>)
        requires
            old(self).wf(),
            ({
                let account = match account_id {
                    Some(a) => a@,
                    None => caller@,
                };
                old(self).storage_balances@.contains_key(account) ==> ({
                    let b0 = old(self).storage_balances@[account];
                    b0.available + deposit <= u128::MAX && b0.total + deposit <= u128::MAX
                })
            }),
        ensures
            final(self).wf(),
            same_token_casino_config(*final(self), *old(self)),
            final(self).nft_balance == old(self).nft_balance,
            final(self).owner_balance == old(self).owner_balance,
            final(self).game_structs == old(self).game_structs,
            final(self).game_balances == old(self).game_balances,
            ({
                let account = match account_id {
                    Some(a) => a@,
                    None => caller@,
                };
                let registration = match registration_only {
                    Some(b) => b,
                    None => false,
                };
                let minimum = old(self).storage_balance_bounds.min;
                match r {
                    Err(e) => {
                        &&& *final(self) == *old(self)
                        &&& e == TokenCasinoError::MinimumStorageDeposit
                        &&& !old(self).storage_balances@.contains_key(account)
                        &&& deposit < minimum
                    },
                    Ok((balance, refund)) => {
                        if old(self).storage_balances@.contains_key(account) {
                            let b0 = old(self).storage_balances@[account];
                            if registration {
                                &&& balance == b0
                                &&& refund == deposit
                                &&& final(self).storage_balances@ == old(self).storage_balances@
                            } else {
                                &&& balance == (StorageBalance {
                                    total: (b0.total + deposit) as u128,
                                    available: (b0.available + deposit) as u128,
                                })
                                &&& refund == 0
                                &&& final(self).storage_balances@ == old(
                                    self,
                                ).storage_balances@.insert(account, balance)
                            }
                        } else {
                            &&& deposit >= minimum
                            &&& if registration {
                                &&& balance == (StorageBalance {
                                    total: minimum,
                                    available: minimum,
                                })
                                &&& refund == deposit - minimum
                            } else {
                                &&& balance == (StorageBalance {
                                    total: deposit,
                                    available: deposit,
                                })
                                &&& refund == 0
                            }
                            &&& final(self).storage_balances@ == old(
                                self,
                            ).storage_balances@.insert(account, balance)
                        }
                    },
                }
            }),
    {
        let account = match account_id {
            Some(a) => a,
            None => caller,
        };
        let registration = match registration_only {
            Some(b) => b,
            None => false,
        };
        let minimum = self.storage_balance_bounds.min;
        match self.storage_balances.get(&account) {
            Some(b) => {
                if registration {
                    let balance = *b;
                    return Ok((balance, deposit));
                }
                let b0 = *b;
                let new_balance = StorageBalance {
                    total: b0.total + deposit,
                    available: b0.available + deposit,
                };
                self.storage_balances.insert(account, new_balance);
                Ok((new_balance, 0))
            },
            None => {
                if deposit < minimum {
                    return Err(TokenCasinoError::MinimumStorageDeposit);
                }
                if registration {
                    let surplus = deposit - minimum;
                    let balance = StorageBalance { total: minimum, available: minimum };
                    self.storage_balances.insert(account, balance);
                    Ok((balance, surplus))
                } else {
                    let balance = StorageBalance { total: deposit, available: deposit };
                    self.storage_balances.insert(account, balance);
                    Ok((balance, 0))
                }
            },
        }
    }

    /// Withdraws available storage funds to the caller: a given amount, or
    /// everything available; one yocto must be attached.  Returns the
    /// updated balance and the transfer owed to the caller.
    pub fn storage_withdraw(&mut self, caller: String, deposit: u128, amount: Option<u128>) -> (r:
        Result<(StorageBalance, Transfer), TokenCasinoError>)
        requires
            old(self).wf(),
            // machine limit: the recorded total must cover what leaves it
            deposit == 1 && old(self).storage_balances@.contains_key(caller@) ==> ({
                let b = old(self).storage_balances@[caller@];
                match amount {
                    Some(a) => a <= b.available ==> a <= b.total,
                    None => b.available <= b.total,
                }
            }),
        ensures
            final(self).wf(),
            same_token_casino_config(*final(self), *old(self)),
            final(self).nft_balance == old(self).nft_balance,
            final(self).owner_balance == old(self).owner_balance,
            final(self).game_structs == old(self).game_structs,
            final(self).game_balances == old(self).game_balances,
            match r {
                Err(e) => {
                    &&& *final(self) == *old(self)
                    &&& if deposit != 1 {
                        e == TokenCasinoError::OneYocto
                    } else if !old(self).storage_balances@.contains_key(caller@) {
                        e == TokenCasinoError::AccountNotRegistered
                    } else {
                        &&& e == TokenCasinoError::NotEnoughBalance
                        &&& amount is Some
                        &&& amount.unwrap() > old(self).storage_balances@[caller@].available
                    }
                },
                Ok((balance, t)) => ({
                    let b0 = old(self).storage_balances@[caller@];
                    let taken = match amount {
                        Some(a) => a,
                        None => b0.available,
                    };
                    &&& deposit == 1
                    &&& old(self).storage_balances@.contains_key(caller@)
                    &&& taken <= b0.available
                    &&& balance == (StorageBalance {
                        total: (b0.total - taken) as u128,
                        available: (b0.available - taken) as u128,
                    })
                    &&& t.receiver@ == caller@
                    &&& t.amount == taken
                    &&& final(self).storage_balances@ == old(self).storage_balances@.insert(
                        caller@,
                        balance,
                    )
                }),
            },
    {
        if deposit != 1 {
            return Err(TokenCasinoError::OneYocto);
        }
        let b0 = match self.storage_balances.get(&caller) {
            None => {
                return Err(TokenCasinoError::AccountNotRegistered);
            },
            Some(b) => *b,
        };
        let taken = match amount {
            Some(a) => {
                if a > b0.available {
                    return Err(TokenCasinoError::NotEnoughBalance);
                }
                a
            },
            None => b0.available,
        };
        let balance = StorageBalance { total: b0.total - taken, available: b0.available - taken };
        let receiver = caller.clone();
        self.storage_balances.insert(caller, balance);
        Ok((balance, Transfer { receiver, amount: taken }))
    }

    /// Unregistering is refused for registered accounts and reports
    /// `false` for unknown ones.
    pub fn storage_unregister(&mut self, caller: String, _force: Option<bool>) -> (r: Result<
        bool,
        TokenCasinoError,
    >)
        requires
            old(self).wf(),
        ensures
            final(self).wf(),
            *final(self) == *old(self),
            match r {
                Err(e) => e == TokenCasinoError::NotSupported && old(
                    self,
                ).storage_balances@.contains_key(caller@),
                Ok(b) => b == false && !old(self).storage_balances@.contains_key(caller@),
            },
    {
        if self.storage_balances.contains_key(&caller) {
            Err(TokenCasinoError::NotSupported)
        } else {
            Ok(false)
        }
    }

    /// The registration bounds of this machine.
    pub fn storage_balance_bounds(&self) -> (r: StorageBalanceBounds)
        ensures
            r == self.storage_balance_bounds,
    {
        self.storage_balance_bounds
    }

    /// Routes a token transfer by its message: funding a game's sub-house
    /// pool, or depositing playing credits for the sender.  The token that
    /// sent the funds must be the game's registered token, and the
    /// measured storage change is booked against the sender's storage
    /// balance.  Returns `0`: no part of the transfer is given back.
    pub fn ft_on_transfer(
        &mut self,
        sender_id: String,
        token_contract: String,
        amount: u128,
        msg: String,
        initial_storage: u64,
        final_storage: u64,
    ) -> (r: Result<String, TokenCasinoError>)
        requires
            old(self).wf(),
            old(self).min_balance_fraction > 0,
            // the host aborts on a sender with no storage balance and
            // on arithmetic overflow
            old(self).storage_balances@.contains_key(sender_id@),
            initial_storage > final_storage ==> old(self).storage_balances@[sender_id@].available
                + (initial_storage - final_storage) * STORAGE_BYTE_COST <= u128::MAX,
            match spec_parse_house_msg(msg@) {
                Some((true, t)) => old(self).game_structs@.contains_key(t) ==> old(
                    self,
                ).game_structs@[t].sub_house_balance + amount <= u128::MAX,
                Some((false, t)) => old(self).game_credits(t, sender_id@) + amount <= u128::MAX,
                None => true,
            },
        ensures
            final(self).wf(),
            match r {
                Err(e) => {
                    &&& *final(self) == *old(self)
                    &&& match spec_parse_house_msg(msg@) {
                        None => e == TokenCasinoError::UnknownMessage,
                        Some((is_sub, t)) => {
                            if !old(self).game_structs@.contains_key(t) {
                                e == TokenCasinoError::UnknownGame
                            } else if old(self).game_structs@[t].token_id() != token_contract@ {
                                e == TokenCasinoError::TokenMismatch
                            } else if final_storage >= initial_storage && old(
                                self,
                            ).storage_balances@[sender_id@].available < (final_storage
                                - initial_storage) * STORAGE_BYTE_COST {
                                e == TokenCasinoError::InsufficientStorage
                            } else if is_sub {
                                false
                            } else if old(self).panic_button {
                                e == TokenCasinoError::Paused
                            } else {
                                e == TokenCasinoError::MinimumDeposit && amount <= old(
                                    self,
                                ).min_deposit()
                            }
                        },
                    }
                },
                Ok(give_back) => ({
                    let b0 = old(self).storage_balances@[sender_id@];
                    &&& give_back@ == "0"@
                    &&& same_token_casino_config(*final(self), *old(self))
                    &&& final(self).nft_balance == old(self).nft_balance
                    &&& final(self).owner_balance == old(self).owner_balance
                    &&& final(self).storage_balances@ == old(self).storage_balances@.insert(
                        sender_id@,
                        charged_storage_balance(b0, initial_storage, final_storage),
                    )
                    &&& match spec_parse_house_msg(msg@) {
                        None => false,
                        Some((is_sub, t)) => {
                            let game = old(self).game_structs@[t];
                            &&& old(self).game_structs@.contains_key(t)
                            &&& game.token_id() == token_contract@
                            &&& if is_sub {
                                &&& final(self).game_structs@ == old(self).game_structs@.insert(
                                    t,
                                    (PartneredGame {
                                        sub_house_balance: (game.sub_house_balance + amount) as u128,
                                        ..game
                                    }),
                                )
                                &&& final(self).game_balances@ == old(self).game_balances@
                            } else {
                                &&& !old(self).panic_button
                                &&& amount > old(self).min_deposit()
                                &&& final(self).game_structs@ == old(self).game_structs@
                                &&& final(self).game_balances@.dom() == old(
                                    self,
                                ).game_balances@.dom()
                                &&& final(self).game_balances@[t]@ == old(
                                    self,
                                ).game_balances@[t]@.insert(
                                    sender_id@,
                                    (old(self).game_credits(t, sender_id@) + amount) as u128,
                                )
                                &&& forall|g: Seq<char>|
                                    old(self).game_balances@.contains_key(g) && g != t ==> final(self).game_balances@[g] == (#[trigger] old(self).game_balances@[g])
                            }
                        },
                    }
                }),
            },
    {
        let parsed = parse_house_message(msg.as_str());
        let (is_sub, target) = match parsed {
            None => {
                return Err(TokenCasinoError::UnknownMessage);
            },
            Some(HouseMessage::SubHouseFunds { target_game }) => (true, target_game),
            Some(HouseMessage::UserFunds { target_game }) => (false, target_game),
        };
        let ghost t = target@;
        let game_token = match self.game_structs.get(&target) {
            None => {
                return Err(TokenCasinoError::UnknownGame);
            },
            Some(g) => match &g.token {
                TokenType::FT(i) => i.clone(),
            },
        };
        if !(game_token == token_contract) {
            return Err(TokenCasinoError::TokenMismatch);
        }
        if final_storage >= initial_storage {
            let new_cost = ((final_storage - initial_storage) as u128) * STORAGE_BYTE_COST;
            let b = self.storage_balances.get(&sender_id).unwrap();
            if b.available < new_cost {
                return Err(TokenCasinoError::InsufficientStorage);
            }
        }
        if is_sub {
            let mut game = self.game_structs.remove(&target).unwrap();
            game.deposit_sub_house_funds(amount);
            self.game_structs.insert(target, game);
            proof {
                let game0 = old(self).game_structs@[t];
                assert(self.game_structs@ =~= old(self).game_structs@.insert(
                    t,
                    (PartneredGame {
                        sub_house_balance: (game0.sub_house_balance + amount) as u128,
                        ..game0
                    }),
                ));
                assert(self.game_structs@.dom() =~= self.game_balances@.dom());
            }
        } else {
            match self.deposit_balance(sender_id.clone(), amount, target) {
                Ok(_) => (),
                Err(e) => {
                    return Err(e);
                },
            }
        }
        let charge = self.charge_storage_cost(initial_storage, final_storage, sender_id);
        proof {
            assert(charge is Ok);
        }
        Ok("0".to_owned())
    }

    /// The storage balance one account has registered, if any.
    pub fn storage_balance_of(&self, account_id: String) -> (r: Option<StorageBalance>)
        requires
            self.wf(),
        ensures
            match r {
                Some(b) => self.storage_balances@.contains_key(account_id@) && b
                    == self.storage_balances@[account_id@],
                None => !self.storage_balances@.contains_key(account_id@),
            },
    {
        match self.storage_balances.get(&account_id) {
            Some(b) => Some(*b),
            None => None,
        }
    }
}

/// A play the guards admit never pays out more than its funding pool: the
/// priced payout is covered by the game's sub-house pool together with
/// the house cut the bet itself contributes.
pub proof fn lemma_payout_within_pool(
    m: SlotMachine,
    game: Seq<char>,
    user: Seq<char>,
    bet: u128,
    odds: u128,
)
    requires
        m.play_gate(game, user, bet, odds) is None,
    ensures
        m.play_pre_gate(game, user, bet) is None,
        m.priced_payout(m.game_structs@[game], bet, odds) <= m.game_structs@[game].sub_house_balance
            + fee_cut(bet, m.house_fee),
{
}

} // verus!
