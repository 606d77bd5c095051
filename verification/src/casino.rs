//! The partnered casino: one machine hosts many partner games, each with
//! its own fee share and accrued balance, over per-game player ledgers.
//! A played bet is split into nft, owner, house and partner cuts; the
//! outcome is decided by one drawn byte against the chosen odds, and a win
//! pays the net bet scaled by `256 / odds` and the payment adjustment.

use vstd::prelude::*;

use crate::account_id::is_valid_account_id;
use crate::account_id::valid_account_id;
use crate::assoc::AssocMap;
use crate::assoc::balance_or_zero;
use crate::decimal::bool_to_dec_str;
use crate::decimal::dec_str;
use crate::decimal::u128_to_dec;
use crate::transfer::Transfer;

verus! {

/// Denominator of every fee fraction and of the payment adjustment.
pub const FRACTIONAL_BASE: u128 = 100_000;

#[derive(Clone, Copy, PartialEq, Eq, Structural, Debug)]
pub enum CasinoError {
    /// The owner account handed to the constructor is not a valid account id.
    InvalidOwnerAccount,
    /// The panic switch is on: wagering is halted.
    Paused,
    /// Only the owner may call this entry point.
    OnlyOwner,
    /// Exactly one yocto of native currency must be attached.
    OneYocto,
    /// The deposit is at or below the minimum accepted deposit.
    MinimumDeposit,
    /// No partner game is registered under this collection id.
    UnknownGame,
    /// A partner game is already registered under this collection id.
    GameAlreadyExists,
    /// The caller's credits do not cover the bet.
    NoCredits,
    /// The bet is below the minimum bet.
    BetBelowMinimum,
    /// The bet is above the maximum bet.
    BetAboveMaximum,
    /// The pool does not cover this withdrawal.
    InsufficientBalance,
    /// Only the partner game's owner may call this entry point.
    OnlyPartnerOwner,
}

/// One fee cut: the bet scaled by a fee fraction, truncating.
pub open spec fn fee_cut(bet: u128, fee: u128) -> int {
    (bet * fee) / (FRACTIONAL_BASE as int)
}

/// What is left of a bet once the four cuts are taken.
pub open spec fn net_bet(
    bet: u128,
    nft_fee: u128,
    owner_fee: u128,
    house_fee: u128,
    partner_fee: u128,
) -> int {
    bet - fee_cut(bet, nft_fee) - fee_cut(bet, owner_fee) - fee_cut(bet, house_fee) - fee_cut(
        bet,
        partner_fee,
    )
}

/// The payout a winning net bet earns: proportional odds `256 / odds`,
/// then the payment adjustment, both truncating.
pub open spec fn win_payout(net: int, odds: u128, adjustment: u128) -> int {
    (((net * 256) / (odds as int)) * adjustment) / (FRACTIONAL_BASE as int)
}

/// A partner game: a third party's branded instance of the casino.
pub struct PartneredGame {
    pub partner_owner: String,
    pub blocked: bool,
    /// Fee share of this partner, over `FRACTIONAL_BASE`.
    pub partner_fee: u128,
    /// Fees accrued to this partner so far.
    pub partner_balance: u128,
}

pub struct SlotMachine {
    pub owner_id: String,
    pub nft_account: String,
    pub panic_button: bool,
    pub bet_payment_adjustment: u128,
    pub nft_fee: u128,
    pub owner_fee: u128,
    pub house_fee: u128,
    pub nft_balance: u128,
    pub owner_balance: u128,
    pub house_balance: u128,
    pub max_bet: u128,
    pub min_bet: u128,
    /// Fraction of `min_bet` that bounds the smallest accepted deposit.
    pub min_balance_fraction: u128,
    pub max_odds: u8,
    pub min_odds: u8,
    pub game_count: u128,
    pub game_structs: AssocMap<PartneredGame>,
    pub game_balances: AssocMap<AssocMap<u128>>,
}

/// The configuration fields a play never touches.
pub open spec fn same_casino_config(a: SlotMachine, b: SlotMachine) -> bool {
    &&& a.owner_id == b.owner_id
    &&& a.nft_account == b.nft_account
    &&& a.panic_button == b.panic_button
    &&& a.bet_payment_adjustment == b.bet_payment_adjustment
    &&& a.nft_fee == b.nft_fee
    &&& a.owner_fee == b.owner_fee
    &&& a.house_fee == b.house_fee
    &&& a.max_bet == b.max_bet
    &&& a.min_bet == b.min_bet
    &&& a.min_balance_fraction == b.min_balance_fraction
    &&& a.max_odds == b.max_odds
    &&& a.min_odds == b.min_odds
    &&& a.game_count == b.game_count
}

impl SlotMachine {
    /// Well-formed: the registries are maps, and exactly the registered
    /// games carry a player ledger.
    pub open spec fn wf(self) -> bool {
        &&& self.game_structs.wf()
        &&& self.game_balances.wf()
        &&& self.game_structs@.dom() == self.game_balances@.dom()
        &&& forall|g: Seq<char>|
            self.game_balances@.contains_key(g) ==> (#[trigger] self.game_balances@[g]).wf()
    }

    /// The credits a player holds inside one partner game.
    pub open spec fn game_credits(self, game: Seq<char>, user: Seq<char>) -> u128 {
        if self.game_balances@.contains_key(game) {
            balance_or_zero(self.game_balances@[game]@, user)
        } else {
            0
        }
    }

    /// The smallest deposit the machine refuses: deposits must exceed it.
    pub open spec fn min_deposit(self) -> int
        recommends
            self.min_balance_fraction > 0,
    {
        (self.min_bet as int) / (self.min_balance_fraction as int)
    }

    /// The guard every owner-only entry point runs first: the caller must
    /// be the owner and must attach exactly one yocto.
    pub open spec fn owner_gate(self, caller: Seq<char>, deposit: u128) -> Option<CasinoError> {
        if caller != self.owner_id@ {
            Some(CasinoError::OnlyOwner)
        } else if deposit != 1 {
            Some(CasinoError::OneYocto)
        } else {
            None
        }
    }

    /// The checks a play makes, in the order it makes them.
    pub open spec fn play_gate(self, game: Seq<char>, user: Seq<char>, bet: u128) -> Option<
        CasinoError,
    > {
        if self.panic_button {
            Some(CasinoError::Paused)
        } else if !self.game_structs@.contains_key(game) {
            Some(CasinoError::UnknownGame)
        } else if self.game_credits(game, user) < bet {
            Some(CasinoError::NoCredits)
        } else if bet < self.min_bet {
            Some(CasinoError::BetBelowMinimum)
        } else if bet > self.max_bet {
            Some(CasinoError::BetAboveMaximum)
        } else {
            None
        }
    }

    /// Builds a casino with no partner games; the owner account must be a
    /// valid account id.
    pub fn new(
        owner_id: String,
        nft_account: String,
        bet_payment_adjustment: u128,
        nft_fee: u128,
        owner_fee: u128,
        house_fee: u128,
        house_balance: u128,
        max_bet: u128,
        min_bet: u128,
        min_balance_fraction: u128,
        max_odds: u128,
        min_odds: u128,
    ) -> (r: Result<SlotMachine, CasinoError>)
        requires
            // the host aborts the call when the odds do not fit a byte
            max_odds <= 255,
            min_odds <= 255,
        ensures
            match r {
                Ok(m) => {
                    &&& valid_account_id(owner_id@)
                    &&& m.wf()
                    &&& m.owner_id@ == owner_id@
                    &&& m.nft_account@ == nft_account@
                    &&& m.panic_button == false
                    &&& m.bet_payment_adjustment == bet_payment_adjustment
                    &&& m.nft_fee == nft_fee
                    &&& m.owner_fee == owner_fee
                    &&& m.house_fee == house_fee
                    &&& m.nft_balance == 0
                    &&& m.owner_balance == 0
                    &&& m.house_balance == house_balance
                    &&& m.max_bet == max_bet
                    &&& m.min_bet == min_bet
                    &&& m.min_balance_fraction == min_balance_fraction
                    &&& m.max_odds == max_odds
                    &&& m.min_odds == min_odds
                    &&& m.game_count == 0
                    &&& m.game_structs@ == Map::<Seq<char>, PartneredGame>::empty()
                    &&& m.game_balances@ == Map::<Seq<char>, AssocMap<u128>>::empty()
                },
                Err(e) => e == CasinoError::InvalidOwnerAccount && !valid_account_id(owner_id@),
            },
    {
        if !is_valid_account_id(owner_id.as_str()) {
            return Err(CasinoError::InvalidOwnerAccount);
        }
        let m = SlotMachine {
            owner_id,
            nft_account,
            panic_button: false,
            bet_payment_adjustment,
            nft_fee,
            owner_fee,
            house_fee,
            nft_balance: 0,
            owner_balance: 0,
            house_balance,
            max_bet,
            min_bet,
            min_balance_fraction,
            max_odds: max_odds as u8,
            min_odds: min_odds as u8,
            game_count: 0,
            game_structs: AssocMap::new(),
            game_balances: AssocMap::new(),
        };
        proof {
            assert(m.game_structs@.dom() =~= m.game_balances@.dom());
        }
        Ok(m)
    }

    /// Credits the caller's attached deposit to their ledger inside one
    /// partner game.  Deposits at or below the minimum are refused, as is
    /// everything while the machine is paused.  Returns the new balance.
    pub fn deposit_balance(&mut self, caller: String, deposit: u128, game_collection_id: String)
        -> (r: Result<u128, CasinoError>)
        requires
            old(self).wf(),
            old(self).min_balance_fraction > 0,
            old(self).game_credits(game_collection_id@, caller@) + deposit <= u128::MAX,
        ensures
            final(self).wf(),
            match r {
                Err(e) => {
                    &&& *final(self) == *old(self)
                    &&& if old(self).panic_button {
                        e == CasinoError::Paused
                    } else if deposit <= old(self).min_deposit() {
                        e == CasinoError::MinimumDeposit
                    } else {
                        e == CasinoError::UnknownGame && !old(self).game_structs@.contains_key(
                            game_collection_id@,
                        )
                    }
                },
                Ok(credits) => {
                    &&& !old(self).panic_button
                    &&& deposit > old(self).min_deposit()
                    &&& old(self).game_structs@.contains_key(game_collection_id@)
                    &&& credits == old(self).game_credits(game_collection_id@, caller@) + deposit
                    &&& same_casino_config(*final(self), *old(self))
                    &&& final(self).nft_balance == old(self).nft_balance
                    &&& final(self).owner_balance == old(self).owner_balance
                    &&& final(self).house_balance == old(self).house_balance
                    &&& final(self).game_structs@ == old(self).game_structs@
                    &&& final(self).game_balances@.dom() == old(self).game_balances@.dom()
                    &&& final(self).game_balances@[game_collection_id@]@ == old(
                        self,
                    ).game_balances@[game_collection_id@]@.insert(caller@, credits)
                    &&& forall|g: Seq<char>|
                        old(self).game_balances@.contains_key(g) && g != game_collection_id@
                            ==> final(self).game_balances@[g] == (#[trigger] old(
                            self,
                        ).game_balances@[g])
                },
            },
    {
        if self.panic_button {
            return Err(CasinoError::Paused);
        }
        if deposit <= self.min_bet / self.min_balance_fraction {
            return Err(CasinoError::MinimumDeposit);
        }
        if !self.game_structs.contains_key(&game_collection_id) {
            return Err(CasinoError::UnknownGame);
        }
        let ghost g = game_collection_id@;
        let mut inner = self.game_balances.remove(&game_collection_id).unwrap();
        let credits0 = inner.get_or_zero(&caller);
        let credits = credits0 + deposit;
        inner.insert(caller, credits);
        self.game_balances.insert(game_collection_id, inner);
        proof {
            assert(self.game_balances@.dom() =~= old(self).game_balances@.dom());
            assert forall|g2: Seq<char>| self.game_balances@.contains_key(g2) implies (
            #[trigger] self.game_balances@[g2]).wf() by {
                if g2 != g {
                    assert(self.game_balances@[g2] == old(self).game_balances@[g2]);
                }
            }
        }
        Ok(credits)
    }

    /// The credits one player holds inside one partner game; zero for an
    /// unknown player.
    pub fn get_credits(&self, game_collection_id: String, user_account_id: String) -> (r: u128)
        requires
            self.wf(),
            // the host aborts on an unregistered game
            self.game_structs@.contains_key(game_collection_id@),
        ensures
            r == self.game_credits(game_collection_id@, user_account_id@),
    {
        let inner = self.game_balances.get(&game_collection_id).unwrap();
        inner.get_or_zero(&user_account_id)
    }

    /// Removes the caller's balance from one partner game and returns the
    /// amount the host must transfer back to the caller.
    pub fn retrieve_credits(&mut self, caller: String, game_collection_id: String) -> (r: Result<
        u128,
        CasinoError,
    >)
        requires
            old(self).wf(),
        ensures
            final(self).wf(),
            match r {
                Err(e) => {
                    &&& *final(self) == *old(self)
                    &&& if old(self).panic_button {
                        e == CasinoError::Paused
                    } else {
                        e == CasinoError::UnknownGame && !old(self).game_structs@.contains_key(
                            game_collection_id@,
                        )
                    }
                },
                Ok(amount) => {
                    &&& !old(self).panic_button
                    &&& old(self).game_structs@.contains_key(game_collection_id@)
                    &&& amount == old(self).game_credits(game_collection_id@, caller@)
                    &&& same_casino_config(*final(self), *old(self))
                    &&& final(self).nft_balance == old(self).nft_balance
                    &&& final(self).owner_balance == old(self).owner_balance
                    &&& final(self).house_balance == old(self).house_balance
                    &&& final(self).game_structs@ == old(self).game_structs@
                    &&& final(self).game_balances@.dom() == old(self).game_balances@.dom()
                    &&& final(self).game_balances@[game_collection_id@]@ == old(
                        self,
                    ).game_balances@[game_collection_id@]@.remove(caller@)
                    &&& final(self).game_credits(game_collection_id@, caller@) == 0
                    &&& forall|g: Seq<char>|
                        old(self).game_balances@.contains_key(g) && g != game_collection_id@
                            ==> final(self).game_balances@[g] == (#[trigger] old(
                            self,
                        ).game_balances@[g])
                },
            },
    {
        if self.panic_button {
            return Err(CasinoError::Paused);
        }
        if !self.game_structs.contains_key(&game_collection_id) {
            return Err(CasinoError::UnknownGame);
        }
        let ghost g = game_collection_id@;
        let mut inner = self.game_balances.remove(&game_collection_id).unwrap();
        let credits = inner.get_or_zero(&caller);
        let _ = inner.remove(&caller);
        self.game_balances.insert(game_collection_id, inner);
        proof {
            assert(self.game_balances@.dom() =~= old(self).game_balances@.dom());
            assert forall|g2: Seq<char>| self.game_balances@.contains_key(g2) implies (
            #[trigger] self.game_balances@[g2]).wf() by {
                if g2 != g {
                    assert(self.game_balances@[g2] == old(self).game_balances@[g2]);
                }
            }
        }
        Ok(credits)
    }

    /// Resolves one play inside a partner game.  The bet is split into the
    /// four fee cuts, each credited to its pool; the drawn byte below the
    /// odds byte wins, and a win pays the net bet scaled by `256 / odds`
    /// and the payment adjustment out of the house pool.
    pub fn play(
        &mut self,
        caller: String,
        game_collection_id: String,
        bet_size: u128,
        odds: u128,
        rand: u8,
    ) -> (r: Result<bool, CasinoError>)
        requires
            old(self).wf(),
            // machine limits: the host aborts the call on arithmetic
            // overflow and on odds outside a byte
            1 <= odds <= 255,
            old(self).play_gate(game_collection_id@, caller@, bet_size) is None ==> ({
                let game = old(self).game_structs@[game_collection_id@];
                let net = net_bet(
                    bet_size,
                    old(self).nft_fee,
                    old(self).owner_fee,
                    old(self).house_fee,
                    game.partner_fee,
                );
                let payout = win_payout(net, odds, old(self).bet_payment_adjustment);
                &&& bet_size * old(self).nft_fee <= u128::MAX
                &&& bet_size * old(self).owner_fee <= u128::MAX
                &&& bet_size * old(self).house_fee <= u128::MAX
                &&& bet_size * game.partner_fee <= u128::MAX
                &&& fee_cut(bet_size, old(self).nft_fee) + fee_cut(bet_size, old(self).owner_fee)
                    + fee_cut(bet_size, old(self).house_fee) + fee_cut(bet_size, game.partner_fee)
                    <= bet_size
                &&& old(self).nft_balance + fee_cut(bet_size, old(self).nft_fee) <= u128::MAX
                &&& old(self).owner_balance + fee_cut(bet_size, old(self).owner_fee) <= u128::MAX
                &&& old(self).house_balance + fee_cut(bet_size, old(self).house_fee) <= u128::MAX
                &&& game.partner_balance + fee_cut(bet_size, game.partner_fee) <= u128::MAX
                &&& net * 256 <= u128::MAX
                &&& ((net * 256) / (odds as int)) * old(self).bet_payment_adjustment <= u128::MAX
                &&& old(self).game_credits(game_collection_id@, caller@) - bet_size + payout
                    <= u128::MAX
                &&& payout <= old(self).house_balance + fee_cut(bet_size, old(self).house_fee)
            }),
        ensures
            final(self).wf(),
            match r {
                Err(e) => {
                    &&& *final(self) == *old(self)
                    &&& Some(e) == old(self).play_gate(game_collection_id@, caller@, bet_size)
                },
                Ok(outcome) => ({
                    let game = old(self).game_structs@[game_collection_id@];
                    let net = net_bet(
                        bet_size,
                        old(self).nft_fee,
                        old(self).owner_fee,
                        old(self).house_fee,
                        game.partner_fee,
                    );
                    let payout = win_payout(net, odds, old(self).bet_payment_adjustment);
                    let bal0 = old(self).game_credits(game_collection_id@, caller@);
                    &&& old(self).play_gate(game_collection_id@, caller@, bet_size) is None
                    &&& outcome == ((rand as u128) < odds)
                    &&& same_casino_config(*final(self), *old(self))
                    &&& final(self).nft_balance == old(self).nft_balance + fee_cut(
                        bet_size,
                        old(self).nft_fee,
                    )
                    &&& final(self).owner_balance == old(self).owner_balance + fee_cut(
                        bet_size,
                        old(self).owner_fee,
                    )
                    &&& final(self).house_balance == old(self).house_balance + fee_cut(
                        bet_size,
                        old(self).house_fee,
                    ) - (if outcome {
                        payout
                    } else {
                        0
                    })
                    &&& final(self).game_structs@ == old(self).game_structs@.insert(
                        game_collection_id@,
                        (PartneredGame {
                            partner_balance: (game.partner_balance + fee_cut(
                                bet_size,
                                game.partner_fee,
                            )) as u128,
                            ..game
                        }),
                    )
                    &&& final(self).game_balances@.dom() == old(self).game_balances@.dom()
                    &&& final(self).game_balances@[game_collection_id@]@ == old(
                        self,
                    ).game_balances@[game_collection_id@]@.insert(
                        caller@,
                        (if outcome {
                            bal0 - bet_size + payout
                        } else {
                            bal0 - bet_size
                        }) as u128,
                    )
                    &&& forall|g: Seq<char>|
                        old(self).game_balances@.contains_key(g) && g != game_collection_id@
                            ==> final(self).game_balances@[g] == (#[trigger] old(
                            self,
                        ).game_balances@[g])
                }),
            },
    {
        let ghost g = game_collection_id@;
        if self.panic_button {
            return Err(CasinoError::Paused);
        }
        let game_opt = self.game_structs.get(&game_collection_id);
        let (partner_fee, partner_balance0) = match game_opt {
            None => {
                return Err(CasinoError::UnknownGame);
            },
            Some(game) => (game.partner_fee, game.partner_balance),
        };
        let inner_ref = self.game_balances.get(&game_collection_id).unwrap();
        let credits0 = inner_ref.get_or_zero(&caller);
        if credits0 < bet_size {
            return Err(CasinoError::NoCredits);
        }
        if bet_size < self.min_bet {
            return Err(CasinoError::BetBelowMinimum);
        }
        if bet_size > self.max_bet {
            return Err(CasinoError::BetAboveMaximum);
        }

        let nft_cut = bet_size * self.nft_fee / FRACTIONAL_BASE;
        let owner_cut = bet_size * self.owner_fee / FRACTIONAL_BASE;
        let house_cut = bet_size * self.house_fee / FRACTIONAL_BASE;
        let partner_cut = bet_size * partner_fee / FRACTIONAL_BASE;
        let net = bet_size - nft_cut - owner_cut - house_cut - partner_cut;
        self.nft_balance = self.nft_balance + nft_cut;
        self.owner_balance = self.owner_balance + owner_cut;
        self.house_balance = self.house_balance + house_cut;

        let mut game = self.game_structs.remove(&game_collection_id).unwrap();
        game.partner_balance = partner_balance0 + partner_cut;
        self.game_structs.insert(game_collection_id.clone(), game);

        let mut new_credits = credits0 - bet_size;
        let outcome = (rand as u128) < odds;
        if outcome {
            let won_value = ((net * 256) / odds) * self.bet_payment_adjustment / FRACTIONAL_BASE;
            new_credits = new_credits + won_value;
            self.house_balance = self.house_balance - won_value;
        }

        let mut inner = self.game_balances.remove(&game_collection_id).unwrap();
        inner.insert(caller, new_credits);
        self.game_balances.insert(game_collection_id, inner);
        proof {
            let game0 = old(self).game_structs@[g];
            assert(self.game_structs@ =~= old(self).game_structs@.insert(
                g,
                (PartneredGame {
                    partner_balance: (game0.partner_balance + fee_cut(
                        bet_size,
                        game0.partner_fee,
                    )) as u128,
                    ..game0
                }),
            ));
            assert(self.game_balances@.dom() =~= old(self).game_balances@.dom());
            assert(self.game_structs@.dom() =~= self.game_balances@.dom());
            assert forall|g2: Seq<char>| self.game_balances@.contains_key(g2) implies (
            #[trigger] self.game_balances@[g2]).wf() by {
                if g2 != g {
                    assert(self.game_balances@[g2] == old(self).game_balances@[g2]);
                }
            }
        }
        Ok(outcome)
    }

    /// Toggles the panic switch that halts wagering; owner only, with
    /// exactly one yocto attached.  Returns the new switch state.
    pub fn emergency_panic(&mut self, caller: String, deposit: u128) -> (r: Result<
        bool,
        CasinoError,
    >)
        requires
            old(self).wf(),
        ensures
            final(self).wf(),
            match r {
                Err(e) => Some(e) == old(self).owner_gate(caller@, deposit) && *final(self) == *old(
                    self,
                ),
                Ok(b) => {
                    &&& old(self).owner_gate(caller@, deposit) is None
                    &&& b == !old(self).panic_button
                    &&& *final(self) == (SlotMachine {
                        panic_button: !old(self).panic_button,
                        ..*old(self)
                    })
                },
            },
    {
        if !(caller == self.owner_id) {
            return Err(CasinoError::OnlyOwner);
        }
        if deposit != 1 {
            return Err(CasinoError::OneYocto);
        }
        self.panic_button = !self.panic_button;
        Ok(self.panic_button)
    }

    /// Every configuration field and pool balance, rendered as key/value
    /// strings.
    pub fn get_contract_state(&self) -> (state: Vec<(String, String)>)
        ensures
            state@.len() == 15,
            state@[0].0@ == "owner_id"@ && state@[0].1@ == self.owner_id@,
            state@[1].0@ == "nft_account"@ && state@[1].1@ == self.nft_account@,
            state@[2].0@ == "panic_button"@ && state@[2].1@ == (if self.panic_button {
                "true"@
            } else {
                "false"@
            }),
            state@[3].0@ == "bet_payment_adjustment"@ && state@[3].1@ == dec_str(
                self.bet_payment_adjustment as int,
            ),
            state@[4].0@ == "nft_fee"@ && state@[4].1@ == dec_str(self.nft_fee as int),
            state@[5].0@ == "owner_fee"@ && state@[5].1@ == dec_str(self.owner_fee as int),
            state@[6].0@ == "house_fee"@ && state@[6].1@ == dec_str(self.house_fee as int),
            state@[7].0@ == "nft_balance"@ && state@[7].1@ == dec_str(self.nft_balance as int),
            state@[8].0@ == "owner_balance"@ && state@[8].1@ == dec_str(self.owner_balance as int),
            state@[9].0@ == "house_balance"@ && state@[9].1@ == dec_str(self.house_balance as int),
            state@[10].0@ == "max_bet"@ && state@[10].1@ == dec_str(self.max_bet as int),
            state@[11].0@ == "min_bet"@ && state@[11].1@ == dec_str(self.min_bet as int),
            state@[12].0@ == "min_balance_fraction"@ && state@[12].1@ == dec_str(
                self.min_balance_fraction as int,
            ),
            state@[13].0@ == "max_odds"@ && state@[13].1@ == dec_str(self.max_odds as int),
            state@[14].0@ == "min_odds"@ && state@[14].1@ == dec_str(self.min_odds as int),
    {
        let mut state: Vec<(String, String)> = Vec::new();
        state.push(("owner_id".to_owned(), self.owner_id.clone()));
        state.push(("nft_account".to_owned(), self.nft_account.clone()));
        state.push(("panic_button".to_owned(), bool_to_dec_str(self.panic_button).to_owned()));
        state.push(("bet_payment_adjustment".to_owned(), u128_to_dec(self.bet_payment_adjustment)));
        state.push(("nft_fee".to_owned(), u128_to_dec(self.nft_fee)));
        state.push(("owner_fee".to_owned(), u128_to_dec(self.owner_fee)));
        state.push(("house_fee".to_owned(), u128_to_dec(self.house_fee)));
        state.push(("nft_balance".to_owned(), u128_to_dec(self.nft_balance)));
        state.push(("owner_balance".to_owned(), u128_to_dec(self.owner_balance)));
        state.push(("house_balance".to_owned(), u128_to_dec(self.house_balance)));
        state.push(("max_bet".to_owned(), u128_to_dec(self.max_bet)));
        state.push(("min_bet".to_owned(), u128_to_dec(self.min_bet)));
        state.push(("min_balance_fraction".to_owned(), u128_to_dec(self.min_balance_fraction)));
        state.push(("max_odds".to_owned(), u128_to_dec(self.max_odds as u128)));
        state.push(("min_odds".to_owned(), u128_to_dec(self.min_odds as u128)));
        state
    }

    /// Replaces every tunable configuration field; owner only, one yocto.
    pub fn update_contract(
        &mut self,
        caller: String,
        deposit: u128,
        bet_payment_adjustment: u128,
        nft_fee: u128,
        owner_fee: u128,
        house_fee: u128,
        max_bet: u128,
        min_bet: u128,
        min_balance_fraction: u128,
        max_odds: u128,
        min_odds: u128,
    ) -> (r: Result<bool, CasinoError>)
        requires
            old(self).wf(),
            // the host aborts the call when the odds do not fit a byte
            max_odds <= 255,
            min_odds <= 255,
        ensures
            final(self).wf(),
            match r {
                Err(e) => Some(e) == old(self).owner_gate(caller@, deposit) && *final(self) == *old(
                    self,
                ),
                Ok(b) => {
                    &&& old(self).owner_gate(caller@, deposit) is None
                    &&& b == true
                    &&& *final(self) == (SlotMachine {
                        bet_payment_adjustment,
                        nft_fee,
                        owner_fee,
                        house_fee,
                        max_bet,
                        min_bet,
                        min_balance_fraction,
                        max_odds: max_odds as u8,
                        min_odds: min_odds as u8,
                        ..*old(self)
                    })
                },
            },
    {
        if !(caller == self.owner_id) {
            return Err(CasinoError::OnlyOwner);
        }
        if deposit != 1 {
            return Err(CasinoError::OneYocto);
        }
        self.bet_payment_adjustment = bet_payment_adjustment;
        self.nft_fee = nft_fee;
        self.owner_fee = owner_fee;
        self.house_fee = house_fee;
        self.max_bet = max_bet;
        self.min_bet = min_bet;
        self.min_balance_fraction = min_balance_fraction;
        self.max_odds = max_odds as u8;
        self.min_odds = min_odds as u8;
        Ok(true)
    }

    /// Withdraws from the owner's fee pool to the owner; owner only, one
    /// yocto, and the pool must cover the amount.
    pub fn retrieve_owner_funds(&mut self, caller: String, deposit: u128, amount: u128) -> (r:
        Result<Transfer, CasinoError>)
        requires
            old(self).wf(),
        ensures
            final(self).wf(),
            match r {
                Err(e) => {
                    &&& *final(self) == *old(self)
                    &&& match old(self).owner_gate(caller@, deposit) {
                        Some(g) => e == g,
                        None => e == CasinoError::InsufficientBalance && old(self).owner_balance
                            < amount,
                    }
                },
                Ok(t) => {
                    &&& old(self).owner_gate(caller@, deposit) is None
                    &&& old(self).owner_balance >= amount
                    &&& t.receiver@ == old(self).owner_id@
                    &&& t.amount == amount
                    &&& *final(self) == (SlotMachine {
                        owner_balance: (old(self).owner_balance - amount) as u128,
                        ..*old(self)
                    })
                },
            },
    {
        if !(caller == self.owner_id) {
            return Err(CasinoError::OnlyOwner);
        }
        if deposit != 1 {
            return Err(CasinoError::OneYocto);
        }
        if self.owner_balance < amount {
            return Err(CasinoError::InsufficientBalance);
        }
        self.owner_balance = self.owner_balance - amount;
        Ok(Transfer { receiver: self.owner_id.clone(), amount })
    }

    /// Withdraws from the token holders' fee pool to the nft account;
    /// owner only, one yocto, and the pool must cover the amount.
    pub fn retrieve_nft_funds(&mut self, caller: String, deposit: u128, amount: u128) -> (r: Result<
        Transfer,
        CasinoError,
    >)
        requires
            old(self).wf(),
        ensures
            final(self).wf(),
            match r {
                Err(e) => {
                    &&& *final(self) == *old(self)
                    &&& match old(self).owner_gate(caller@, deposit) {
                        Some(g) => e == g,
                        None => e == CasinoError::InsufficientBalance && old(self).nft_balance
                            < amount,
                    }
                },
                Ok(t) => {
                    &&& old(self).owner_gate(caller@, deposit) is None
                    &&& old(self).nft_balance >= amount
                    &&& t.receiver@ == old(self).nft_account@
                    &&& t.amount == amount
                    &&& *final(self) == (SlotMachine {
                        nft_balance: (old(self).nft_balance - amount) as u128,
                        ..*old(self)
                    })
                },
            },
    {
        if !(caller == self.owner_id) {
            return Err(CasinoError::OnlyOwner);
        }
        if deposit != 1 {
            return Err(CasinoError::OneYocto);
        }
        if self.nft_balance < amount {
            return Err(CasinoError::InsufficientBalance);
        }
        self.nft_balance = self.nft_balance - amount;
        Ok(Transfer { receiver: self.nft_account.clone(), amount })
    }

    /// Withdraws from the house pool to the owner; owner only, one yocto,
    /// and the pool must cover the amount.
    pub fn retrieve_house_funds(&mut self, caller: String, deposit: u128, amount: u128) -> (r:
        Result<Transfer, CasinoError>)
        requires
            old(self).wf(),
        ensures
            final(self).wf(),
            match r {
                Err(e) => {
                    &&& *final(self) == *old(self)
                    &&& match old(self).owner_gate(caller@, deposit) {
                        Some(g) => e == g,
                        None => e == CasinoError::InsufficientBalance && old(self).house_balance
                            < amount,
                    }
                },
                Ok(t) => {
                    &&& old(self).owner_gate(caller@, deposit) is None
                    &&& old(self).house_balance >= amount
                    &&& t.receiver@ == old(self).owner_id@
                    &&& t.amount == amount
                    &&& *final(self) == (SlotMachine {
                        house_balance: (old(self).house_balance - amount) as u128,
                        ..*old(self)
                    })
                },
            },
    {
        if !(caller == self.owner_id) {
            return Err(CasinoError::OnlyOwner);
        }
        if deposit != 1 {
            return Err(CasinoError::OneYocto);
        }
        if self.house_balance < amount {
            return Err(CasinoError::InsufficientBalance);
        }
        self.house_balance = self.house_balance - amount;
        Ok(Transfer { receiver: self.owner_id.clone(), amount })
    }

    /// Registers a new partner game with an empty player ledger; owner
    /// only, one yocto, and the collection id must be fresh.
    pub fn create_new_partner(
        &mut self,
        caller: String,
        deposit: u128,
        partner_owner: String,
        nft_contract: String,
        partner_fee: u128,
    ) -> (r: Result<bool, CasinoError>)
        requires
            old(self).wf(),
        ensures
            final(self).wf(),
            match r {
                Err(e) => {
                    &&& *final(self) == *old(self)
                    &&& match old(self).owner_gate(caller@, deposit) {
                        Some(g) => e == g,
                        None => e == CasinoError::GameAlreadyExists && old(
                            self,
                        ).game_structs@.contains_key(nft_contract@),
                    }
                },
                Ok(b) => {
                    &&& old(self).owner_gate(caller@, deposit) is None
                    &&& !old(self).game_structs@.contains_key(nft_contract@)
                    &&& b == true
                    &&& same_casino_config(*final(self), *old(self))
                    &&& final(self).nft_balance == old(self).nft_balance
                    &&& final(self).owner_balance == old(self).owner_balance
                    &&& final(self).house_balance == old(self).house_balance
                    &&& final(self).game_structs@ == old(self).game_structs@.insert(
                        nft_contract@,
                        (PartneredGame {
                            partner_owner,
                            blocked: false,
                            partner_fee,
                            partner_balance: 0,
                        }),
                    )
                    &&& final(self).game_balances@.dom() == old(self).game_balances@.dom().insert(
                        nft_contract@,
                    )
                    &&& final(self).game_balances@[nft_contract@]@ == Map::<Seq<char>, u128>::empty()
                    &&& forall|g: Seq<char>|
                        old(self).game_balances@.contains_key(g) && g != nft_contract@ ==> final(self).game_balances@[g] == (#[trigger] old(self).game_balances@[g])
                },
            },
    {
        if !(caller == self.owner_id) {
            return Err(CasinoError::OnlyOwner);
        }
        if deposit != 1 {
            return Err(CasinoError::OneYocto);
        }
        if self.game_structs.contains_key(&nft_contract) {
            return Err(CasinoError::GameAlreadyExists);
        }
        let ghost g = nft_contract@;
        let game_settings = PartneredGame {
            partner_owner,
            blocked: false,
            partner_fee,
            partner_balance: 0,
        };
        self.game_balances.insert(nft_contract.clone(), AssocMap::new());
        self.game_structs.insert(nft_contract, game_settings);
        proof {
            assert(self.game_structs@.dom() =~= self.game_balances@.dom());
            assert(self.game_balances@.dom() =~= old(self).game_balances@.dom().insert(g));
            assert forall|g2: Seq<char>| self.game_balances@.contains_key(g2) implies (
            #[trigger] self.game_balances@[g2]).wf() by {
                if g2 != g {
                    assert(self.game_balances@[g2] == old(self).game_balances@[g2]);
                }
            }
        }
        Ok(true)
    }

    /// Rewrites a partner game's owner, fee share and block flag, keeping
    /// its accrued balance; owner only, one yocto, and the game must
    /// already exist.
    pub fn alter_partner(
        &mut self,
        caller: String,
        deposit: u128,
        partner_owner: String,
        nft_contract: String,
        partner_fee: u128,
        blocked: bool,
    ) -> (r: Result<bool, CasinoError>)
        requires
            old(self).wf(),
        ensures
            final(self).wf(),
            match r {
                Err(e) => {
                    &&& *final(self) == *old(self)
                    &&& match old(self).owner_gate(caller@, deposit) {
                        Some(g) => e == g,
                        None => e == CasinoError::UnknownGame && !old(
                            self,
                        ).game_structs@.contains_key(nft_contract@),
                    }
                },
                Ok(b) => {
                    &&& old(self).owner_gate(caller@, deposit) is None
                    &&& old(self).game_structs@.contains_key(nft_contract@)
                    &&& b == true
                    &&& same_casino_config(*final(self), *old(self))
                    &&& final(self).nft_balance == old(self).nft_balance
                    &&& final(self).owner_balance == old(self).owner_balance
                    &&& final(self).house_balance == old(self).house_balance
                    &&& final(self).game_balances@ == old(self).game_balances@
                    &&& final(self).game_structs@ == old(self).game_structs@.insert(
                        nft_contract@,
                        (PartneredGame {
                            partner_owner,
                            blocked,
                            partner_fee,
                            partner_balance: old(self).game_structs@[nft_contract@].partner_balance,
                        }),
                    )
                },
            },
    {
        if !(caller == self.owner_id) {
            return Err(CasinoError::OnlyOwner);
        }
        if deposit != 1 {
            return Err(CasinoError::OneYocto);
        }
        if !self.game_structs.contains_key(&nft_contract) {
            return Err(CasinoError::UnknownGame);
        }
        let ghost g = nft_contract@;
        let mut game = self.game_structs.remove(&nft_contract).unwrap();
        game.partner_owner = partner_owner;
        game.blocked = blocked;
        game.partner_fee = partner_fee;
        self.game_structs.insert(nft_contract, game);
        proof {
            assert(self.game_structs@ =~= old(self).game_structs@.insert(
                g,
                self.game_structs@[g],
            ));
            assert(self.game_structs@.dom() =~= self.game_balances@.dom());
        }
        Ok(true)
    }

    /// A partner game's settings and accrued balance, rendered as
    /// key/value strings.
    pub fn view_partner_data(&self, nft_contract: String) -> (r: Result<
        Vec<(String, String)>,
        CasinoError,
    >)
        requires
            self.wf(),
        ensures
            match r {
                Err(e) => e == CasinoError::UnknownGame && !self.game_structs@.contains_key(
                    nft_contract@,
                ),
                Ok(state) => ({
                    let game = self.game_structs@[nft_contract@];
                    &&& self.game_structs@.contains_key(nft_contract@)
                    &&& state@.len() == 4
                    &&& state@[0].0@ == "partner_owner"@ && state@[0].1@ == game.partner_owner@
                    &&& state@[1].0@ == "blocked"@ && state@[1].1@ == (if game.blocked {
                        "true"@
                    } else {
                        "false"@
                    })
                    &&& state@[2].0@ == "partner_fee"@ && state@[2].1@ == dec_str(
                        game.partner_fee as int,
                    )
                    &&& state@[3].0@ == "partner_balance"@ && state@[3].1@ == dec_str(
                        game.partner_balance as int,
                    )
                }),
            },
    {
        let game = match self.game_structs.get(&nft_contract) {
            None => {
                return Err(CasinoError::UnknownGame);
            },
            Some(game) => game,
        };
        let mut state: Vec<(String, String)> = Vec::new();
        state.push(("partner_owner".to_owned(), game.partner_owner.clone()));
        state.push(("blocked".to_owned(), bool_to_dec_str(game.blocked).to_owned()));
        state.push(("partner_fee".to_owned(), u128_to_dec(game.partner_fee)));
        state.push(("partner_balance".to_owned(), u128_to_dec(game.partner_balance)));
        Ok(state)
    }

    /// Empties a partner game's accrued fee balance and returns the
    /// transfer of that balance to the partner's owner, who must be the
    /// caller; one yocto must be attached.
    pub fn retrieve_partner_balance(&mut self, caller: String, deposit: u128, nft_contract: String)
        -> (r: Result<Transfer, CasinoError>)
        requires
            old(self).wf(),
        ensures
            final(self).wf(),
            match r {
                Err(e) => {
                    &&& *final(self) == *old(self)
                    &&& if !old(self).game_structs@.contains_key(nft_contract@) {
                        e == CasinoError::UnknownGame
                    } else if caller@ != old(self).game_structs@[nft_contract@].partner_owner@ {
                        e == CasinoError::OnlyPartnerOwner
                    } else {
                        e == CasinoError::OneYocto && deposit != 1
                    }
                },
                Ok(t) => ({
                    let game = old(self).game_structs@[nft_contract@];
                    &&& old(self).game_structs@.contains_key(nft_contract@)
                    &&& caller@ == game.partner_owner@
                    &&& deposit == 1
                    &&& t.receiver@ == game.partner_owner@
                    &&& t.amount == game.partner_balance
                    &&& same_casino_config(*final(self), *old(self))
                    &&& final(self).nft_balance == old(self).nft_balance
                    &&& final(self).owner_balance == old(self).owner_balance
                    &&& final(self).house_balance == old(self).house_balance
                    &&& final(self).game_balances@ == old(self).game_balances@
                    &&& final(self).game_structs@ == old(self).game_structs@.insert(
                        nft_contract@,
                        (PartneredGame { partner_balance: 0, ..game }),
                    )
                }),
            },
    {
        if !self.game_structs.contains_key(&nft_contract) {
            return Err(CasinoError::UnknownGame);
        }
        let ghost g = nft_contract@;
        let game_ref = self.game_structs.get(&nft_contract).unwrap();
        if !(caller == game_ref.partner_owner) {
            return Err(CasinoError::OnlyPartnerOwner);
        }
        if deposit != 1 {
            return Err(CasinoError::OneYocto);
        }
        let mut game = self.game_structs.remove(&nft_contract).unwrap();
        let balance = game.partner_balance;
        game.partner_balance = 0;
        let receiver = game.partner_owner.clone();
        self.game_structs.insert(nft_contract, game);
        proof {
            assert(self.game_structs@ =~= old(self).game_structs@.insert(
                g,
                self.game_structs@[g],
            ));
            assert(self.game_structs@.dom() =~= self.game_balances@.dom());
        }
        Ok(Transfer { receiver, amount: balance })
    }
}

/// The four fee cuts and the net bet partition the bet: the net bet is the
/// bet less the cuts, and never exceeds the bet.
pub proof fn lemma_fee_partition(
    bet: u128,
    nft_fee: u128,
    owner_fee: u128,
    house_fee: u128,
    partner_fee: u128,
)
    requires
        fee_cut(bet, nft_fee) + fee_cut(bet, owner_fee) + fee_cut(bet, house_fee) + fee_cut(
            bet,
            partner_fee,
        ) <= bet,
    ensures
        net_bet(bet, nft_fee, owner_fee, house_fee, partner_fee) == bet - (fee_cut(bet, nft_fee)
            + fee_cut(bet, owner_fee) + fee_cut(bet, house_fee) + fee_cut(bet, partner_fee)),
        0 <= net_bet(bet, nft_fee, owner_fee, house_fee, partner_fee) <= bet,
{
    vstd::arithmetic::div_mod::lemma_div_pos_is_pos((bet * nft_fee) as int, FRACTIONAL_BASE as int);
    vstd::arithmetic::div_mod::lemma_div_pos_is_pos(
        (bet * owner_fee) as int,
        FRACTIONAL_BASE as int,
    );
    vstd::arithmetic::div_mod::lemma_div_pos_is_pos(
        (bet * house_fee) as int,
        FRACTIONAL_BASE as int,
    );
    vstd::arithmetic::div_mod::lemma_div_pos_is_pos(
        (bet * partner_fee) as int,
        FRACTIONAL_BASE as int,
    );
}

} // verus!
