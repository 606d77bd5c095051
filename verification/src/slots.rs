//! The first wagering machine: one shared credit ledger, a fixed win
//! probability of one half, and fee pools for the token holders, the
//! developers and the house.  A played bet is split into fee cuts and a
//! net bet; a win pays the net bet scaled by the configured multiplier.

use vstd::prelude::*;

use crate::account_id::is_valid_account_id;
use crate::account_id::valid_account_id;
use crate::assoc::AssocMap;
use crate::assoc::balance_or_zero;

verus! {

/// Denominator shared by every fee fraction and by the win multiplier.
pub const FRACTIONAL_BASE: u128 = 10_000;

/// The drawn byte is compared against this threshold: a draw below it wins,
/// so the win probability is one half.
pub const PROB: u8 = 128;

#[derive(Clone, Copy, PartialEq, Eq, Structural, Debug)]
pub enum SlotsError {
    /// The owner account handed to the constructor is not a valid account id.
    InvalidOwnerAccount,
    /// The player holds no credits.
    NoCredits,
    /// Only the owner may call this entry point.
    OnlyOwner,
}

/// One fee cut: the bet scaled by a fee fraction, truncating.
pub open spec fn fee_cut(bet: u128, fee: u128) -> int {
    (bet * fee) / (FRACTIONAL_BASE as int)
}

/// What is left of a bet once the three cuts are taken.
pub open spec fn net_bet(bet: u128, nft_fee: u128, dev_fee: u128, house_fee: u128) -> int {
    bet - fee_cut(bet, nft_fee) - fee_cut(bet, dev_fee) - fee_cut(bet, house_fee)
}

/// The payout a winning net bet earns.
pub open spec fn win_payout(net: int, multiplier: u128) -> int {
    (net * multiplier) / (FRACTIONAL_BASE as int)
}

pub struct SlotMachine {
    pub owner_id: String,
    pub nft_id: String,
    pub credits: AssocMap<u128>,
    pub nft_fee: u128,
    pub dev_fee: u128,
    pub house_fee: u128,
    pub win_multiplier: u128,
    pub nft_balance: u128,
    pub dev_balance: u128,
    pub house_balance: u128,
}

/// The fields a play never touches.
pub open spec fn same_machine_config(a: SlotMachine, b: SlotMachine) -> bool {
    &&& a.owner_id == b.owner_id
    &&& a.nft_id == b.nft_id
    &&& a.nft_fee == b.nft_fee
    &&& a.dev_fee == b.dev_fee
    &&& a.house_fee == b.house_fee
    &&& a.win_multiplier == b.win_multiplier
}

impl SlotMachine {
    pub open spec fn wf(self) -> bool {
        self.credits.wf()
    }

    /// The credits a player holds.
    pub open spec fn credits_of(self, account: Seq<char>) -> u128 {
        balance_or_zero(self.credits@, account)
    }

    /// Builds a machine with empty ledgers; the owner account must be a
    /// valid account id.
    pub fn new(
        owner_id: String,
        nft_id: String,
        nft_fee: u128,
        dev_fee: u128,
        house_fee: u128,
        win_multiplier: u128,
    ) -> (r: Result<SlotMachine, SlotsError>)
        ensures
            match r {
                Ok(m) => {
                    &&& valid_account_id(owner_id@)
                    &&& m.wf()
                    &&& m.owner_id@ == owner_id@
                    &&& m.nft_id@ == nft_id@
                    &&& m.nft_fee == nft_fee
                    &&& m.dev_fee == dev_fee
                    &&& m.house_fee == house_fee
                    &&& m.win_multiplier == win_multiplier
                    &&& m.nft_balance == 0
                    &&& m.dev_balance == 0
                    &&& m.house_balance == 0
                    &&& m.credits@ == Map::<Seq<char>, u128>::empty()
                },
                Err(e) => e == SlotsError::InvalidOwnerAccount && !valid_account_id(owner_id@),
            },
    {
        if !is_valid_account_id(owner_id.as_str()) {
            return Err(SlotsError::InvalidOwnerAccount);
        }
        Ok(SlotMachine {
            owner_id,
            nft_id,
            credits: AssocMap::new(),
            nft_fee,
            dev_fee,
            house_fee,
            win_multiplier,
            nft_balance: 0,
            dev_balance: 0,
            house_balance: 0,
        })
    }

    /// Credits the caller's attached deposit to their ledger balance; no
    /// other balance changes.
    pub fn deposit(&mut self, account_id: String, deposit: u128)
        requires
            old(self).wf(),
            old(self).credits_of(account_id@) + deposit <= u128::MAX,
        ensures
            final(self).wf(),
            same_machine_config(*final(self), *old(self)),
            final(self).nft_balance == old(self).nft_balance,
            final(self).dev_balance == old(self).dev_balance,
            final(self).house_balance == old(self).house_balance,
            final(self).credits@ == old(self).credits@.insert(
                account_id@,
                (old(self).credits_of(account_id@) + deposit) as u128,
            ),
    {
        let credits = self.credits.get_or_zero(&account_id);
        self.credits.insert(account_id, credits + deposit);
    }

    /// Resolves one play.  The caller must hold credits; the bet is split
    /// into fee cuts, each credited to its pool, the draw decides the
    /// outcome, and a win pays the net bet scaled by the multiplier.
    pub fn play(&mut self, account_id: String, bet_size: u128, rand: u8) -> (r: Result<
        bool,
        SlotsError,
    >)
        requires
            old(self).wf(),
            // machine limits: the host aborts the call on arithmetic overflow,
            // so those inputs are excluded here
            bet_size * old(self).nft_fee <= u128::MAX,
            bet_size * old(self).dev_fee <= u128::MAX,
            bet_size * old(self).house_fee <= u128::MAX,
            fee_cut(bet_size, old(self).nft_fee) + fee_cut(bet_size, old(self).dev_fee) + fee_cut(
                bet_size,
                old(self).house_fee,
            ) <= bet_size,
            old(self).nft_balance + fee_cut(bet_size, old(self).nft_fee) <= u128::MAX,
            old(self).dev_balance + fee_cut(bet_size, old(self).dev_fee) <= u128::MAX,
            old(self).house_balance + fee_cut(bet_size, old(self).house_fee) <= u128::MAX,
            net_bet(bet_size, old(self).nft_fee, old(self).dev_fee, old(self).house_fee) * old(
                self,
            ).win_multiplier <= u128::MAX,
            old(self).credits_of(account_id@) > 0 ==> bet_size <= old(self).credits_of(
                account_id@,
            ),
            old(self).credits_of(account_id@) > 0 ==> old(self).credits_of(account_id@) - bet_size
                + win_payout(
                net_bet(bet_size, old(self).nft_fee, old(self).dev_fee, old(self).house_fee),
                old(self).win_multiplier,
            ) <= u128::MAX,
        ensures
            final(self).wf(),
            same_machine_config(*final(self), *old(self)),
            match r {
                Err(e) => {
                    &&& e == SlotsError::NoCredits
                    &&& old(self).credits_of(account_id@) == 0
                    &&& *final(self) == *old(self)
                },
                Ok(outcome) => ({
                    let bal0 = old(self).credits_of(account_id@);
                    let net = net_bet(
                        bet_size,
                        old(self).nft_fee,
                        old(self).dev_fee,
                        old(self).house_fee,
                    );
                    &&& bal0 > 0
                    &&& outcome == (rand < PROB)
                    &&& final(self).nft_balance == old(self).nft_balance + fee_cut(
                        bet_size,
                        old(self).nft_fee,
                    )
                    &&& final(self).dev_balance == old(self).dev_balance + fee_cut(
                        bet_size,
                        old(self).dev_fee,
                    )
                    &&& final(self).house_balance == old(self).house_balance + fee_cut(
                        bet_size,
                        old(self).house_fee,
                    )
                    &&& final(self).credits@ == old(self).credits@.insert(
                        account_id@,
                        if rand < PROB {
                            (bal0 - bet_size + win_payout(net, old(self).win_multiplier)) as u128
                        } else {
                            (bal0 - bet_size) as u128
                        },
                    )
                }),
            },
    {
        let credits0 = self.credits.get_or_zero(&account_id);
        if credits0 == 0 {
            return Err(SlotsError::NoCredits);
        }
        let nft_cut = bet_size * self.nft_fee / FRACTIONAL_BASE;
        let dev_cut = bet_size * self.dev_fee / FRACTIONAL_BASE;
        let house_cut = bet_size * self.house_fee / FRACTIONAL_BASE;
        let net = bet_size - nft_cut - dev_cut - house_cut;
        self.nft_balance = self.nft_balance + nft_cut;
        self.dev_balance = self.dev_balance + dev_cut;
        self.house_balance = self.house_balance + house_cut;
        let mut new_credits = credits0 - bet_size;
        let outcome = rand < PROB;
        if outcome {
            let won_value = net * self.win_multiplier / FRACTIONAL_BASE;
            new_credits = new_credits + won_value;
        }
        self.credits.insert(account_id, new_credits);
        Ok(outcome)
    }

    /// The credits a player holds; zero for an unknown account.
    pub fn get_credits(&self, account_id: String) -> (r: u128)
        requires
            self.wf(),
        ensures
            r == self.credits_of(account_id@),
    {
        self.credits.get_or_zero(&account_id)
    }

    /// Zeroes the caller's balance and returns the amount the host must
    /// transfer back to the caller: the whole pre-call credit.
    pub fn retrieve_credits(&mut self, account_id: String) -> (amount: u128)
        requires
            old(self).wf(),
        ensures
            final(self).wf(),
            same_machine_config(*final(self), *old(self)),
            final(self).nft_balance == old(self).nft_balance,
            final(self).dev_balance == old(self).dev_balance,
            final(self).house_balance == old(self).house_balance,
            amount == old(self).credits_of(account_id@),
            final(self).credits@ == old(self).credits@.insert(account_id@, 0u128),
            final(self).credits_of(account_id@) == 0,
    {
        let credits = self.credits.get_or_zero(&account_id);
        self.credits.insert(account_id, 0);
        credits
    }

    /// Replaces the fee configuration; only the owner may call it.
    pub fn update_contract(
        &mut self,
        caller: String,
        nft_fee: u128,
        dev_fee: u128,
        house_fee: u128,
        win_multiplier: u128,
    ) -> (r: Result<(), SlotsError>)
        requires
            old(self).wf(),
        ensures
            final(self).wf(),
            match r {
                Ok(()) => {
                    &&& caller@ == old(self).owner_id@
                    &&& *final(self) == (SlotMachine {
                        nft_fee,
                        dev_fee,
                        house_fee,
                        win_multiplier,
                        ..*old(self)
                    })
                },
                Err(e) => {
                    &&& e == SlotsError::OnlyOwner
                    &&& caller@ != old(self).owner_id@
                    &&& *final(self) == *old(self)
                },
            },
    {
        if !(caller == self.owner_id) {
            return Err(SlotsError::OnlyOwner);
        }
        self.nft_fee = nft_fee;
        self.dev_fee = dev_fee;
        self.house_fee = house_fee;
        self.win_multiplier = win_multiplier;
        Ok(())
    }
}

/// The fee cuts and the net bet partition the bet: the net bet is the bet
/// less the three cuts, and never exceeds the bet.
pub proof fn lemma_fee_partition(bet: u128, nft_fee: u128, dev_fee: u128, house_fee: u128)
    requires
        fee_cut(bet, nft_fee) + fee_cut(bet, dev_fee) + fee_cut(bet, house_fee) <= bet,
    ensures
        net_bet(bet, nft_fee, dev_fee, house_fee) == bet - (fee_cut(bet, nft_fee) + fee_cut(
            bet,
            dev_fee,
        ) + fee_cut(bet, house_fee)),
        0 <= net_bet(bet, nft_fee, dev_fee, house_fee) <= bet,
{
    assert(fee_cut(bet, nft_fee) >= 0) by {
        vstd::arithmetic::div_mod::lemma_div_pos_is_pos((bet * nft_fee) as int, FRACTIONAL_BASE as int);
    }
    assert(fee_cut(bet, dev_fee) >= 0) by {
        vstd::arithmetic::div_mod::lemma_div_pos_is_pos((bet * dev_fee) as int, FRACTIONAL_BASE as int);
    }
    assert(fee_cut(bet, house_fee) >= 0) by {
        vstd::arithmetic::div_mod::lemma_div_pos_is_pos((bet * house_fee) as int, FRACTIONAL_BASE as int);
    }
}

} // verus!
