//! The capped minter: sequential numeric token ids, a hardcoded royalty
//! recipient, a fixed mint price forwarded to a fixed owner account, and
//! an allow-list mode that limits most accounts to a single mint.

use vstd::prelude::*;

use crate::assoc::AssocMap;
use crate::decimal::dec_str;
use crate::decimal::u128_to_dec;
use crate::messages::str_eq;
use crate::transfer::Transfer;

verus! {

/// What a mint costs, forwarded verbatim to the collection owner.
pub const REQUIRED_COST: u128 = 10_000_000_000_000_000_000_000_000;

#[derive(Clone, Copy, PartialEq, Eq, Structural, Debug)]
pub enum MintError {
    /// Minting has not been activated.
    NotActivated,
    /// Every token of the cap has been minted.
    AllMinted,
    /// Allow-list mode is on and the receiver is not listed.
    NotWhitelisted,
    /// Allow-list mode limits this receiver to one token.
    WhitelistLimit,
    /// No metadata was uploaded for the next token id.
    NoMetadata,
    /// A token already exists under the next id.
    TokenAlreadyExists,
    /// Another token already uses this metadata's image.
    ImgUrlUsed,
    /// The attached deposit does not cover the mint cost.
    InsufficientDeposit,
    /// Only the collection owner may call this entry point.
    NotOwner,
    /// No token exists under this id.
    UnknownToken,
}

/// The metadata a token carries; the image address must be unique across
/// the collection.
pub struct TokenMetadata {
    pub media: Option<String>,
}

impl TokenMetadata {
    /// An equal copy.
    pub fn duplicate(&self) -> (r: TokenMetadata)
        ensures
            r == *self,
    {
        TokenMetadata {
            media: match &self.media {
                Some(m) => Some(m.clone()),
                None => None,
            },
        }
    }
}

/// One minted token: its owner and its royalty recipients.
pub struct Token {
    pub owner_id: String,
    pub royalty: Vec<(String, u32)>,
}

/// The royalty list as views.
pub open spec fn royalty_view(t: Token) -> Seq<(Seq<char>, u32)> {
    t.royalty@.map_values(|e: (String, u32)| (e.0@, e.1))
}

/// Whether an account stands in a list.
pub open spec fn list_contains(list: Seq<String>, a: Seq<char>) -> bool {
    exists|i: int| 0 <= i < list.len() && list[i]@ == a
}

pub struct Contract {
    /// Zero when minting is active.
    pub activate: u128,
    /// One when the allow-list mode is on.
    pub whitelist: u128,
    /// Tokens minted so far; ids are sequential from one.
    pub current_nfts: u128,
    /// The cap.
    pub max_nfts: u128,
    pub whitelist_list: Vec<String>,
    /// Metadata uploaded for ids not yet minted.
    pub tokens_to_mint: AssocMap<TokenMetadata>,
    pub tokens_by_id: AssocMap<Token>,
    pub tokens_by_img_url: AssocMap<Token>,
    pub token_metadata_by_id: AssocMap<TokenMetadata>,
    /// Token ids held, per owner.
    pub tokens_per_owner: AssocMap<Vec<String>>,
}

impl Contract {
    pub open spec fn wf(self) -> bool {
        &&& self.tokens_to_mint.wf()
        &&& self.tokens_by_id.wf()
        &&& self.tokens_by_img_url.wf()
        &&& self.token_metadata_by_id.wf()
        &&& self.tokens_per_owner.wf()
    }

    /// The ids one owner holds.
    pub open spec fn tokens_of(self, owner: Seq<char>) -> Seq<String> {
        if self.tokens_per_owner@.contains_key(owner) {
            self.tokens_per_owner@[owner]@
        } else {
            Seq::empty()
        }
    }

    /// The ids one owner holds, a page at a time: `from` skips, `limit`
    /// caps the count, both clamped to the list.
    pub fn nft_tokens_for_owner_internal(
        &self,
        account_id: &String,
        from_index: Option<u128>,
        limit: Option<u64>,
    ) -> (r: Vec<String>)
        requires
            self.wf(),
        ensures
            ({
                let lst = self.tokens_of(account_id@);
                let f = (match from_index {
                    Some(f) => f as int,
                    None => 0,
                });
                let l = (match limit {
                    Some(l) => l as int,
                    None => lst.len() as int,
                });
                let start = if f < lst.len() {
                    f
                } else {
                    lst.len() as int
                };
                let end = if f + l < lst.len() {
                    f + l
                } else {
                    lst.len() as int
                };
                r@.len() == end - start && forall|i: int|
                    0 <= i < r@.len() ==> r@[i]@ == lst[start + i]@
            }),
    {
        let list: &Vec<String> = match self.tokens_per_owner.get(account_id) {
            Some(l) => l,
            None => {
                proof {
                    assert(self.tokens_of(account_id@) =~= Seq::<String>::empty());
                }
                return Vec::new();
            },
        };
        let n = list.len();
        let start: usize = match from_index {
            Some(f) => if f < n as u128 {
                f as usize
            } else {
                n
            },
            None => 0,
        };
        let count: usize = match limit {
            Some(l) => if l < (n - start) as u64 {
                l as usize
            } else {
                n - start
            },
            None => n - start,
        };
        let mut r: Vec<String> = Vec::new();
        for i in 0..count
            invariant
                start + count <= n,
                n == list@.len(),
                r@.len() == i,
                forall|j: int| 0 <= j < i ==> r@[j]@ == list@[start + j]@,
        {
            r.push(list[start + i].clone());
        }
        r
    }

    /// Files a token id under its owner.
    pub fn internal_add_token_to_owner(&mut self, account_id: &String, token_id: &String)
        requires
            old(self).wf(),
        ensures
            final(self).wf(),
            *final(self) == (Contract {
                tokens_per_owner: final(self).tokens_per_owner,
                ..*old(self)
            }),
            final(self).tokens_per_owner@.dom() == old(self).tokens_per_owner@.dom().insert(
                account_id@,
            ),
            ({
                let lst = final(self).tokens_per_owner@[account_id@]@;
                let lst0 = old(self).tokens_of(account_id@);
                lst.len() == lst0.len() + 1 && lst[lst.len() - 1]@ == token_id@ && forall|i: int|
                    0 <= i < lst0.len() ==> lst[i] == lst0[i]
            }),
            forall|a: Seq<char>|
                old(self).tokens_per_owner@.contains_key(a) && a != account_id@ ==> final(self).tokens_per_owner@[a] == (#[trigger] old(self).tokens_per_owner@[a]),
    {
        let ghost u = account_id@;
        let mut list = match self.tokens_per_owner.remove(account_id) {
            Some(l) => l,
            None => Vec::new(),
        };
        list.push(token_id.clone());
        self.tokens_per_owner.insert(account_id.clone(), list);
        proof {
            assert(self.tokens_per_owner@.dom() =~= old(self).tokens_per_owner@.dom().insert(u));
        }
    }

    /// Mints the next token to the receiver.  Minting must be active and
    /// below the cap; under allow-list mode the receiver must be listed
    /// and, unless privileged, hold no token yet.  The uploaded metadata
    /// must exist, its image must be unused, and the attached deposit must
    /// cover the mint cost, which is forwarded to the collection owner.
    pub fn nft_mint(
        &mut self,
        receiver_id: String,
        attached_deposit: u128,
        _perpetual_royalties: Option<Vec<(String, u32)>>,
    ) -> (r: Result<Transfer, MintError>)
        requires
            old(self).wf(),
            // the host aborts on metadata without an image
            old(self).tokens_to_mint@.contains_key(dec_str(old(self).current_nfts + 1)) ==> old(
                self,
            ).tokens_to_mint@[dec_str(old(self).current_nfts + 1)].media is Some,
        ensures
            final(self).wf(),
            ({
                let token_id = dec_str(old(self).current_nfts + 1);
                let privileged = receiver_id@ == "gaius1337.near"@ || receiver_id@
                    == "obedear.near"@ || receiver_id@ == "dleer.near"@;
                match r {
                    Err(e) => {
                        &&& *final(self) == *old(self)
                        &&& if old(self).activate != 0 {
                            e == MintError::NotActivated
                        } else if old(self).current_nfts >= old(self).max_nfts {
                            e == MintError::AllMinted
                        } else if old(self).whitelist == 1 && !list_contains(
                            old(self).whitelist_list@,
                            receiver_id@,
                        ) {
                            e == MintError::NotWhitelisted
                        } else if old(self).whitelist == 1 && !privileged && old(self).tokens_of(
                            receiver_id@,
                        ).len() >= 1 {
                            e == MintError::WhitelistLimit
                        } else if !old(self).tokens_to_mint@.contains_key(token_id) {
                            e == MintError::NoMetadata
                        } else if old(self).tokens_by_id@.contains_key(token_id) {
                            e == MintError::TokenAlreadyExists
                        } else if old(self).tokens_by_img_url@.contains_key(
                            old(self).tokens_to_mint@[token_id].media->Some_0@,
                        ) {
                            e == MintError::ImgUrlUsed
                        } else {
                            e == MintError::InsufficientDeposit && attached_deposit < REQUIRED_COST
                        }
                    },
                    Ok(t) => ({
                        let metadata = old(self).tokens_to_mint@[token_id];
                        let img = metadata.media->Some_0@;
                        &&& old(self).activate == 0
                        &&& old(self).current_nfts < old(self).max_nfts
                        &&& old(self).tokens_to_mint@.contains_key(token_id)
                        &&& !old(self).tokens_by_id@.contains_key(token_id)
                        &&& !old(self).tokens_by_img_url@.contains_key(img)
                        &&& attached_deposit >= REQUIRED_COST
                        &&& t.receiver@ == "classykangaroos1.near"@
                        &&& t.amount == REQUIRED_COST
                        &&& final(self).activate == old(self).activate
                        &&& final(self).whitelist == old(self).whitelist
                        &&& final(self).max_nfts == old(self).max_nfts
                        &&& final(self).whitelist_list == old(self).whitelist_list
                        &&& final(self).tokens_to_mint == old(self).tokens_to_mint
                        &&& final(self).current_nfts == old(self).current_nfts + 1
                        &&& final(self).tokens_by_id@.dom() == old(
                            self,
                        ).tokens_by_id@.dom().insert(token_id)
                        &&& final(self).tokens_by_id@[token_id].owner_id@ == receiver_id@
                        &&& royalty_view(final(self).tokens_by_id@[token_id]) == seq![
                            ("classykangaroos1.near"@, 5u32),
                        ]
                        &&& final(self).tokens_by_img_url@.dom() == old(
                            self,
                        ).tokens_by_img_url@.dom().insert(img)
                        &&& final(self).tokens_by_img_url@[img].owner_id@ == receiver_id@
                        &&& final(self).token_metadata_by_id@ == old(
                            self,
                        ).token_metadata_by_id@.insert(token_id, metadata)
                        &&& final(self).tokens_of(receiver_id@).len() == old(self).tokens_of(
                            receiver_id@,
                        ).len() + 1
                        &&& final(self).tokens_of(receiver_id@)[final(self).tokens_of(
                            receiver_id@,
                        ).len() - 1]@ == token_id
                        &&& forall|i: int|
                            0 <= i < old(self).tokens_of(receiver_id@).len() ==> final(self).tokens_of(receiver_id@)[i] == old(self).tokens_of(receiver_id@)[i]
                        &&& forall|id: Seq<char>|
                            old(self).tokens_by_id@.contains_key(id) && id != token_id ==> final(self).tokens_by_id@[id] == (#[trigger] old(self).tokens_by_id@[id])
                        &&& forall|u: Seq<char>|
                            old(self).tokens_by_img_url@.contains_key(u) && u != img ==> final(self).tokens_by_img_url@[u] == (#[trigger] old(self).tokens_by_img_url@[u])
                        &&& final(self).tokens_per_owner@.dom() == old(
                            self,
                        ).tokens_per_owner@.dom().insert(receiver_id@)
                        &&& forall|a: Seq<char>|
                            old(self).tokens_per_owner@.contains_key(a) && a != receiver_id@ ==> final(self).tokens_per_owner@[a] == (#[trigger] old(self).tokens_per_owner@[a])
                    }),
                }
            }),
    {
        if self.activate != 0 {
            return Err(MintError::NotActivated);
        }
        if self.current_nfts >= self.max_nfts {
            return Err(MintError::AllMinted);
        }
        if self.whitelist == 1 {
            let mut listed = false;
            let n = self.whitelist_list.len();
            for i in 0..n
                invariant
                    n == self.whitelist_list@.len(),
                    listed == (exists|j: int|
                        0 <= j < i && self.whitelist_list@[j]@ == receiver_id@),
            {
                if self.whitelist_list[i] == receiver_id {
                    listed = true;
                }
            }
            if !listed {
                return Err(MintError::NotWhitelisted);
            }
            let privileged = str_eq(receiver_id.as_str(), "gaius1337.near") || str_eq(
                receiver_id.as_str(),
                "obedear.near",
            ) || str_eq(receiver_id.as_str(), "dleer.near");
            if !privileged {
                let from: Option<u128> = Some(0);
                let limit: Option<u64> = Some(5);
                let tokens = self.nft_tokens_for_owner_internal(&receiver_id, from, limit);
                if tokens.len() >= 1 {
                    return Err(MintError::WhitelistLimit);
                }
            }
        }
        let token_id = u128_to_dec(self.current_nfts + 1);
        let (img, metadata_copy) = match self.tokens_to_mint.get(&token_id) {
            None => {
                return Err(MintError::NoMetadata);
            },
            Some(metadata) => {
                let img = match &metadata.media {
                    Some(m) => m.clone(),
                    None => {
                        proof {
                            assert(false);
                        }
                        return Err(MintError::NoMetadata);
                    },
                };
                (img, metadata.duplicate())
            },
        };
        if self.tokens_by_id.contains_key(&token_id) {
            return Err(MintError::TokenAlreadyExists);
        }
        if self.tokens_by_img_url.contains_key(&img) {
            return Err(MintError::ImgUrlUsed);
        }
        if attached_deposit < REQUIRED_COST {
            return Err(MintError::InsufficientDeposit);
        }
        let mut royalty: Vec<(String, u32)> = Vec::new();
        royalty.push(("classykangaroos1.near".to_owned(), 5));
        let token = Token { owner_id: receiver_id.clone(), royalty };
        let mut royalty2: Vec<(String, u32)> = Vec::new();
        royalty2.push(("classykangaroos1.near".to_owned(), 5));
        let token2 = Token { owner_id: receiver_id.clone(), royalty: royalty2 };
        self.tokens_by_id.insert(token_id.clone(), token);
        self.tokens_by_img_url.insert(img, token2);
        self.token_metadata_by_id.insert(token_id.clone(), metadata_copy);
        self.internal_add_token_to_owner(&receiver_id, &token_id);
        self.current_nfts = self.current_nfts + 1;
        proof {
            assert(royalty_view(self.tokens_by_id@[dec_str(old(self).current_nfts + 1)]) =~= seq![
                ("classykangaroos1.near"@, 5u32),
            ]);
        }
        Ok(Transfer { receiver: "classykangaroos1.near".to_owned(), amount: REQUIRED_COST })
    }

    /// Turns the allow-list mode off; collection owner only.
    pub fn whitelist_off(&mut self, signer: String, _owner_id: String) -> (r: Result<
        (),
        MintError,
    >)
        requires
            old(self).wf(),
        ensures
            final(self).wf(),
            match r {
                Err(e) => e == MintError::NotOwner && signer@ != "classykangaroos1.near"@ && *final(self) == *old(self),
                Ok(()) => signer@ == "classykangaroos1.near"@ && *final(self) == (Contract {
                    whitelist: 0,
                    ..*old(self)
                }),
            },
    {
        if !str_eq(signer.as_str(), "classykangaroos1.near") {
            return Err(MintError::NotOwner);
        }
        self.whitelist = 0;
        Ok(())
    }

    /// Activates minting; collection owner only.
    pub fn activate_minting(&mut self, signer: String, _owner_id: String) -> (r: Result<
        (),
        MintError,
    >)
        requires
            old(self).wf(),
        ensures
            final(self).wf(),
            match r {
                Err(e) => e == MintError::NotOwner && signer@ != "classykangaroos1.near"@ && *final(self) == *old(self),
                Ok(()) => signer@ == "classykangaroos1.near"@ && *final(self) == (Contract {
                    activate: 0,
                    ..*old(self)
                }),
            },
    {
        if !str_eq(signer.as_str(), "classykangaroos1.near") {
            return Err(MintError::NotOwner);
        }
        self.activate = 0;
        Ok(())
    }

    /// Uploads the metadata of a token id not yet minted; collection
    /// owner only.
    pub fn metadata_upload(&mut self, signer: String, token_id: String, metadata: TokenMetadata)
        -> (r: Result<(), MintError>)
        requires
            old(self).wf(),
        ensures
            final(self).wf(),
            match r {
                Err(e) => e == MintError::NotOwner && signer@ != "classykangaroos1.near"@ && *final(self) == *old(self),
                Ok(()) => {
                    &&& signer@ == "classykangaroos1.near"@
                    &&& *final(self) == (Contract {
                        tokens_to_mint: final(self).tokens_to_mint,
                        ..*old(self)
                    })
                    &&& final(self).tokens_to_mint@ == old(self).tokens_to_mint@.insert(
                        token_id@,
                        metadata,
                    )
                },
            },
    {
        if !str_eq(signer.as_str(), "classykangaroos1.near") {
            return Err(MintError::NotOwner);
        }
        self.tokens_to_mint.insert(token_id, metadata);
        Ok(())
    }

    /// Rewrites a minted token's royalty to the hardcoded recipient;
    /// collection owner only.
    pub fn royalty_update(&mut self, signer: String, token_id: String) -> (r: Result<
        (),
        MintError,
    >)
        requires
            old(self).wf(),
        ensures
            final(self).wf(),
            match r {
                Err(e) => {
                    &&& *final(self) == *old(self)
                    &&& if signer@ != "classykangaroos1.near"@ {
                        e == MintError::NotOwner
                    } else {
                        e == MintError::UnknownToken && !old(self).tokens_by_id@.contains_key(
                            token_id@,
                        )
                    }
                },
                Ok(()) => {
                    &&& signer@ == "classykangaroos1.near"@
                    &&& old(self).tokens_by_id@.contains_key(token_id@)
                    &&& *final(self) == (Contract {
                        tokens_by_id: final(self).tokens_by_id,
                        ..*old(self)
                    })
                    &&& final(self).tokens_by_id@.dom() == old(self).tokens_by_id@.dom()
                    &&& final(self).tokens_by_id@[token_id@].owner_id == old(
                        self,
                    ).tokens_by_id@[token_id@].owner_id
                    &&& royalty_view(final(self).tokens_by_id@[token_id@]) == seq![
                        ("classykangarooroyalty.near"@, 500u32),
                    ]
                    &&& forall|t: Seq<char>|
                        old(self).tokens_by_id@.contains_key(t) && t != token_id@ ==> final(self).tokens_by_id@[t] == (#[trigger] old(self).tokens_by_id@[t])
                },
            },
    {
        if !str_eq(signer.as_str(), "classykangaroos1.near") {
            return Err(MintError::NotOwner);
        }
        let ghost tid = token_id@;
        if !self.tokens_by_id.contains_key(&token_id) {
            return Err(MintError::UnknownToken);
        }
        let mut token = self.tokens_by_id.remove(&token_id).unwrap();
        let mut royalty: Vec<(String, u32)> = Vec::new();
        royalty.push(("classykangarooroyalty.near".to_owned(), 500));
        token.royalty = royalty;
        self.tokens_by_id.insert(token_id, token);
        proof {
            assert(self.tokens_by_id@.dom() =~= old(self).tokens_by_id@.dom());
            assert(royalty_view(self.tokens_by_id@[tid]) =~= seq![
                ("classykangarooroyalty.near"@, 500u32),
            ]);
        }
        Ok(())
    }

    /// Adds an account to the allow list; collection owner only.
    pub fn whitelist_upload(&mut self, signer: String, account_id: String) -> (r: Result<
        (),
        MintError,
    >)
        requires
            old(self).wf(),
        ensures
            final(self).wf(),
            match r {
                Err(e) => e == MintError::NotOwner && signer@ != "classykangaroos1.near"@ && *final(self) == *old(self),
                Ok(()) => {
                    &&& signer@ == "classykangaroos1.near"@
                    &&& *final(self) == (Contract {
                        whitelist_list: final(self).whitelist_list,
                        ..*old(self)
                    })
                    &&& final(self).whitelist_list@ == old(self).whitelist_list@.push(account_id)
                },
            },
    {
        if !str_eq(signer.as_str(), "classykangaroos1.near") {
            return Err(MintError::NotOwner);
        }
        self.whitelist_list.push(account_id);
        Ok(())
    }
}

} // verus!
