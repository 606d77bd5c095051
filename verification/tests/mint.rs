use coin_flip::assoc::AssocMap;
use coin_flip::mint::Contract;
use coin_flip::mint::MintError;
use coin_flip::mint::TokenMetadata;
use coin_flip::mint::REQUIRED_COST;

const COLLECTION_OWNER: &str = "classykangaroos1.near";

fn sample_minter(max_nfts: u128) -> Contract {
    Contract {
        activate: 0,
        whitelist: 0,
        current_nfts: 0,
        max_nfts,
        whitelist_list: Vec::new(),
        tokens_to_mint: AssocMap::new(),
        tokens_by_id: AssocMap::new(),
        tokens_by_img_url: AssocMap::new(),
        token_metadata_by_id: AssocMap::new(),
        tokens_per_owner: AssocMap::new(),
    }
}

fn upload(contract: &mut Contract, token_id: &str, media: &str) {
    contract
        .metadata_upload(
            COLLECTION_OWNER.to_string(),
            token_id.to_string(),
            TokenMetadata { media: Some(media.to_string()) },
        )
        .unwrap();
}

#[test]
fn mint_assigns_sequential_ids_and_forwards_the_cost() {
    let mut contract = sample_minter(2);
    upload(&mut contract, "1", "img-one");
    upload(&mut contract, "2", "img-two");

    let t = contract
        .nft_mint("alice.near".to_string(), REQUIRED_COST, None)
        .unwrap();
    assert_eq!(t.receiver, COLLECTION_OWNER.to_string());
    assert_eq!(t.amount, REQUIRED_COST);
    assert_eq!(contract.current_nfts, 1);
    let token = contract.tokens_by_id.get(&"1".to_string()).unwrap();
    assert_eq!(token.owner_id, "alice.near".to_string());
    assert_eq!(token.royalty.len(), 1);
    assert_eq!(token.royalty[0].0, COLLECTION_OWNER.to_string());
    assert_eq!(token.royalty[0].1, 5);

    contract
        .nft_mint("bob.near".to_string(), REQUIRED_COST, None)
        .unwrap();
    assert_eq!(contract.current_nfts, 2);

    // the cap is reached
    let r = contract.nft_mint("carol.near".to_string(), REQUIRED_COST, None);
    assert_eq!(r.unwrap_err(), MintError::AllMinted);
}

#[test]
fn mint_requires_activation_metadata_and_payment() {
    let mut contract = sample_minter(10);
    contract.activate = 1;
    let r = contract.nft_mint("alice.near".to_string(), REQUIRED_COST, None);
    assert_eq!(r.unwrap_err(), MintError::NotActivated);

    contract.activate_minting(COLLECTION_OWNER.to_string(), COLLECTION_OWNER.to_string()).unwrap();
    let r2 = contract.nft_mint("alice.near".to_string(), REQUIRED_COST, None);
    assert_eq!(r2.unwrap_err(), MintError::NoMetadata);

    upload(&mut contract, "1", "img-one");
    let r3 = contract.nft_mint("alice.near".to_string(), REQUIRED_COST - 1, None);
    assert_eq!(r3.unwrap_err(), MintError::InsufficientDeposit);

    contract.nft_mint("alice.near".to_string(), REQUIRED_COST, None).unwrap();

    // the same image address cannot be used twice
    upload(&mut contract, "2", "img-one");
    let r4 = contract.nft_mint("bob.near".to_string(), REQUIRED_COST, None);
    assert_eq!(r4.unwrap_err(), MintError::ImgUrlUsed);
}

#[test]
fn mint_whitelist_limits_ordinary_accounts_to_one() {
    let mut contract = sample_minter(10);
    contract.whitelist = 1;
    upload(&mut contract, "1", "img-one");
    upload(&mut contract, "2", "img-two");
    upload(&mut contract, "3", "img-three");
    upload(&mut contract, "4", "img-four");

    let r = contract.nft_mint("alice.near".to_string(), REQUIRED_COST, None);
    assert_eq!(r.unwrap_err(), MintError::NotWhitelisted);

    contract
        .whitelist_upload(COLLECTION_OWNER.to_string(), "alice.near".to_string())
        .unwrap();
    contract.nft_mint("alice.near".to_string(), REQUIRED_COST, None).unwrap();
    let r2 = contract.nft_mint("alice.near".to_string(), REQUIRED_COST, None);
    assert_eq!(r2.unwrap_err(), MintError::WhitelistLimit);

    // privileged accounts are not limited
    contract
        .whitelist_upload(COLLECTION_OWNER.to_string(), "gaius1337.near".to_string())
        .unwrap();
    contract.nft_mint("gaius1337.near".to_string(), REQUIRED_COST, None).unwrap();
    contract.nft_mint("gaius1337.near".to_string(), REQUIRED_COST, None).unwrap();

    // switching the allow list off lifts the limit
    contract
        .whitelist_off(COLLECTION_OWNER.to_string(), COLLECTION_OWNER.to_string())
        .unwrap();
    contract.nft_mint("alice.near".to_string(), REQUIRED_COST, None).unwrap();
}

#[test]
fn mint_admin_entry_points_are_owner_gated() {
    let mut contract = sample_minter(10);
    let stranger = "stranger.near".to_string();
    assert_eq!(
        contract.whitelist_off(stranger.clone(), stranger.clone()).unwrap_err(),
        MintError::NotOwner
    );
    assert_eq!(
        contract.activate_minting(stranger.clone(), stranger.clone()).unwrap_err(),
        MintError::NotOwner
    );
    assert_eq!(
        contract
            .metadata_upload(stranger.clone(), "1".to_string(), TokenMetadata { media: None })
            .unwrap_err(),
        MintError::NotOwner
    );
    assert_eq!(
        contract.royalty_update(stranger.clone(), "1".to_string()).unwrap_err(),
        MintError::NotOwner
    );
    assert_eq!(
        contract.whitelist_upload(stranger.clone(), "x.near".to_string()).unwrap_err(),
        MintError::NotOwner
    );
}

#[test]
fn mint_royalty_update_rewrites_the_recipient() {
    let mut contract = sample_minter(10);
    upload(&mut contract, "1", "img-one");
    contract.nft_mint("alice.near".to_string(), REQUIRED_COST, None).unwrap();

    let r = contract.royalty_update(COLLECTION_OWNER.to_string(), "7".to_string());
    assert_eq!(r.unwrap_err(), MintError::UnknownToken);

    contract.royalty_update(COLLECTION_OWNER.to_string(), "1".to_string()).unwrap();
    let token = contract.tokens_by_id.get(&"1".to_string()).unwrap();
    assert_eq!(token.royalty.len(), 1);
    assert_eq!(token.royalty[0].0, "classykangarooroyalty.near".to_string());
    assert_eq!(token.royalty[0].1, 500);
}
