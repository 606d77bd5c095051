use coin_flip::assoc::AssocMap;
use coin_flip::casino::CasinoError;
use coin_flip::casino::SlotMachine;

const NFT_ACCOUNT: &str = "nft.testnet";
const SIGNER_ACCOUNT: &str = "signer.testnet";
const OWNER_ACCOUNT: &str = "owner.testnet";

fn sample_contract() -> SlotMachine {
    SlotMachine {
        owner_id: OWNER_ACCOUNT.to_string(),
        nft_account: NFT_ACCOUNT.to_string(),
        panic_button: false,
        bet_payment_adjustment: 100,
        nft_fee: 300,
        owner_fee: 100,
        house_fee: 100,
        nft_balance: 0,
        owner_balance: 0,
        house_balance: 0,
        max_bet: 100_000_000,
        min_bet: 100_000,
        min_balance_fraction: 100,
        max_odds: 200,
        min_odds: 20,
        game_count: 0,
        game_structs: AssocMap::new(),
        game_balances: AssocMap::new(),
    }
}

fn state_value(state: &Vec<(String, String)>, key: &str) -> String {
    for (k, v) in state.iter() {
        if k.as_str() == key {
            return v.clone();
        }
    }
    panic!("missing state key");
}

#[test]
fn lib_test_constructor() {
    let initialized_value = SlotMachine::new(
        OWNER_ACCOUNT.to_string(),
        NFT_ACCOUNT.to_string(),
        100,
        300,
        100,
        100,
        0,
        100_000_000,
        100_000,
        100,
        200,
        20,
    )
    .unwrap();

    let sample_contract = sample_contract();

    assert_eq!(initialized_value.owner_id, sample_contract.owner_id);
    assert_eq!(initialized_value.nft_account, sample_contract.nft_account);
    assert_eq!(initialized_value.panic_button, sample_contract.panic_button);
    assert_eq!(
        initialized_value.bet_payment_adjustment,
        sample_contract.bet_payment_adjustment
    );
    assert_eq!(initialized_value.nft_fee, sample_contract.nft_fee);
    assert_eq!(initialized_value.owner_fee, sample_contract.owner_fee);
    assert_eq!(initialized_value.house_fee, sample_contract.house_fee);
    assert_eq!(initialized_value.nft_balance, sample_contract.nft_balance);
    assert_eq!(initialized_value.owner_balance, sample_contract.owner_balance);
    assert_eq!(initialized_value.house_balance, sample_contract.house_balance);
    assert_eq!(initialized_value.max_bet, sample_contract.max_bet);
    assert_eq!(initialized_value.min_bet, sample_contract.min_bet);
    assert_eq!(
        initialized_value.min_balance_fraction,
        sample_contract.min_balance_fraction
    );
    assert_eq!(initialized_value.max_odds, sample_contract.max_odds);
    assert_eq!(initialized_value.min_odds, sample_contract.min_odds);
}

#[test]
fn test_panic_button() {
    let mut contract = sample_contract();
    assert!(!contract.panic_button, "panic button is being initialized as true");

    contract.emergency_panic(OWNER_ACCOUNT.to_string(), 1).unwrap();
    assert!(contract.panic_button, "panic button didn't change to true");

    contract.emergency_panic(OWNER_ACCOUNT.to_string(), 1).unwrap();
    assert!(!contract.panic_button, "panic button didn't change back to false");
}

#[test]
fn test_panic_button_only_owner() {
    let mut contract = sample_contract();
    let r = contract.emergency_panic(SIGNER_ACCOUNT.to_string(), 1);
    assert_eq!(r, Err(CasinoError::OnlyOwner));
}

#[test]
fn test_panic_button_one_yocto() {
    let mut contract = sample_contract();
    let r = contract.emergency_panic(OWNER_ACCOUNT.to_string(), 10);
    assert_eq!(r, Err(CasinoError::OneYocto));
}

#[test]
fn test_get_contract_state() {
    let contract = sample_contract();
    let view_call = contract.get_contract_state();

    assert_eq!(contract.owner_id.to_string(), state_value(&view_call, "owner_id"));
    assert_eq!(contract.nft_account.to_string(), state_value(&view_call, "nft_account"));
    assert_eq!(contract.panic_button.to_string(), state_value(&view_call, "panic_button"));
    assert_eq!(
        contract.bet_payment_adjustment.to_string(),
        state_value(&view_call, "bet_payment_adjustment")
    );
    assert_eq!(contract.nft_fee.to_string(), state_value(&view_call, "nft_fee"));
    assert_eq!(contract.owner_fee.to_string(), state_value(&view_call, "owner_fee"));
    assert_eq!(contract.house_fee.to_string(), state_value(&view_call, "house_fee"));
    assert_eq!(contract.nft_balance.to_string(), state_value(&view_call, "nft_balance"));
    assert_eq!(contract.owner_balance.to_string(), state_value(&view_call, "owner_balance"));
    assert_eq!(contract.house_balance.to_string(), state_value(&view_call, "house_balance"));
    assert_eq!(contract.max_bet.to_string(), state_value(&view_call, "max_bet"));
    assert_eq!(contract.min_bet.to_string(), state_value(&view_call, "min_bet"));
    assert_eq!(
        contract.min_balance_fraction.to_string(),
        state_value(&view_call, "min_balance_fraction")
    );
    assert_eq!(contract.max_odds.to_string(), state_value(&view_call, "max_odds"));
    assert_eq!(contract.min_odds.to_string(), state_value(&view_call, "min_odds"));
}

#[test]
fn test_update_contract() {
    let mut contract = sample_contract();
    let new_bet_payment_adjustment: u128 = 42069;
    let new_nft_fee: u128 = 42070;
    let new_owner_fee: u128 = 42071;
    let new_house_fee: u128 = 42072;
    let new_max_bet: u128 = 42073;
    let new_min_bet: u128 = 42074;
    let new_min_balance_fraction: u128 = 42075;
    let new_max_odds: u128 = 10;
    let new_min_odds: u128 = 10;

    assert_ne!(contract.bet_payment_adjustment, new_bet_payment_adjustment);
    assert_ne!(contract.nft_fee, new_nft_fee);
    assert_ne!(contract.owner_fee, new_owner_fee);
    assert_ne!(contract.house_fee, new_house_fee);
    assert_ne!(contract.max_bet, new_max_bet);
    assert_ne!(contract.min_bet, new_min_bet);
    assert_ne!(contract.min_balance_fraction, new_min_balance_fraction);
    assert_ne!(contract.max_odds as u128, new_max_odds);
    assert_ne!(contract.min_odds as u128, new_min_odds);

    contract
        .update_contract(
            OWNER_ACCOUNT.to_string(),
            1,
            new_bet_payment_adjustment,
            new_nft_fee,
            new_owner_fee,
            new_house_fee,
            new_max_bet,
            new_min_bet,
            new_min_balance_fraction,
            new_max_odds,
            new_min_odds,
        )
        .unwrap();

    assert_eq!(contract.bet_payment_adjustment, new_bet_payment_adjustment);
    assert_eq!(contract.nft_fee, new_nft_fee);
    assert_eq!(contract.owner_fee, new_owner_fee);
    assert_eq!(contract.house_fee, new_house_fee);
    assert_eq!(contract.max_bet, new_max_bet);
    assert_eq!(contract.min_bet, new_min_bet);
    assert_eq!(contract.min_balance_fraction, new_min_balance_fraction);
    assert_eq!(contract.max_odds as u128, new_max_odds);
    assert_eq!(contract.min_odds as u128, new_min_odds);
}

#[test]
fn test_update_contract_only_owner() {
    let mut contract = sample_contract();
    let r = contract.update_contract(SIGNER_ACCOUNT.to_string(), 1, 1, 1, 1, 1, 1, 1, 1, 1, 1);
    assert_eq!(r, Err(CasinoError::OnlyOwner));
}

#[test]
fn test_update_contract_one_yocto() {
    let mut contract = sample_contract();
    let r = contract.update_contract(OWNER_ACCOUNT.to_string(), 10, 1, 1, 1, 1, 1, 1, 1, 1, 1);
    assert_eq!(r, Err(CasinoError::OneYocto));
}

#[test]
fn test_retrieve_owner_funds() {
    let mut contract = sample_contract();
    contract.owner_balance = 21;
    let t = contract.retrieve_owner_funds(OWNER_ACCOUNT.to_string(), 1, 20).unwrap();
    assert_eq!(t.amount, 20);
    assert_eq!(t.receiver, OWNER_ACCOUNT.to_string());
    assert_eq!(contract.owner_balance, 1);
}

#[test]
fn test_retrieve_owner_funds_only_owner() {
    let mut contract = sample_contract();
    let r = contract.retrieve_owner_funds(SIGNER_ACCOUNT.to_string(), 1, 1);
    assert_eq!(r.unwrap_err(), CasinoError::OnlyOwner);
}

#[test]
fn test_retrieve_owner_funds_one_yocto() {
    let mut contract = sample_contract();
    let r = contract.retrieve_owner_funds(OWNER_ACCOUNT.to_string(), 10, 1);
    assert_eq!(r.unwrap_err(), CasinoError::OneYocto);
}

#[test]
fn test_retrieve_owner_funds_min_balance() {
    let mut contract = sample_contract();
    contract.owner_balance = 15;
    let r = contract.retrieve_owner_funds(OWNER_ACCOUNT.to_string(), 1, 20);
    assert_eq!(r.unwrap_err(), CasinoError::InsufficientBalance);
}

#[test]
fn test_retrieve_nft_funds() {
    let mut contract = sample_contract();
    contract.nft_balance = 21;
    let t = contract.retrieve_nft_funds(OWNER_ACCOUNT.to_string(), 1, 20).unwrap();
    assert_eq!(t.amount, 20);
    assert_eq!(t.receiver, NFT_ACCOUNT.to_string());
    assert_eq!(contract.nft_balance, 1);
}

#[test]
fn test_retrieve_nft_funds_only_owner() {
    let mut contract = sample_contract();
    let r = contract.retrieve_nft_funds(SIGNER_ACCOUNT.to_string(), 1, 1);
    assert_eq!(r.unwrap_err(), CasinoError::OnlyOwner);
}

#[test]
fn test_retrieve_nft_funds_one_yocto() {
    let mut contract = sample_contract();
    let r = contract.retrieve_nft_funds(OWNER_ACCOUNT.to_string(), 10, 1);
    assert_eq!(r.unwrap_err(), CasinoError::OneYocto);
}

#[test]
fn test_retrieve_nft_funds_min_balance() {
    let mut contract = sample_contract();
    contract.nft_balance = 15;
    let r = contract.retrieve_nft_funds(OWNER_ACCOUNT.to_string(), 1, 20);
    assert_eq!(r.unwrap_err(), CasinoError::InsufficientBalance);
}

#[test]
fn test_retrieve_house_funds() {
    let mut contract = sample_contract();
    contract.house_balance = 21;
    let t = contract.retrieve_house_funds(OWNER_ACCOUNT.to_string(), 1, 20).unwrap();
    assert_eq!(t.amount, 20);
    assert_eq!(t.receiver, OWNER_ACCOUNT.to_string());
    assert_eq!(contract.house_balance, 1);
}

#[test]
fn test_retrieve_house_funds_only_owner() {
    let mut contract = sample_contract();
    let r = contract.retrieve_house_funds(SIGNER_ACCOUNT.to_string(), 1, 1);
    assert_eq!(r.unwrap_err(), CasinoError::OnlyOwner);
}

#[test]
fn test_retrieve_house_funds_one_yocto() {
    let mut contract = sample_contract();
    let r = contract.retrieve_house_funds(OWNER_ACCOUNT.to_string(), 10, 1);
    assert_eq!(r.unwrap_err(), CasinoError::OneYocto);
}

#[test]
fn test_retrieve_house_funds_min_balance() {
    let mut contract = sample_contract();
    contract.house_balance = 15;
    let r = contract.retrieve_house_funds(OWNER_ACCOUNT.to_string(), 1, 20);
    assert_eq!(r.unwrap_err(), CasinoError::InsufficientBalance);
}

#[test]
fn test_create_new_partner() {
    let partner_account: String = "partner.testnet".to_string();
    let partner_contract: String = "partner_account.testnet".to_string();
    let partner_fee: u128 = 100;
    let mut contract = sample_contract();
    contract
        .create_new_partner(
            OWNER_ACCOUNT.to_string(),
            1,
            partner_account.clone(),
            partner_contract.clone(),
            partner_fee,
        )
        .unwrap();

    let game_struct = contract.game_structs.get(&partner_contract).unwrap();
    assert_eq!(game_struct.partner_owner, partner_account.clone());
    assert_eq!(game_struct.blocked, false);
    assert_eq!(game_struct.partner_fee, partner_fee);
    assert_eq!(game_struct.partner_balance, 0);
}

#[test]
fn test_create_new_partner_only_owner() {
    let mut contract = sample_contract();
    let r = contract.create_new_partner(
        SIGNER_ACCOUNT.to_string(),
        1,
        "partner.testnet".to_string(),
        "partner_account.testnet".to_string(),
        100,
    );
    assert_eq!(r.unwrap_err(), CasinoError::OnlyOwner);
}

#[test]
fn test_create_new_partner_one_yocto() {
    let mut contract = sample_contract();
    let r = contract.create_new_partner(
        OWNER_ACCOUNT.to_string(),
        10,
        "partner.testnet".to_string(),
        "partner_account.testnet".to_string(),
        100,
    );
    assert_eq!(r.unwrap_err(), CasinoError::OneYocto);
}

#[test]
fn test_create_new_partner_already_created() {
    let mut contract = sample_contract();
    contract
        .create_new_partner(
            OWNER_ACCOUNT.to_string(),
            1,
            "partner.testnet".to_string(),
            "partner_account.testnet".to_string(),
            100,
        )
        .unwrap();
    let r = contract.create_new_partner(
        OWNER_ACCOUNT.to_string(),
        1,
        "partner.testnet".to_string(),
        "partner_account.testnet".to_string(),
        100,
    );
    assert_eq!(r.unwrap_err(), CasinoError::GameAlreadyExists);
}

#[test]
fn test_alter_partner() {
    let partner_account: String = "partner.testnet".to_string();
    let partner_contract: String = "partner_account.testnet".to_string();
    let partner_fee: u128 = 100;
    let mut contract = sample_contract();
    contract
        .create_new_partner(
            OWNER_ACCOUNT.to_string(),
            1,
            partner_account.clone(),
            partner_contract.clone(),
            partner_fee,
        )
        .unwrap();

    let old_blocked = contract.game_structs.get(&partner_contract).unwrap().blocked;
    let old_balance = contract.game_structs.get(&partner_contract).unwrap().partner_balance;
    let new_owner = "new_owner.testnet".to_string();
    let new_fee: u128 = 50;
    let new_blocked = !old_blocked;

    contract
        .alter_partner(
            OWNER_ACCOUNT.to_string(),
            1,
            new_owner.clone(),
            partner_contract.clone(),
            new_fee,
            new_blocked,
        )
        .unwrap();
    let game_struct2 = contract.game_structs.get(&partner_contract).unwrap();

    assert_eq!(game_struct2.partner_owner, new_owner);
    assert_eq!(game_struct2.blocked, new_blocked);
    assert_eq!(game_struct2.partner_fee, new_fee);
    assert_eq!(game_struct2.partner_balance, old_balance);
}

#[test]
fn test_alter_partner_only_owner() {
    let mut contract = sample_contract();
    let r = contract.alter_partner(
        SIGNER_ACCOUNT.to_string(),
        1,
        "new_owner.testnet".to_string(),
        "partner_account.testnet".to_string(),
        50,
        true,
    );
    assert_eq!(r.unwrap_err(), CasinoError::OnlyOwner);
}

#[test]
fn test_alter_partner_one_yocto() {
    let mut contract = sample_contract();
    let r = contract.alter_partner(
        OWNER_ACCOUNT.to_string(),
        10,
        "new_owner.testnet".to_string(),
        "partner_account.testnet".to_string(),
        50,
        true,
    );
    assert_eq!(r.unwrap_err(), CasinoError::OneYocto);
}

#[test]
fn test_alter_partner_not_yet_created() {
    let mut contract = sample_contract();
    let r = contract.alter_partner(
        OWNER_ACCOUNT.to_string(),
        1,
        "new_owner.testnet".to_string(),
        "partner_account.testnet".to_string(),
        50,
        true,
    );
    assert_eq!(r.unwrap_err(), CasinoError::UnknownGame);
}

#[test]
fn test_view_partner_data() {
    let mut contract = sample_contract();

    let partner_account: String = "partner.testnet".to_string();
    let partner_contract: String = "partner_account.testnet".to_string();
    let partner_fee: u128 = 100;

    contract
        .create_new_partner(
            OWNER_ACCOUNT.to_string(),
            1,
            partner_account.clone(),
            partner_contract.clone(),
            partner_fee,
        )
        .unwrap();

    {
        let game_struct = contract.game_structs.get(&partner_contract).unwrap();
        assert_eq!(game_struct.partner_owner, partner_account.clone());
        assert_eq!(game_struct.blocked, false);
        assert_eq!(game_struct.partner_fee, partner_fee);
        assert_eq!(game_struct.partner_balance, 0);
    }
    assert!(contract.game_balances.contains_key(&partner_contract));

    let view_call = contract.view_partner_data(partner_contract.clone()).unwrap();
    let game_struct = contract.game_structs.get(&partner_contract).unwrap();
    assert_eq!(game_struct.partner_owner.to_string(), state_value(&view_call, "partner_owner"));
    assert_eq!(game_struct.blocked.to_string(), state_value(&view_call, "blocked"));
    assert_eq!(game_struct.partner_fee.to_string(), state_value(&view_call, "partner_fee"));
    assert_eq!(
        game_struct.partner_balance.to_string(),
        state_value(&view_call, "partner_balance")
    );
}

#[test]
fn test_retrieve_partner_balance() {
    let partner_contract: String = "partner_account.testnet".to_string();
    let partner_fee: u128 = 100;
    let mut contract = sample_contract();
    contract
        .create_new_partner(
            OWNER_ACCOUNT.to_string(),
            1,
            OWNER_ACCOUNT.to_string(),
            partner_contract.clone(),
            partner_fee,
        )
        .unwrap();
    contract.retrieve_partner_balance(OWNER_ACCOUNT.to_string(), 1, partner_contract).unwrap();
}

#[test]
fn simulate_full_flow() {
    // deploys the casino, creates three partnered games, deposits for a
    // player in one game, and checks that the credit shows up there
    const NFT_FEE: u128 = 4_000;
    const DEV_FEE: u128 = 500;
    const HOUSE_FEE: u128 = 500;
    const FRACTIONAL_BASE: u128 = 100_000;
    const MIN_BALANCE_FRACTION: u128 = 100;
    let one_near: u128 = 1_000_000_000_000_000_000_000_000;

    let initial_house_balance: u128 = 100 * one_near;
    let max_bet: u128 = 5 * one_near;
    let min_bet: u128 = one_near / 20;
    let max_odds: u128 = 200;
    let min_odds: u128 = 50;
    let mut casino = SlotMachine::new(
        "owner_account".to_string(),
        "nft_account".to_string(),
        FRACTIONAL_BASE,
        DEV_FEE,
        NFT_FEE,
        HOUSE_FEE,
        initial_house_balance,
        max_bet,
        min_bet,
        MIN_BALANCE_FRACTION,
        max_odds,
        min_odds,
    )
    .unwrap();

    casino
        .create_new_partner(
            "owner_account".to_string(),
            1,
            "collection_owner1".to_string(),
            "collection1".to_string(),
            100,
        )
        .unwrap();
    casino
        .create_new_partner(
            "owner_account".to_string(),
            1,
            "collection_owner2".to_string(),
            "collection2".to_string(),
            100,
        )
        .unwrap();
    casino
        .create_new_partner(
            "owner_account".to_string(),
            1,
            "collection_owner3".to_string(),
            "collection3".to_string(),
            100,
        )
        .unwrap();

    let deposit_amount: u128 = 10 * one_near;
    casino
        .deposit_balance("consumer1".to_string(), deposit_amount, "collection1".to_string())
        .unwrap();

    let consumer_balance0 =
        casino.get_credits("collection1".to_string(), "consumer1".to_string());
    assert_eq!(consumer_balance0.to_string(), deposit_amount.to_string());
}

#[test]
fn test_retrieve_partner_balance_no_partner() {
    let partner_contract: String = "partner_account.testnet".to_string();
    let mut contract = sample_contract();
    let r = contract.retrieve_partner_balance(OWNER_ACCOUNT.to_string(), 1, partner_contract);
    assert_eq!(r.unwrap_err(), CasinoError::UnknownGame);
}

#[test]
fn test_retrieve_partner_balance_only_owner() {
    let partner_account: String = "partner.testnet".to_string();
    let partner_contract: String = "partner_account.testnet".to_string();
    let mut contract = sample_contract();
    contract
        .create_new_partner(
            OWNER_ACCOUNT.to_string(),
            1,
            partner_account.clone(),
            partner_contract.clone(),
            100,
        )
        .unwrap();
    let r = contract.retrieve_partner_balance(OWNER_ACCOUNT.to_string(), 1, partner_contract);
    assert_eq!(r.unwrap_err(), CasinoError::OnlyPartnerOwner);
}

#[test]
fn test_retrieve_partner_balance_one_yocto() {
    let partner_contract: String = "partner_account.testnet".to_string();
    let mut contract = sample_contract();
    contract
        .create_new_partner(
            OWNER_ACCOUNT.to_string(),
            1,
            OWNER_ACCOUNT.to_string(),
            partner_contract.clone(),
            100,
        )
        .unwrap();
    let r = contract.retrieve_partner_balance(OWNER_ACCOUNT.to_string(), 2, partner_contract);
    assert_eq!(r.unwrap_err(), CasinoError::OneYocto);
}
