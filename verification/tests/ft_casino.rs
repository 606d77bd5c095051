use coin_flip::ft_casino::Contract;
use coin_flip::ft_casino::FtCasinoError;
use coin_flip::ft_casino::MIN_STORAGE_BALANCE;

const NFT_ACCOUNT: &str = "nft.testnet";
const OWNER_ACCOUNT: &str = "owner.testnet";
const CONTRACT_ACCOUNT: &str = "contract.testnet";

fn sample_ft_casino() -> Contract {
    Contract::new(
        OWNER_ACCOUNT.to_string(),
        NFT_ACCOUNT.to_string(),
        100,
        300,
        100,
        100,
        100_000_000,
        100_000,
        100,
        200,
        20,
        CONTRACT_ACCOUNT.to_string(),
        MIN_STORAGE_BALANCE,
        0,
    )
    .unwrap()
}

fn with_ft_partner(contract: &mut Contract) {
    let partner_account: String = "partner.testnet".to_string();
    let partner_contract: String = "partner_account.testnet".to_string();
    contract
        .create_new_partner(
            OWNER_ACCOUNT.to_string(),
            1,
            partner_account,
            partner_contract.clone(),
            partner_contract,
            100,
            100_000,
            100,
            100_000_000,
            100_000,
            200,
            20,
            CONTRACT_ACCOUNT.to_string(),
            0,
            0,
        )
        .unwrap();
}

#[test]
fn player_test_deposit_balance() {
    const BASE_DEPOSIT: u128 = 10_000;
    let mut contract = sample_ft_casino();
    with_ft_partner(&mut contract);
    let partner_contract: String = "partner_account.testnet".to_string();

    contract
        .deposit_balance(OWNER_ACCOUNT.to_string(), BASE_DEPOSIT, partner_contract.clone())
        .unwrap();
    let game_balance = contract.get_credits(partner_contract, OWNER_ACCOUNT.to_string());
    assert_eq!(BASE_DEPOSIT, game_balance);
}

#[test]
fn player_test_deposit_balance_minimum_deposit() {
    const BASE_DEPOSIT: u128 = 10;
    let mut contract = sample_ft_casino();
    with_ft_partner(&mut contract);
    let r = contract.deposit_balance(
        OWNER_ACCOUNT.to_string(),
        BASE_DEPOSIT,
        "partner_account.testnet".to_string(),
    );
    assert_eq!(r.unwrap_err(), FtCasinoError::MinimumDeposit);
}

#[test]
fn player_test_deposit_balance_panic_mode() {
    const BASE_DEPOSIT: u128 = 10;
    let mut contract = sample_ft_casino();
    with_ft_partner(&mut contract);
    contract.emergency_panic(OWNER_ACCOUNT.to_string(), 1).unwrap();
    let r = contract.deposit_balance(
        OWNER_ACCOUNT.to_string(),
        BASE_DEPOSIT,
        "partner_account.testnet".to_string(),
    );
    assert_eq!(r.unwrap_err(), FtCasinoError::Paused);
}

#[test]
fn player_test_get_credits() {
    const BASE_DEPOSIT: u128 = 10_000;
    let mut contract = sample_ft_casino();
    with_ft_partner(&mut contract);
    let partner_contract: String = "partner_account.testnet".to_string();

    contract
        .deposit_balance(OWNER_ACCOUNT.to_string(), BASE_DEPOSIT, partner_contract.clone())
        .unwrap();
    let get_credits_balance =
        contract.get_credits(partner_contract.clone(), OWNER_ACCOUNT.to_string());
    let zero_get_credits = contract.get_credits(partner_contract.clone(), "420".to_string());

    assert_eq!(BASE_DEPOSIT, get_credits_balance);
    assert_eq!(0, zero_get_credits);
}

#[test]
fn player_test_retrieve_credits() {
    const BASE_DEPOSIT: u128 = 10_000;
    let mut contract = sample_ft_casino();
    with_ft_partner(&mut contract);
    let partner_contract: String = "partner_account.testnet".to_string();

    contract
        .deposit_balance(OWNER_ACCOUNT.to_string(), BASE_DEPOSIT, partner_contract.clone())
        .unwrap();
    assert_eq!(
        BASE_DEPOSIT,
        contract.get_credits(partner_contract.clone(), OWNER_ACCOUNT.to_string())
    );

    let t = contract
        .retrieve_credits(OWNER_ACCOUNT.to_string(), partner_contract.clone())
        .unwrap();
    assert_eq!(t.amount, BASE_DEPOSIT);
    assert_eq!(t.receiver, OWNER_ACCOUNT.to_string());
    assert_eq!(t.token, partner_contract.clone());

    assert_eq!(0, contract.get_credits(partner_contract, OWNER_ACCOUNT.to_string()));
}

#[test]
fn player_test_retrieve_credits_panic_mode() {
    let mut contract = sample_ft_casino();
    with_ft_partner(&mut contract);
    contract.emergency_panic(OWNER_ACCOUNT.to_string(), 1).unwrap();
    let r = contract
        .retrieve_credits(OWNER_ACCOUNT.to_string(), "partner_account.testnet".to_string());
    assert_eq!(r.unwrap_err(), FtCasinoError::Paused);
}

#[test]
fn player_test_retrieve_credits_non_existing_partner() {
    let mut contract = sample_ft_casino();
    let r = contract
        .retrieve_credits(OWNER_ACCOUNT.to_string(), "partner_account.testnet".to_string());
    assert_eq!(r.unwrap_err(), FtCasinoError::UnknownPartner);
}

#[test]
fn ft_play_win_uses_hashed_randomness() {
    let mut contract = sample_ft_casino();
    with_ft_partner(&mut contract);
    let partner_contract: String = "partner_account.testnet".to_string();
    let player = "player.testnet".to_string();
    contract.deposit_balance(player.clone(), 1_000_000, partner_contract.clone()).unwrap();
    // fund the game's house pool through the transfer message
    let msg = "{\"type\":\"FundGame\",\"game_code\":\"partner_account.testnet\"}";
    contract
        .ft_on_transfer(
            "funder.testnet".to_string(),
            partner_contract.clone(),
            10_000_000,
            msg.to_string(),
        )
        .unwrap();
    assert_eq!(contract.games.get(&partner_contract).unwrap().house_funds, 10_000_000);

    // the drawn hash sums to 3, far below odds 128: a win
    let hash: Vec<u8> = vec![1, 1, 1];
    let outcome = contract
        .play(player.clone(), partner_contract.clone(), 100_000, 128, hash)
        .unwrap();
    assert!(outcome);
    // cuts over the base of 100_000: nft 300, owner 100, house 100, partner 100
    let net: u128 = 100_000 - 300 - 100 - 100 - 100;
    let payout: u128 = ((net * 256) / 128) * 100 / 100_000;
    assert_eq!(payout, 198);
    assert_eq!(
        contract.get_credits(partner_contract.clone(), player.clone()),
        1_000_000 - 100_000 + payout
    );
    let game = contract.games.get(&partner_contract).unwrap();
    assert_eq!(game.house_funds, 10_000_000 + 100 - payout);
    assert_eq!(game.partner_balance, 100);
    assert_eq!(contract.game_count, 1);

    // a hash summing past the odds loses
    let hash2: Vec<u8> = vec![199, 1];
    let outcome2 = contract
        .play(player.clone(), partner_contract.clone(), 100_000, 128, hash2)
        .unwrap();
    assert!(!outcome2);
    assert_eq!(contract.game_count, 2);
}

#[test]
fn ft_deposit_message_credits_the_sender() {
    let mut contract = sample_ft_casino();
    with_ft_partner(&mut contract);
    let partner_contract: String = "partner_account.testnet".to_string();
    let sender = "sender.testnet".to_string();
    let give_back = contract
        .ft_on_transfer(
            sender.clone(),
            partner_contract.clone(),
            42_000,
            "{\"type\":\"DepositBalance\"}".to_string(),
        )
        .unwrap();
    assert_eq!(give_back, 0);
    assert_eq!(contract.get_credits(partner_contract.clone(), sender.clone()), 42_000);

    let r = contract.ft_on_transfer(
        sender,
        partner_contract,
        42_000,
        "{\"kind\":\"DepositBalance\"}".to_string(),
    );
    assert_eq!(r.unwrap_err(), FtCasinoError::BadMessage);
}

#[test]
fn ft_retrieve_owner_and_nft_funds_drain_one_token() {
    let mut contract = sample_ft_casino();
    assert_eq!(
        contract.retrieve_owner_funds(OWNER_ACCOUNT.to_string()).unwrap_err(),
        FtCasinoError::NoOwnerFunds
    );
    assert_eq!(
        contract.retrieve_nft_funds(OWNER_ACCOUNT.to_string()).unwrap_err(),
        FtCasinoError::NoNftFunds
    );

    contract.owner_balance.insert("token.testnet".to_string(), 77);
    // the fee pools are owner-only
    assert_eq!(
        contract.retrieve_owner_funds("stranger.testnet".to_string()).unwrap_err(),
        FtCasinoError::OnlyOwner
    );
    assert_eq!(
        contract.retrieve_nft_funds("stranger.testnet".to_string()).unwrap_err(),
        FtCasinoError::OnlyOwner
    );
    let t = contract.retrieve_owner_funds(OWNER_ACCOUNT.to_string()).unwrap();
    assert_eq!(t.token, "token.testnet".to_string());
    assert_eq!(t.receiver, OWNER_ACCOUNT.to_string());
    assert_eq!(t.amount, 77);
    assert_eq!(contract.owner_balance.get_or_zero(&"token.testnet".to_string()), 0);

    contract.nft_balance.insert("token.testnet".to_string(), 55);
    let t2 = contract.retrieve_nft_funds(OWNER_ACCOUNT.to_string()).unwrap();
    assert_eq!(t2.receiver, NFT_ACCOUNT.to_string());
    assert_eq!(t2.amount, 55);
}

#[test]
fn ft_user_transfer_callback_restores_on_failure() {
    let mut contract = sample_ft_casino();
    with_ft_partner(&mut contract);
    let partner_contract: String = "partner_account.testnet".to_string();
    let player = "player.testnet".to_string();
    contract.deposit_balance(player.clone(), 10_000, partner_contract.clone()).unwrap();
    let t = contract.retrieve_credits(player.clone(), partner_contract.clone()).unwrap();
    assert_eq!(contract.get_credits(partner_contract.clone(), player.clone()), 0);

    // the dispatched transfer failed: the credits come back
    contract
        .user_transfer_callback(false, t.token.clone(), t.amount, player.clone(), 0, 0)
        .unwrap();
    assert_eq!(contract.get_credits(partner_contract, player), 10_000);
}

#[test]
fn ft_alter_partner_and_views() {
    let mut contract = sample_ft_casino();
    with_ft_partner(&mut contract);
    let partner_contract: String = "partner_account.testnet".to_string();
    contract
        .alter_partner(
            OWNER_ACCOUNT.to_string(),
            1,
            partner_contract.clone(),
            "new_owner.testnet".to_string(),
            50,
            true,
        )
        .unwrap();
    let game = contract.view_partner_data(partner_contract.clone()).unwrap();
    assert_eq!(game.partner_owner, "new_owner.testnet".to_string());
    assert_eq!(game.partner_fee, 50);
    assert!(game.blocked);

    let r = contract.view_partner_data("nobody.testnet".to_string());
    assert_eq!(r.unwrap_err(), FtCasinoError::UnknownPartner);

    let r2 = contract.alter_partner(
        "stranger.testnet".to_string(),
        1,
        partner_contract,
        "x.testnet".to_string(),
        1,
        false,
    );
    assert_eq!(r2.unwrap_err(), FtCasinoError::OnlyOwner);
}

#[test]
fn ft_retrieve_partner_balance_is_partner_gated() {
    let mut contract = sample_ft_casino();
    with_ft_partner(&mut contract);
    let partner_contract: String = "partner_account.testnet".to_string();
    let r = contract.retrieve_partner_balance(OWNER_ACCOUNT.to_string(), partner_contract.clone());
    assert_eq!(r.unwrap_err(), FtCasinoError::OnlyPartnerOwner);
    let t = contract
        .retrieve_partner_balance("partner.testnet".to_string(), partner_contract.clone())
        .unwrap();
    assert_eq!(t.amount, 0);
    assert_eq!(t.receiver, "partner.testnet".to_string());
    assert_eq!(t.token, partner_contract);
}

#[test]
fn ft_get_contract_state_renders_json() {
    let contract = sample_ft_casino();
    let state = contract.get_contract_state();
    let expected = format!(
        "{{\"owner_id\":\"{}\",\"nft_account\":\"{}\",\"panic_button\":false,\
         \"bet_payment_adjustment\":100,\"nft_fee\":300,\"owner_fee\":100,\
         \"house_fee\":100,\"max_bet\":100000000,\"min_bet\":100000,\
         \"min_balance_fraction\":100,\"max_odds\":200,\"min_odds\":20,\
         \"game_count\":0}}",
        OWNER_ACCOUNT, NFT_ACCOUNT
    );
    assert_eq!(state, expected);
}

#[test]
fn ft_storage_lifecycle() {
    let mut contract = sample_ft_casino();
    let user = "user.testnet".to_string();
    let (balance, refund) = contract
        .storage_deposit(user.clone(), MIN_STORAGE_BALANCE + 9, None, Some(true), 0, 0)
        .unwrap();
    assert_eq!(refund, 9);
    assert_eq!(balance.total, MIN_STORAGE_BALANCE);
    assert_eq!(balance.available, MIN_STORAGE_BALANCE);

    let (balance2, t) = contract.storage_withdraw(user.clone(), 1, Some(1_000)).unwrap();
    assert_eq!(t.amount, 1_000);
    assert_eq!(t.receiver, user.clone());
    assert_eq!(balance2.total, MIN_STORAGE_BALANCE - 1_000);

    let r = contract.storage_deposit(user.clone(), 1, None, None, 0, 0);
    // a registered account may top up below the minimum
    assert!(r.is_ok());

    let (removed, transfer) = contract.storage_unregister(user.clone(), 1, None).unwrap();
    assert!(removed);
    assert_eq!(transfer.unwrap().amount, MIN_STORAGE_BALANCE - 1_000 + 1);
    assert!(contract.storage_balance_of(user.clone()).is_none());
    let (removed2, transfer2) = contract.storage_unregister(user, 1, None).unwrap();
    assert!(!removed2);
    assert!(transfer2.is_none());

    let r2 = contract.storage_deposit("poor.testnet".to_string(), 5, None, None, 0, 0);
    assert_eq!(r2.unwrap_err(), FtCasinoError::MinimumStorageDeposit);
}
