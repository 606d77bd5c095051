use coin_flip::casino::CasinoError;
use coin_flip::ft_casino::Contract as FtContract;
use coin_flip::ft_casino::FtCasinoError;
use coin_flip::ft_casino::MIN_STORAGE_BALANCE as FT_MIN_STORAGE;
use coin_flip::token_casino::SlotMachine as TokenCasino;
use coin_flip::token_casino::TokenCasinoError;
use coin_flip::token_casino::MIN_STORAGE_BALANCE;

const OWNER_ACCOUNT: &str = "owner.testnet";
const NFT_ACCOUNT: &str = "nft.testnet";
const CONTRACT_ACCOUNT: &str = "contract.testnet";

fn token_casino() -> TokenCasino {
    TokenCasino::new(
        OWNER_ACCOUNT.to_string(),
        NFT_ACCOUNT.to_string(),
        100_000,
        300,
        100,
        100,
        100_000_000,
        100_000,
        100,
        200,
        20,
    )
    .unwrap()
}

fn ft_casino() -> FtContract {
    FtContract::new(
        OWNER_ACCOUNT.to_string(),
        NFT_ACCOUNT.to_string(),
        100,
        300,
        100,
        100,
        100_000_000,
        100_000,
        100,
        200,
        20,
        CONTRACT_ACCOUNT.to_string(),
        FT_MIN_STORAGE,
        0,
    )
    .unwrap()
}

#[test]
fn constructors_reject_invalid_owner_accounts() {
    let r = coin_flip::casino::SlotMachine::new(
        "Invalid Owner".to_string(),
        NFT_ACCOUNT.to_string(),
        100,
        300,
        100,
        100,
        0,
        100_000_000,
        100_000,
        100,
        200,
        20,
    );
    assert!(matches!(r, Err(CasinoError::InvalidOwnerAccount)));

    let r2 = TokenCasino::new(
        "owner..testnet".to_string(),
        NFT_ACCOUNT.to_string(),
        100,
        300,
        100,
        100,
        100_000_000,
        100_000,
        100,
        200,
        20,
    );
    assert!(matches!(r2, Err(TokenCasinoError::InvalidOwnerAccount)));

    let r3 = FtContract::new(
        "-owner.testnet".to_string(),
        NFT_ACCOUNT.to_string(),
        100,
        300,
        100,
        100,
        100_000_000,
        100_000,
        100,
        200,
        20,
        CONTRACT_ACCOUNT.to_string(),
        FT_MIN_STORAGE,
        0,
    );
    assert!(matches!(r3, Err(FtCasinoError::InvalidOwnerAccount)));
}

#[test]
fn token_casino_owner_guards() {
    let mut contract = token_casino();
    assert_eq!(
        contract.emergency_panic("stranger.testnet".to_string(), 1).unwrap_err(),
        TokenCasinoError::OnlyOwner
    );
    assert_eq!(
        contract.emergency_panic(OWNER_ACCOUNT.to_string(), 2).unwrap_err(),
        TokenCasinoError::OneYocto
    );
    assert_eq!(
        contract
            .create_new_partner(
                "stranger.testnet".to_string(),
                1,
                "p.testnet".to_string(),
                "c.testnet".to_string(),
                "t.testnet".to_string(),
                100,
            )
            .unwrap_err(),
        TokenCasinoError::OnlyOwner
    );
    contract
        .create_new_partner(
            OWNER_ACCOUNT.to_string(),
            1,
            "p.testnet".to_string(),
            "c.testnet".to_string(),
            "t.testnet".to_string(),
            100,
        )
        .unwrap();
    assert_eq!(
        contract
            .create_new_partner(
                OWNER_ACCOUNT.to_string(),
                1,
                "p.testnet".to_string(),
                "c.testnet".to_string(),
                "t.testnet".to_string(),
                100,
            )
            .unwrap_err(),
        TokenCasinoError::GameAlreadyExists
    );
}

#[test]
fn token_casino_play_checks_run_in_order() {
    let mut contract = token_casino();
    contract
        .create_new_partner(
            OWNER_ACCOUNT.to_string(),
            1,
            "p.testnet".to_string(),
            "c.testnet".to_string(),
            "t.testnet".to_string(),
            100,
        )
        .unwrap();
    let player = "player.testnet".to_string();

    let r = contract.play(player.clone(), "ghost.testnet".to_string(), 100_000, 128, 5);
    assert_eq!(r.unwrap_err(), TokenCasinoError::UnknownGame);

    let r2 = contract.play(player.clone(), "c.testnet".to_string(), 100_000, 128, 5);
    assert_eq!(r2.unwrap_err(), TokenCasinoError::NoCredits);

    contract.deposit_balance(player.clone(), 1_000_000, "c.testnet".to_string()).unwrap();
    let r3 = contract.play(player.clone(), "c.testnet".to_string(), 99_999, 128, 5);
    assert_eq!(r3.unwrap_err(), TokenCasinoError::BetBelowMinimum);

    contract.deposit_balance(player.clone(), 200_000_002, "c.testnet".to_string()).unwrap();
    let r4 = contract.play(player.clone(), "c.testnet".to_string(), 100_000_001, 128, 5);
    assert_eq!(r4.unwrap_err(), TokenCasinoError::BetAboveMaximum);
}

#[test]
fn token_casino_storage_refusals() {
    let mut contract = token_casino();
    let user = "user.testnet".to_string();
    assert_eq!(
        contract.storage_deposit(user.clone(), 5, None, None).unwrap_err(),
        TokenCasinoError::MinimumStorageDeposit
    );
    assert_eq!(
        contract.storage_withdraw(user.clone(), 2, None).unwrap_err(),
        TokenCasinoError::OneYocto
    );
    assert_eq!(
        contract.storage_withdraw(user.clone(), 1, None).unwrap_err(),
        TokenCasinoError::AccountNotRegistered
    );
    contract.storage_deposit(user.clone(), MIN_STORAGE_BALANCE, None, None).unwrap();
    assert_eq!(
        contract
            .storage_withdraw(user.clone(), 1, Some(MIN_STORAGE_BALANCE + 1))
            .unwrap_err(),
        TokenCasinoError::NotEnoughBalance
    );
}

#[test]
fn ft_casino_guards_and_pool_checks() {
    let mut contract = ft_casino();
    assert_eq!(
        contract.emergency_panic(OWNER_ACCOUNT.to_string(), 2).unwrap_err(),
        FtCasinoError::OneYocto
    );
    assert_eq!(
        contract
            .update_contract("stranger.testnet".to_string(), 1, 1, 1)
            .unwrap_err(),
        FtCasinoError::OnlyOwner
    );
    contract
        .create_new_partner(
            OWNER_ACCOUNT.to_string(),
            1,
            "p.testnet".to_string(),
            "c.testnet".to_string(),
            "t.testnet".to_string(),
            100,
            100_000,
            100,
            100_000_000,
            100_000,
            200,
            20,
            CONTRACT_ACCOUNT.to_string(),
            0,
            0,
        )
        .unwrap();
    assert_eq!(
        contract
            .create_new_partner(
                OWNER_ACCOUNT.to_string(),
                1,
                "p.testnet".to_string(),
                "c.testnet".to_string(),
                "t.testnet".to_string(),
                100,
                100_000,
                100,
                100_000_000,
                100_000,
                200,
                20,
                CONTRACT_ACCOUNT.to_string(),
                0,
                0,
            )
            .unwrap_err(),
        FtCasinoError::PartnerAlreadyRegistered
    );
    assert_eq!(
        contract
            .fund_game_house("wrong_token.testnet".to_string(), 10, "c.testnet".to_string())
            .unwrap_err(),
        FtCasinoError::TokenMismatch
    );
    assert_eq!(
        contract
            .fund_game_house("t.testnet".to_string(), 10, "ghost.testnet".to_string())
            .unwrap_err(),
        FtCasinoError::UnknownPartner
    );

    // an empty house pool cannot cover the payout, so the play is refused
    let player = "player.testnet".to_string();
    contract.deposit_balance(player.clone(), 1_000_000, "c.testnet".to_string()).unwrap();
    let r = contract.play(player.clone(), "c.testnet".to_string(), 100_000, 128, vec![5]);
    assert_eq!(r.unwrap_err(), FtCasinoError::InsufficientHouseFunds);
    // and the bet was not taken
    assert_eq!(contract.get_credits("c.testnet".to_string(), player), 1_000_000);
}

#[test]
fn ft_casino_storage_refusals() {
    let mut contract = ft_casino();
    let user = "user.testnet".to_string();
    assert_eq!(
        contract.storage_withdraw(user.clone(), 1, None).unwrap_err(),
        FtCasinoError::AccountNotRegistered
    );
    assert_eq!(
        contract.storage_unregister(user.clone(), 2, None).unwrap_err(),
        FtCasinoError::OneYocto
    );
    contract
        .storage_deposit(user.clone(), FT_MIN_STORAGE, None, None, 0, 0)
        .unwrap();
    // withdrawing more than the available balance is refused
    assert_eq!(
        contract
            .storage_withdraw(user.clone(), 1, Some(FT_MIN_STORAGE + 1))
            .unwrap_err(),
        FtCasinoError::InsufficientStorage
    );
    // an account holding token balances cannot unregister
    contract
        .create_new_partner(
            OWNER_ACCOUNT.to_string(),
            1,
            "p.testnet".to_string(),
            "c.testnet".to_string(),
            "t.testnet".to_string(),
            100,
            100_000,
            100,
            100_000_000,
            100_000,
            200,
            20,
            CONTRACT_ACCOUNT.to_string(),
            0,
            0,
        )
        .unwrap();
    contract.deposit_balance(user.clone(), 10_000, "c.testnet".to_string()).unwrap();
    assert_eq!(
        contract.storage_unregister(user, 1, None).unwrap_err(),
        FtCasinoError::BalancesNotEmpty
    );
}

#[test]
fn ft_casino_callbacks_restore_pools_on_failure() {
    let mut contract = ft_casino();
    contract.owner_transfer_callback(true, "t.testnet".to_string(), 40);
    assert_eq!(contract.owner_balance.get_or_zero(&"t.testnet".to_string()), 0);
    contract.owner_transfer_callback(false, "t.testnet".to_string(), 40);
    assert_eq!(contract.owner_balance.get_or_zero(&"t.testnet".to_string()), 40);

    contract.nft_transfer_callback(false, "t.testnet".to_string(), 41);
    assert_eq!(contract.nft_balance.get_or_zero(&"t.testnet".to_string()), 41);

    contract
        .create_new_partner(
            OWNER_ACCOUNT.to_string(),
            1,
            "p.testnet".to_string(),
            "c.testnet".to_string(),
            "t.testnet".to_string(),
            100,
            100_000,
            100,
            100_000_000,
            100_000,
            200,
            20,
            CONTRACT_ACCOUNT.to_string(),
            0,
            0,
        )
        .unwrap();
    contract.project_transfer_callback(false, 42, "c.testnet".to_string());
    assert_eq!(contract.games.get(&"c.testnet".to_string()).unwrap().partner_balance, 42);
    contract.project_transfer_callback(true, 43, "c.testnet".to_string());
    assert_eq!(contract.games.get(&"c.testnet".to_string()).unwrap().partner_balance, 42);
}
