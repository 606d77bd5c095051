use coin_flip::assoc::AssocMap;
use coin_flip::slots::SlotMachine;
use coin_flip::slots::SlotsError;

const SIGNER_ACCOUNT: &str = "signer.testnet";
const OWNER_ACCOUNT: &str = "owner.testnet";
const NFT_ACCOUNT: &str = "nft.testnet";

fn sample_machine() -> SlotMachine {
    SlotMachine {
        owner_id: OWNER_ACCOUNT.to_string(),
        nft_id: NFT_ACCOUNT.to_string(),
        credits: AssocMap::new(),
        nft_fee: 400,
        dev_fee: 10,
        house_fee: 10,
        win_multiplier: 200000u128,
        nft_balance: 0,
        dev_balance: 0,
        house_balance: 0,
    }
}

#[test]
fn test_deposit_function() {
    const BASE_DEPOSIT: u128 = 10_000_000;
    let mut contract = sample_machine();
    let user_balance1: u128 = contract.get_credits("signer.testnet".to_string());
    println!("Value before deposit: {}", &user_balance1);
    contract.deposit(SIGNER_ACCOUNT.to_string(), BASE_DEPOSIT);
    let user_balance2: u128 = contract.get_credits("signer.testnet".to_string());
    println!("Value after deposit: {}", &user_balance2);
    assert_eq!(BASE_DEPOSIT, user_balance2);
}

#[test]
fn test_withdrawal_function() {
    const WITHDRAWAL_AMOUNT: u128 = 48_000;
    let mut contract = sample_machine();
    contract.credits.insert(SIGNER_ACCOUNT.to_string(), WITHDRAWAL_AMOUNT);
    let user_balance1: u128 = contract.get_credits("signer.testnet".to_string());
    println!("Value before withdrawal: {}", &user_balance1);
    contract.retrieve_credits(SIGNER_ACCOUNT.to_string());
    let user_balance2: u128 = contract.get_credits("signer.testnet".to_string());
    println!("Value after withdrawal: {}", &user_balance2);
    assert_eq!(WITHDRAWAL_AMOUNT, user_balance1);
    assert_eq!(0, user_balance2);
}

#[test]
fn test_get_credits_function() {
    let mut contract = sample_machine();
    const BALANCE_AMOUNT: u128 = 48_000;
    contract.credits.insert(SIGNER_ACCOUNT.to_string(), BALANCE_AMOUNT);
    let user_balance: u128 = contract.get_credits(SIGNER_ACCOUNT.to_string());
    assert_eq!(BALANCE_AMOUNT, user_balance);
}

#[test]
fn slots_play_win_splits_fees_and_pays() {
    let mut contract = sample_machine();
    contract.deposit(SIGNER_ACCOUNT.to_string(), 1_000_000);
    // a draw below 128 wins
    let outcome = contract.play(SIGNER_ACCOUNT.to_string(), 100_000, 0).unwrap();
    assert!(outcome);
    // cuts over the base of 10_000: nft 400, dev 10, house 10
    let nft_cut = 100_000u128 * 400 / 10_000;
    let dev_cut = 100_000u128 * 10 / 10_000;
    let house_cut = 100_000u128 * 10 / 10_000;
    assert_eq!(contract.nft_balance, nft_cut);
    assert_eq!(contract.dev_balance, dev_cut);
    assert_eq!(contract.house_balance, house_cut);
    let net = 100_000 - nft_cut - dev_cut - house_cut;
    let won = net * 200_000 / 10_000;
    assert_eq!(nft_cut, 4_000);
    assert_eq!(won, 1_916_000);
    assert_eq!(contract.get_credits(SIGNER_ACCOUNT.to_string()), 1_000_000 - 100_000 + won);
}

#[test]
fn slots_play_loss_takes_the_bet() {
    let mut contract = sample_machine();
    contract.deposit(SIGNER_ACCOUNT.to_string(), 1_000_000);
    // a draw at or above 128 loses
    let outcome = contract.play(SIGNER_ACCOUNT.to_string(), 100_000, 200).unwrap();
    assert!(!outcome);
    assert_eq!(contract.get_credits(SIGNER_ACCOUNT.to_string()), 900_000);
}

#[test]
fn slots_play_without_credits_is_refused() {
    let mut contract = sample_machine();
    let r = contract.play(SIGNER_ACCOUNT.to_string(), 100, 0);
    assert_eq!(r, Err(SlotsError::NoCredits));
}

#[test]
fn slots_play_leaves_other_players_alone() {
    let mut contract = sample_machine();
    contract.deposit(SIGNER_ACCOUNT.to_string(), 1_000_000);
    contract.deposit("other.testnet".to_string(), 777);
    contract.play(SIGNER_ACCOUNT.to_string(), 100_000, 200).unwrap();
    assert_eq!(contract.get_credits("other.testnet".to_string()), 777);
}

#[test]
fn slots_update_contract_is_owner_gated() {
    let mut contract = sample_machine();
    let r = contract.update_contract(SIGNER_ACCOUNT.to_string(), 1, 2, 3, 4);
    assert_eq!(r, Err(SlotsError::OnlyOwner));
    assert_eq!(contract.nft_fee, 400);
    contract.update_contract(OWNER_ACCOUNT.to_string(), 1, 2, 3, 4).unwrap();
    assert_eq!(contract.nft_fee, 1);
    assert_eq!(contract.dev_fee, 2);
    assert_eq!(contract.house_fee, 3);
    assert_eq!(contract.win_multiplier, 4);
}

#[test]
fn slots_new_rejects_an_invalid_owner() {
    let r = SlotMachine::new("Bad Owner".to_string(), NFT_ACCOUNT.to_string(), 1, 2, 3, 4);
    assert!(matches!(r, Err(SlotsError::InvalidOwnerAccount)));
    let m = SlotMachine::new(OWNER_ACCOUNT.to_string(), NFT_ACCOUNT.to_string(), 1, 2, 3, 4)
        .unwrap();
    assert_eq!(m.owner_id, OWNER_ACCOUNT.to_string());
    assert_eq!(m.nft_balance, 0);
    assert_eq!(m.dev_balance, 0);
    assert_eq!(m.house_balance, 0);
}
