use solana_program::pubkey::Pubkey;
use vault::address::Address;
use vault::controller::VaultController;
use vault::derivation::{escrow_tag_bytes, proves_control, rederive, state_tag_bytes, DerivationProof};
use vault::errors::{LedgerError, VaultError};
use vault::ledger::Ledger;
use vault::state::VaultState;
use vault::table::{VaultAccount, VaultTable};

fn address(fill: u8) -> Address {
    Address::new([fill; 32])
}

fn program() -> Address {
    address(7)
}

fn funded(owner: &Address, amount: u64) -> VaultController {
    let mut controller = VaultController::new(program());
    assert_eq!(controller.fund(owner, amount), Ok(()));
    assert_eq!(controller.initialize(owner), Ok(()));
    controller
}

fn balance(controller: &VaultController, owner: &Address) -> u64 {
    controller.vault_account(owner).unwrap().state.balance
}

fn escrow_value(controller: &VaultController, owner: &Address) -> u64 {
    let escrow = controller.escrow_address(owner).unwrap();
    controller.held_value(&escrow)
}

#[test]
fn tag_bytes_spell_the_domain_tags() {
    assert_eq!(state_tag_bytes(), b"vault_state".to_vec());
    assert_eq!(escrow_tag_bytes(), b"vault".to_vec());
}

#[test]
fn address_comparison_is_bytewise() {
    let a = address(1);
    let mut bytes = [1u8; 32];
    assert!(a.same(&Address::new(bytes)));
    bytes[31] = 2;
    assert!(!a.same(&Address::new(bytes)));
    bytes[31] = 1;
    bytes[0] = 0;
    assert!(!a.same(&Address::new(bytes)));
}

#[test]
fn initialize_creates_an_empty_vault_at_the_derived_addresses() {
    let owner = address(1);
    let controller = funded(&owner, 0);
    let account = controller.vault_account(&owner).unwrap();
    let id = Pubkey::new_from_array(program().bytes);
    let (state_key, _) = Pubkey::find_program_address(&[b"vault_state", &owner.bytes], &id);
    let (escrow_key, bump) = Pubkey::find_program_address(&[b"vault", state_key.as_ref()], &id);
    assert_eq!(account.address.bytes, state_key.to_bytes());
    assert_eq!(account.state.owner, owner);
    assert_eq!(account.state.balance, 0);
    assert_eq!(account.state.vault_bump, bump);
    let escrow = controller.escrow_address(&owner).unwrap();
    assert_eq!(escrow.bytes, escrow_key.to_bytes());
    assert_ne!(escrow, account.address);
    assert_ne!(account.address, owner);
    assert_eq!(controller.held_value(&escrow), 0);
}

#[test]
fn initialize_twice_is_refused() {
    let owner = address(1);
    let mut controller = funded(&owner, 5);
    assert_eq!(controller.deposit(&owner, 5), Ok(()));
    assert_eq!(
        controller.initialize(&owner),
        Err(VaultError::Ledger(LedgerError::AccountAlreadyExists))
    );
    assert_eq!(balance(&controller, &owner), 5);
}

#[test]
fn rederive_matches_the_runtime_derivation() {
    let key = address(9);
    let id = Pubkey::new_from_array(program().bytes);
    let (expected, bump) = Pubkey::find_program_address(&[b"vault", &key.bytes], &id);
    let proof = DerivationProof { tag: escrow_tag_bytes(), seed_key: key, bump };
    let derived = rederive(&proof, &program()).unwrap();
    assert_eq!(derived.bytes, expected.to_bytes());
    assert_ne!(derived, key);
    assert!(proves_control(Some(derived), &Address::new(expected.to_bytes())));
    assert!(!proves_control(Some(derived), &key));
    assert!(!proves_control(None, &key));
}

#[test]
fn rederive_rejects_an_overlong_tag() {
    let proof = DerivationProof { tag: vec![0u8; 33], seed_key: address(9), bump: 255 };
    assert_eq!(rederive(&proof, &program()), None);
}

#[test]
fn locate_matches_the_runtime_search() {
    let owner = address(1);
    let controller = VaultController::new(program());
    let id = Pubkey::new_from_array(program().bytes);
    let (state_key, _) = Pubkey::find_program_address(&[b"vault_state", &owner.bytes], &id);
    let (_, bump) = Pubkey::find_program_address(&[b"vault", state_key.as_ref()], &id);
    let (found, found_bump) = controller.locate(&owner).unwrap();
    assert_eq!(found.bytes, state_key.to_bytes());
    assert_eq!(found_bump, bump);
    assert_ne!(found, owner);
}

#[test]
fn stored_bump_re_derives_the_escrow_address() {
    let owner = address(1);
    let controller = funded(&owner, 0);
    let escrow = controller.escrow_address(&owner);
    assert!(escrow.is_some());
    assert_eq!(controller.escrow_proof_target(&owner), escrow);
    assert_eq!(controller.escrow_proof_target(&address(2)), None);
}

#[test]
fn create_stores_an_empty_vault_at_the_given_place() {
    let owner = address(1);
    let mut controller = VaultController::new(program());
    assert_eq!(
        controller.create(&owner, None),
        Err(VaultError::Ledger(LedgerError::NoDerivableAddress))
    );
    assert_eq!(controller.vault_account(&owner), None);
    assert_eq!(controller.create(&owner, Some((address(40), 250))), Ok(()));
    assert_eq!(
        controller.vault_account(&owner),
        Some(VaultAccount { address: address(40), state: VaultState { owner, balance: 0, vault_bump: 250 } })
    );
    assert_eq!(
        controller.create(&owner, Some((address(41), 249))),
        Err(VaultError::Ledger(LedgerError::AccountAlreadyExists))
    );
    assert_eq!(
        controller.create(&owner, None),
        Err(VaultError::Ledger(LedgerError::AccountAlreadyExists))
    );
    assert_eq!(controller.vault_account(&owner).unwrap().address, address(40));
}

#[test]
fn deposit_into_a_given_escrow_moves_and_tracks_the_amount() {
    let owner = address(1);
    let escrow = address(50);
    let mut controller = VaultController::new(program());
    assert_eq!(controller.fund(&owner, 100), Ok(()));
    assert_eq!(controller.create(&owner, Some((address(40), 250))), Ok(()));
    assert_eq!(
        controller.deposit_into(&owner, None, 10),
        Err(VaultError::Ledger(LedgerError::NoDerivableAddress))
    );
    assert_eq!(controller.deposit_into(&owner, None, 0), Err(VaultError::InvalidAmount));
    assert_eq!(controller.deposit_into(&owner, Some(escrow), 10), Ok(()));
    assert_eq!(balance(&controller, &owner), 10);
    assert_eq!(controller.held_value(&escrow), 10);
    assert_eq!(controller.held_value(&owner), 90);
    assert_eq!(
        controller.deposit_into(&owner, Some(escrow), 91),
        Err(VaultError::Ledger(LedgerError::InsufficientFunds))
    );
    assert_eq!(
        controller.deposit_into(&address(2), Some(escrow), 1),
        Err(VaultError::Ledger(LedgerError::AccountNotFound))
    );
    assert_eq!(balance(&controller, &owner), 10);
    assert_eq!(controller.held_value(&escrow), 10);
}

#[test]
fn withdraw_out_needs_a_derivation_that_gives_the_escrow() {
    let owner = address(1);
    let escrow = address(50);
    let mut controller = VaultController::new(program());
    assert_eq!(controller.fund(&owner, 100), Ok(()));
    assert_eq!(controller.create(&owner, Some((address(40), 250))), Ok(()));
    assert_eq!(controller.deposit_into(&owner, Some(escrow), 30), Ok(()));
    let invalid = Err(VaultError::Ledger(LedgerError::InvalidProof));
    assert_eq!(controller.withdraw_out(&owner, Some(escrow), Some(address(51)), 10), invalid);
    assert_eq!(controller.withdraw_out(&owner, Some(escrow), None, 10), invalid);
    assert_eq!(
        controller.withdraw_out(&owner, None, Some(escrow), 10),
        Err(VaultError::Ledger(LedgerError::NoDerivableAddress))
    );
    assert_eq!(
        controller.withdraw_out(&owner, Some(escrow), Some(address(51)), 31),
        Err(VaultError::InsufficientBalance)
    );
    assert_eq!(controller.withdraw_out(&owner, Some(escrow), None, 0), Err(VaultError::InvalidAmount));
    assert_eq!(balance(&controller, &owner), 30);
    assert_eq!(controller.held_value(&escrow), 30);
    assert_eq!(controller.withdraw_out(&owner, Some(escrow), Some(escrow), 10), Ok(()));
    assert_eq!(balance(&controller, &owner), 20);
    assert_eq!(controller.held_value(&escrow), 20);
    assert_eq!(controller.held_value(&owner), 80);
}

#[test]
fn withdraw_out_passes_a_short_escrow_through() {
    let owner = address(1);
    let mut controller = VaultController::new(program());
    assert_eq!(controller.fund(&owner, 100), Ok(()));
    assert_eq!(controller.create(&owner, Some((address(40), 250))), Ok(()));
    assert_eq!(controller.deposit_into(&owner, Some(address(50)), 30), Ok(()));
    assert_eq!(
        controller.withdraw_out(&owner, Some(address(52)), Some(address(52)), 10),
        Err(VaultError::Ledger(LedgerError::InsufficientFunds))
    );
    assert_eq!(balance(&controller, &owner), 30);
}

#[test]
fn close_out_checks_the_proof_only_when_there_is_a_residue() {
    let owner = address(1);
    let escrow = address(50);
    let mut controller = VaultController::new(program());
    assert_eq!(controller.create(&owner, Some((address(40), 250))), Ok(()));
    assert_eq!(
        controller.close_out(&owner, None, None),
        Err(VaultError::Ledger(LedgerError::NoDerivableAddress))
    );
    assert_eq!(controller.fund(&escrow, 9), Ok(()));
    assert_eq!(
        controller.close_out(&owner, Some(escrow), Some(address(51))),
        Err(VaultError::Ledger(LedgerError::InvalidProof))
    );
    assert!(controller.vault_account(&owner).is_some());
    assert_eq!(controller.held_value(&escrow), 9);
    assert_eq!(controller.close_out(&owner, Some(escrow), Some(escrow)), Ok(()));
    assert_eq!(controller.vault_account(&owner), None);
    assert_eq!(controller.held_value(&escrow), 0);
    assert_eq!(controller.held_value(&owner), 9);
    assert_eq!(controller.create(&owner, Some((address(40), 250))), Ok(()));
    assert_eq!(controller.close_out(&owner, Some(escrow), None), Ok(()));
    assert_eq!(controller.vault_account(&owner), None);
    assert_eq!(controller.held_value(&owner), 9);
}

#[test]
fn transfer_proved_compares_the_derivation_with_the_payer() {
    let payer = address(1);
    let payee = address(2);
    let mut ledger = Ledger::new();
    assert_eq!(ledger.fund(&payer, 10), Ok(()));
    assert_eq!(ledger.transfer_proved(&payer, &payee, 4, None), Err(LedgerError::InvalidProof));
    assert_eq!(ledger.transfer_proved(&payer, &payee, 4, Some(payee)), Err(LedgerError::InvalidProof));
    assert_eq!(ledger.transfer_proved(&payer, &payee, 11, Some(payee)), Err(LedgerError::InvalidProof));
    assert_eq!(ledger.transfer_proved(&payer, &payee, 11, Some(payer)), Err(LedgerError::InsufficientFunds));
    assert_eq!(ledger.value_of(&payer), 10);
    assert_eq!(ledger.transfer_proved(&payer, &payee, 4, Some(payer)), Ok(()));
    assert_eq!(ledger.value_of(&payer), 6);
    assert_eq!(ledger.value_of(&payee), 4);
}

#[test]
fn round_trip_deposit_then_withdraw() {
    let owner = address(1);
    let mut controller = funded(&owner, 1000);
    assert_eq!(controller.deposit(&owner, 100), Ok(()));
    assert_eq!(balance(&controller, &owner), 100);
    assert_eq!(escrow_value(&controller, &owner), 100);
    assert_eq!(controller.withdraw(&owner, 40), Ok(()));
    assert_eq!(balance(&controller, &owner), 60);
    assert_eq!(escrow_value(&controller, &owner), 60);
    assert_eq!(controller.held_value(&owner), 940);
}

#[test]
fn balance_tracks_escrow_over_a_sequence() {
    let owner = address(3);
    let mut controller = funded(&owner, 500);
    let steps: [(bool, u64); 6] = [(true, 200), (false, 50), (true, 300), (false, 450), (true, 1), (false, 1)];
    let mut expected: u64 = 0;
    for (is_deposit, amount) in steps {
        if is_deposit {
            assert_eq!(controller.deposit(&owner, amount), Ok(()));
            expected += amount;
        } else {
            assert_eq!(controller.withdraw(&owner, amount), Ok(()));
            expected -= amount;
        }
        assert_eq!(balance(&controller, &owner), expected);
        assert_eq!(escrow_value(&controller, &owner), expected);
        assert_eq!(controller.held_value(&owner), 500 - expected);
    }
}

#[test]
fn zero_amount_is_invalid() {
    let owner = address(1);
    let stranger = address(2);
    let mut controller = funded(&owner, 10);
    assert_eq!(controller.deposit(&owner, 0), Err(VaultError::InvalidAmount));
    assert_eq!(controller.withdraw(&owner, 0), Err(VaultError::InvalidAmount));
    assert_eq!(controller.deposit(&stranger, 0), Err(VaultError::InvalidAmount));
    assert_eq!(controller.withdraw(&stranger, 0), Err(VaultError::InvalidAmount));
    let mut state = VaultState::initialize(owner, 254);
    assert_eq!(state.deposit(&owner, 0), Err(VaultError::InvalidAmount));
    assert_eq!(state.withdraw(&stranger, 0), Err(VaultError::InvalidAmount));
    assert_eq!(state.balance, 0);
}

#[test]
fn overdraw_is_refused_and_changes_nothing() {
    let owner = address(1);
    let mut controller = funded(&owner, 100);
    assert_eq!(controller.deposit(&owner, 30), Ok(()));
    assert_eq!(controller.withdraw(&owner, 31), Err(VaultError::InsufficientBalance));
    assert_eq!(balance(&controller, &owner), 30);
    assert_eq!(escrow_value(&controller, &owner), 30);
    assert_eq!(controller.held_value(&owner), 70);
    assert_eq!(controller.withdraw(&owner, 30), Ok(()));
    assert_eq!(balance(&controller, &owner), 0);
}

#[test]
fn overdraw_is_judged_by_the_tracked_balance() {
    let owner = address(1);
    let mut controller = funded(&owner, 100);
    let escrow = controller.escrow_address(&owner).unwrap();
    assert_eq!(controller.fund(&escrow, 50), Ok(()));
    assert_eq!(controller.deposit(&owner, 10), Ok(()));
    assert_eq!(controller.withdraw(&owner, 11), Err(VaultError::InsufficientBalance));
    assert_eq!(controller.held_value(&escrow), 60);
}

#[test]
fn deposit_past_the_64_bit_range_overflows() {
    let owner = address(1);
    let first = address(50);
    let second = address(51);
    let mut controller = VaultController::new(program());
    assert_eq!(controller.fund(&owner, u64::MAX), Ok(()));
    assert_eq!(controller.create(&owner, Some((address(40), 250))), Ok(()));
    assert_eq!(controller.deposit_into(&owner, Some(first), u64::MAX - 5), Ok(()));
    assert_eq!(controller.fund(&owner, 1), Ok(()));
    assert_eq!(controller.deposit_into(&owner, Some(second), 6), Err(VaultError::Overflow));
    assert_eq!(balance(&controller, &owner), u64::MAX - 5);
    assert_eq!(controller.held_value(&owner), 6);
    assert_eq!(controller.held_value(&first), u64::MAX - 5);
    assert_eq!(controller.held_value(&second), 0);
    assert_eq!(controller.deposit_into(&owner, Some(second), 5), Ok(()));
    assert_eq!(balance(&controller, &owner), u64::MAX);
    assert_eq!(controller.held_value(&owner), 1);
    assert_eq!(controller.held_value(&second), 5);
    let mut state = VaultState { owner, balance: u64::MAX - 5, vault_bump: 1 };
    assert_eq!(state.deposit(&owner, 6), Err(VaultError::Overflow));
    assert_eq!(state.balance, u64::MAX - 5);
    assert_eq!(state.deposit(&owner, 5), Ok(()));
    assert_eq!(state.balance, u64::MAX);
}

#[test]
fn refused_transfer_is_reported_before_an_overflow() {
    let owner = address(1);
    let mut controller = funded(&owner, u64::MAX);
    assert_eq!(controller.deposit(&owner, u64::MAX - 5), Ok(()));
    assert_eq!(controller.deposit(&owner, 5), Ok(()));
    assert_eq!(balance(&controller, &owner), u64::MAX);
    assert_eq!(controller.held_value(&owner), 0);
    assert_eq!(
        controller.deposit(&owner, 1),
        Err(VaultError::Ledger(LedgerError::InsufficientFunds))
    );
    assert_eq!(controller.fund(&owner, 1), Ok(()));
    assert_eq!(
        controller.deposit(&owner, 1),
        Err(VaultError::Ledger(LedgerError::BalanceOverflow))
    );
    assert_eq!(balance(&controller, &owner), u64::MAX);
    assert_eq!(escrow_value(&controller, &owner), u64::MAX);
    assert_eq!(controller.held_value(&owner), 1);
}

#[test]
fn owner_that_is_its_own_escrow_is_refused() {
    let owner = address(1);
    let mut controller = VaultController::new(program());
    assert_eq!(controller.fund(&owner, 100), Ok(()));
    assert_eq!(controller.create(&owner, Some((address(40), 250))), Ok(()));
    let denied = Err(VaultError::Ledger(LedgerError::Unauthorized));
    assert_eq!(controller.deposit_into(&owner, Some(owner), 10), denied);
    assert_eq!(controller.deposit_into(&owner, Some(owner), 0), Err(VaultError::InvalidAmount));
    assert_eq!(controller.close_out(&owner, Some(owner), Some(owner)), denied);
    assert_eq!(controller.deposit_into(&owner, Some(address(50)), 10), Ok(()));
    assert_eq!(controller.withdraw_out(&owner, Some(owner), Some(owner), 10), denied);
    assert_eq!(
        controller.withdraw_out(&owner, Some(owner), Some(owner), 11),
        Err(VaultError::InsufficientBalance)
    );
    assert_eq!(
        controller.close_out(&owner, Some(owner), Some(owner)),
        Err(VaultError::VaultNotEmpty)
    );
    assert_eq!(balance(&controller, &owner), 10);
    assert_eq!(controller.held_value(&owner), 90);
    assert_eq!(controller.held_value(&address(50)), 10);
}

#[test]
fn check_deposit_decides_before_any_value_moves() {
    let owner = address(1);
    let state = VaultState { owner, balance: u64::MAX, vault_bump: 1 };
    assert_eq!(state.check_deposit(&owner, 0), Err(VaultError::InvalidAmount));
    assert_eq!(state.check_deposit(&address(2), 0), Err(VaultError::InvalidAmount));
    assert_eq!(
        state.check_deposit(&address(2), 5),
        Err(VaultError::Ledger(LedgerError::Unauthorized))
    );
    assert_eq!(state.check_deposit(&owner, 5), Ok(()));
    assert_eq!(state.balance, u64::MAX);
}

#[test]
fn check_transfer_decides_without_moving() {
    let a = address(1);
    let b = address(2);
    let mut ledger = Ledger::new();
    assert_eq!(ledger.fund(&a, 10), Ok(()));
    assert_eq!(ledger.fund(&b, u64::MAX - 3), Ok(()));
    assert_eq!(ledger.check_transfer(&a, &b, 11), Some(LedgerError::InsufficientFunds));
    assert_eq!(ledger.check_transfer(&a, &b, 4), Some(LedgerError::BalanceOverflow));
    assert_eq!(ledger.check_transfer(&a, &b, 3), None);
    assert_eq!(ledger.check_transfer(&a, &a, 10), None);
    assert_eq!(ledger.check_transfer(&a, &a, 11), Some(LedgerError::InsufficientFunds));
    assert_eq!(ledger.check_transfer(&a, &address(3), 0), None);
    assert_eq!(ledger.value_of(&a), 10);
    assert_eq!(ledger.value_of(&b), u64::MAX - 3);
}

#[test]
fn deposit_without_funds_passes_the_ledger_error_through() {
    let owner = address(1);
    let mut controller = funded(&owner, 9);
    assert_eq!(
        controller.deposit(&owner, 10),
        Err(VaultError::Ledger(LedgerError::InsufficientFunds))
    );
    assert_eq!(balance(&controller, &owner), 0);
    assert_eq!(escrow_value(&controller, &owner), 0);
    assert_eq!(controller.held_value(&owner), 9);
}

#[test]
fn operations_without_a_vault_find_no_account() {
    let owner = address(1);
    let stranger = address(2);
    let mut controller = funded(&owner, 100);
    assert_eq!(controller.deposit(&owner, 60), Ok(()));
    assert_eq!(controller.fund(&stranger, 100), Ok(()));
    let missing = Err(VaultError::Ledger(LedgerError::AccountNotFound));
    assert_eq!(controller.deposit(&stranger, 10), missing);
    assert_eq!(controller.withdraw(&stranger, 10), missing);
    assert_eq!(controller.close(&stranger), missing);
    assert_eq!(controller.vault_account(&stranger), None);
    assert_eq!(controller.escrow_address(&stranger), None);
    assert_eq!(balance(&controller, &owner), 60);
    assert_eq!(escrow_value(&controller, &owner), 60);
    assert_eq!(controller.held_value(&stranger), 100);
}

#[test]
fn only_the_recorded_owner_is_accepted() {
    let owner = address(1);
    let stranger = address(2);
    let mut state = VaultState { owner, balance: 50, vault_bump: 3 };
    let denied = Err(VaultError::Ledger(LedgerError::Unauthorized));
    assert_eq!(state.deposit(&stranger, 10), denied);
    assert_eq!(state.withdraw(&stranger, 10), denied);
    assert_eq!(state.withdraw(&stranger, 60), denied);
    assert_eq!(state.close(&stranger), denied);
    assert_eq!(state, VaultState { owner, balance: 50, vault_bump: 3 });
    assert_eq!(state.withdraw(&owner, 50), Ok(()));
    assert_eq!(state.close(&owner), Ok(()));
}

#[test]
fn vaults_of_different_owners_are_independent() {
    let first = address(1);
    let second = address(2);
    let mut controller = funded(&first, 100);
    assert_eq!(controller.fund(&second, 100), Ok(()));
    assert_eq!(controller.initialize(&second), Ok(()));
    assert_eq!(controller.deposit(&first, 70), Ok(()));
    assert_eq!(controller.deposit(&second, 20), Ok(()));
    assert_eq!(controller.withdraw(&first, 30), Ok(()));
    assert_eq!(balance(&controller, &first), 40);
    assert_eq!(balance(&controller, &second), 20);
    assert_eq!(escrow_value(&controller, &first), 40);
    assert_eq!(escrow_value(&controller, &second), 20);
    assert_ne!(controller.escrow_address(&first), controller.escrow_address(&second));
}

#[test]
fn close_with_a_balance_is_refused() {
    let owner = address(1);
    let mut controller = funded(&owner, 100);
    assert_eq!(controller.deposit(&owner, 1), Ok(()));
    assert_eq!(controller.close(&owner), Err(VaultError::VaultNotEmpty));
    assert_eq!(balance(&controller, &owner), 1);
    assert_eq!(escrow_value(&controller, &owner), 1);
    let state = VaultState { owner, balance: 1, vault_bump: 0 };
    assert_eq!(state.close(&owner), Err(VaultError::VaultNotEmpty));
}

#[test]
fn close_destroys_the_vault_and_sweeps_stray_value() {
    let owner = address(1);
    let mut controller = funded(&owner, 100);
    let escrow = controller.escrow_address(&owner).unwrap();
    assert_eq!(controller.deposit(&owner, 25), Ok(()));
    assert_eq!(controller.withdraw(&owner, 25), Ok(()));
    assert_eq!(controller.fund(&escrow, 7), Ok(()));
    assert_eq!(controller.close(&owner), Ok(()));
    assert_eq!(controller.vault_account(&owner), None);
    assert_eq!(controller.held_value(&escrow), 0);
    assert_eq!(controller.held_value(&owner), 107);
    assert_eq!(controller.close(&owner), Err(VaultError::Ledger(LedgerError::AccountNotFound)));
    assert_eq!(controller.initialize(&owner), Ok(()));
    assert_eq!(balance(&controller, &owner), 0);
}

#[test]
fn close_with_nothing_to_sweep_moves_nothing() {
    let owner = address(1);
    let mut controller = funded(&owner, 100);
    assert_eq!(controller.close(&owner), Ok(()));
    assert_eq!(controller.held_value(&owner), 100);
    assert_eq!(controller.vault_account(&owner), None);
}

#[test]
fn close_sweep_that_cannot_be_received_is_passed_through() {
    let owner = address(1);
    let mut controller = funded(&owner, u64::MAX);
    let escrow = controller.escrow_address(&owner).unwrap();
    assert_eq!(controller.fund(&escrow, 1), Ok(()));
    assert_eq!(controller.close(&owner), Err(VaultError::Ledger(LedgerError::BalanceOverflow)));
    assert!(controller.vault_account(&owner).is_some());
    assert_eq!(controller.held_value(&escrow), 1);
}

#[test]
fn deposit_and_withdraw_commute() {
    let owner = address(1);
    let mut first = VaultState { owner, balance: 100, vault_bump: 9 };
    assert_eq!(first.deposit(&owner, 30), Ok(()));
    assert_eq!(first.withdraw(&owner, 20), Ok(()));
    let mut second = VaultState { owner, balance: 100, vault_bump: 9 };
    assert_eq!(second.withdraw(&owner, 20), Ok(()));
    assert_eq!(second.deposit(&owner, 30), Ok(()));
    assert_eq!(first.balance, 110);
    assert_eq!(first, second);
}

#[test]
fn escrow_proof_carries_tag_key_and_bump() {
    let owner = address(1);
    let state = VaultState::initialize(owner, 251);
    let proof = state.escrow_proof(&address(4));
    assert_eq!(proof.tag, b"vault".to_vec());
    assert_eq!(proof.seed_key, address(4));
    assert_eq!(proof.bump, 251);
}

#[test]
fn ledger_transfer_moves_exactly_the_amount() {
    let a = address(1);
    let b = address(2);
    let mut ledger = Ledger::new();
    assert_eq!(ledger.value_of(&a), 0);
    assert_eq!(ledger.fund(&a, 10), Ok(()));
    assert_eq!(ledger.transfer(&a, &b, 4), Ok(()));
    assert_eq!(ledger.value_of(&a), 6);
    assert_eq!(ledger.value_of(&b), 4);
    assert_eq!(ledger.transfer(&a, &b, 7), Err(LedgerError::InsufficientFunds));
    assert_eq!(ledger.transfer(&a, &a, 6), Ok(()));
    assert_eq!(ledger.value_of(&a), 6);
    assert_eq!(ledger.transfer(&a, &a, 7), Err(LedgerError::InsufficientFunds));
    assert_eq!(ledger.fund(&b, u64::MAX - 4), Ok(()));
    assert_eq!(ledger.transfer(&a, &b, 1), Err(LedgerError::BalanceOverflow));
    assert_eq!(ledger.fund(&b, 1), Err(LedgerError::BalanceOverflow));
    assert_eq!(ledger.value_of(&a), 6);
    assert_eq!(ledger.value_of(&b), u64::MAX);
}

#[test]
fn derived_transfer_needs_the_exact_proof() {
    let key = address(9);
    let payee = address(2);
    let id = Pubkey::new_from_array(program().bytes);
    let (derived, bump) = Pubkey::find_program_address(&[b"vault", &key.bytes], &id);
    let payer = Address::new(derived.to_bytes());
    let mut ledger = Ledger::new();
    assert_eq!(ledger.fund(&payer, 10), Ok(()));
    let good = DerivationProof { tag: escrow_tag_bytes(), seed_key: key, bump };
    let wrong_tag = DerivationProof { tag: state_tag_bytes(), seed_key: key, bump };
    let wrong_key = DerivationProof { tag: escrow_tag_bytes(), seed_key: payee, bump };
    assert_eq!(
        ledger.transfer_as_derived(&payer, &payee, 3, &wrong_tag, &program()),
        Err(LedgerError::InvalidProof)
    );
    assert_eq!(
        ledger.transfer_as_derived(&payer, &payee, 3, &wrong_key, &program()),
        Err(LedgerError::InvalidProof)
    );
    assert_eq!(
        ledger.transfer_as_derived(&payer, &payee, 3, &good, &address(8)),
        Err(LedgerError::InvalidProof)
    );
    assert_eq!(
        ledger.transfer_as_derived(&payee, &payer, 0, &good, &program()),
        Err(LedgerError::InvalidProof)
    );
    assert_eq!(ledger.value_of(&payer), 10);
    assert_eq!(ledger.transfer_as_derived(&payer, &payee, 3, &good, &program()), Ok(()));
    assert_eq!(ledger.value_of(&payer), 7);
    assert_eq!(ledger.value_of(&payee), 3);
    assert_eq!(
        ledger.transfer_as_derived(&payer, &payee, 8, &good, &program()),
        Err(LedgerError::InsufficientFunds)
    );
}

#[test]
fn table_keeps_one_record_per_owner() {
    let first = address(1);
    let second = address(2);
    let mut table = VaultTable::new();
    assert_eq!(table.lookup(&first), None);
    let one = VaultAccount { address: address(11), state: VaultState::initialize(first, 1) };
    let two = VaultAccount { address: address(12), state: VaultState::initialize(second, 2) };
    table.store(one);
    table.store(two);
    assert_eq!(table.lookup(&first), Some(one));
    assert_eq!(table.lookup(&second), Some(two));
    let richer = VaultAccount { address: address(11), state: VaultState { owner: first, balance: 5, vault_bump: 1 } };
    table.store(richer);
    assert_eq!(table.lookup(&first), Some(richer));
    table.destroy(&first);
    assert_eq!(table.lookup(&first), None);
    assert_eq!(table.lookup(&second), Some(two));
    table.destroy(&first);
    assert_eq!(table.lookup(&second), Some(two));
}
