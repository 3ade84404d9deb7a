use agent_vault::account::NativeAccount;
use agent_vault::address::Address;
use agent_vault::manager::state::ErrorCode;
use agent_vault::manager::vault::transfer_from_vault;

fn account(byte: u8, lamports: u64) -> NativeAccount {
    NativeAccount { key: Address::new([byte; 32]), lamports }
}

#[test]
fn vault_pays_on_proof_of_its_address() {
    let vault = account(4, 1_000);
    let recipient = account(6, 10);
    assert_eq!(
        transfer_from_vault(&vault, &recipient, 300, &Some(vault.key)),
        Ok((account(4, 700), account(6, 310)))
    );
    assert_eq!(
        transfer_from_vault(&vault, &recipient, 1_000, &Some(vault.key)),
        Ok((account(4, 0), account(6, 1_010)))
    );
    assert_eq!(
        transfer_from_vault(&vault, &recipient, 0, &Some(vault.key)),
        Ok((vault, recipient))
    );
}

#[test]
fn vault_pays_nothing_without_proof() {
    let vault = account(4, 1_000);
    let recipient = account(6, 10);
    assert_eq!(
        transfer_from_vault(&vault, &recipient, 300, &None),
        Err(ErrorCode::Unauthorized)
    );
    assert_eq!(
        transfer_from_vault(&vault, &recipient, 300, &Some(recipient.key)),
        Err(ErrorCode::Unauthorized)
    );
    assert_eq!(
        transfer_from_vault(&vault, &recipient, 0, &None),
        Err(ErrorCode::Unauthorized)
    );
    assert_eq!(
        transfer_from_vault(&vault, &recipient, 5_000, &None),
        Err(ErrorCode::Unauthorized)
    );
}

#[test]
fn vault_pays_no_more_than_it_holds() {
    let vault = account(4, 1_000);
    let recipient = account(6, u64::MAX);
    assert_eq!(
        transfer_from_vault(&vault, &recipient, 1_001, &Some(vault.key)),
        Err(ErrorCode::InsufficientFunds)
    );
}

#[test]
fn vault_cannot_overflow_the_recipient() {
    let vault = account(4, 1_000);
    let recipient = account(6, u64::MAX - 299);
    assert_eq!(
        transfer_from_vault(&vault, &recipient, 300, &Some(vault.key)),
        Err(ErrorCode::ArithmeticOverflow)
    );
    assert_eq!(
        transfer_from_vault(&vault, &recipient, 299, &Some(vault.key)),
        Ok((account(4, 701), account(6, u64::MAX)))
    );
}
