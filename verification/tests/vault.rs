use gorbage_hands::error::GorbageError;
use gorbage_hands::vault::Vault;

#[test]
fn new_vault_is_empty() {
    let vault = Vault::new(7);
    assert_eq!(vault, Vault { season_id: 7, balance: 0 });
}

#[test]
fn deposit_adds_to_the_balance() {
    let mut vault = Vault::new(1);
    assert_eq!(vault.deposit(250), Ok(()));
    assert_eq!(vault.deposit(750), Ok(()));
    assert_eq!(vault.balance, 1000);
}

#[test]
fn deposit_refuses_to_wrap() {
    let mut vault = Vault { season_id: 1, balance: u64::MAX - 5 };
    assert_eq!(vault.deposit(6), Err(GorbageError::ArithmeticOverflow));
    assert_eq!(vault.balance, u64::MAX - 5);
    assert_eq!(vault.deposit(5), Ok(()));
    assert_eq!(vault.balance, u64::MAX);
}
