use vesting::address::{find_treasury_address, find_vesting_account_address, Address};
use vesting::error::ErrorCode;
use vesting::registry::{
    create_vesting_account, CreateVestingAccount, TokenAccount, VestingAccount,
    MAX_COMPANY_NAME_LEN,
};

fn program() -> Address {
    Address::new([7; 32])
}

fn accounts_for(name: &str) -> CreateVestingAccount {
    CreateVestingAccount {
        signer: Address::new([1; 32]),
        vesting_account_address: find_vesting_account_address(&program(), name).unwrap().0,
        vesting_account: None,
        mint: Address::new([9; 32]),
        treasury_token_account_address: find_treasury_address(&program(), name).unwrap().0,
        treasury_token_account: None,
    }
}

fn some_record() -> VestingAccount {
    VestingAccount {
        owner: Address::new([5; 32]),
        mint: Address::new([9; 32]),
        treasury_token_account: Address::new([6; 32]),
        company_name: "acme".to_string(),
        treasury_bump: 1,
        bump: 2,
    }
}

#[test]
fn create_vesting_account_records_the_company() {
    let mut ctx = accounts_for("acme");
    assert_eq!(create_vesting_account(&program(), &mut ctx, "acme".to_string()), Ok(()));
    let record = ctx.vesting_account.clone().unwrap();
    assert!(record.owner.same(&ctx.signer));
    assert!(record.mint.same(&ctx.mint));
    assert!(record.treasury_token_account.same(&ctx.treasury_token_account_address));
    assert_eq!(record.company_name, "acme");
    assert_eq!(record.bump, 254);
    assert_eq!(record.treasury_bump, 253);
    let treasury = ctx.treasury_token_account.unwrap();
    assert!(treasury.mint.same(&ctx.mint));
    assert!(treasury.authority.same(&ctx.treasury_token_account_address));
}

#[test]
fn create_vesting_account_keeps_the_presented_accounts() {
    let mut ctx = accounts_for("acme");
    let before = ctx.clone();
    create_vesting_account(&program(), &mut ctx, "acme".to_string()).unwrap();
    assert!(ctx.signer.same(&before.signer));
    assert!(ctx.mint.same(&before.mint));
    assert!(ctx.vesting_account_address.same(&before.vesting_account_address));
    assert!(ctx.treasury_token_account_address.same(&before.treasury_token_account_address));
}

#[test]
fn create_vesting_account_refuses_a_second_creation() {
    let mut ctx = accounts_for("acme");
    create_vesting_account(&program(), &mut ctx, "acme".to_string()).unwrap();
    ctx.signer = Address::new([4; 32]);
    assert_eq!(
        create_vesting_account(&program(), &mut ctx, "acme".to_string()),
        Err(ErrorCode::AccountInUse)
    );
    assert!(ctx.vesting_account.unwrap().owner.same(&Address::new([1; 32])));
}

#[test]
fn create_vesting_account_refuses_an_occupied_treasury() {
    let mut ctx = accounts_for("acme");
    ctx.treasury_token_account =
        Some(TokenAccount { mint: Address::new([9; 32]), authority: Address::new([4; 32]) });
    assert_eq!(
        create_vesting_account(&program(), &mut ctx, "acme".to_string()),
        Err(ErrorCode::AccountInUse)
    );
    assert!(ctx.vesting_account.is_none());
    assert!(ctx.treasury_token_account.unwrap().authority.same(&Address::new([4; 32])));
}

#[test]
fn create_vesting_account_refuses_another_address() {
    let mut ctx = accounts_for("acme");
    assert_eq!(
        create_vesting_account(&program(), &mut ctx, "globex".to_string()),
        Err(ErrorCode::AddressMismatch)
    );
    assert!(ctx.vesting_account.is_none());
    assert!(ctx.treasury_token_account.is_none());

    let mut ctx = accounts_for("acme");
    ctx.treasury_token_account_address = Address::new([6; 32]);
    assert_eq!(
        create_vesting_account(&program(), &mut ctx, "acme".to_string()),
        Err(ErrorCode::AddressMismatch)
    );
    assert!(ctx.vesting_account.is_none());

    let mut ctx = accounts_for("acme");
    assert_eq!(
        create_vesting_account(&Address::new([8; 32]), &mut ctx, "acme".to_string()),
        Err(ErrorCode::AddressMismatch)
    );
}

#[test]
fn create_vesting_account_refuses_a_long_name() {
    let mut ctx = accounts_for("acme");
    let name = "n".repeat(MAX_COMPANY_NAME_LEN + 1);
    assert_eq!(
        create_vesting_account(&program(), &mut ctx, name),
        Err(ErrorCode::CompanyNameTooLong)
    );
    assert!(ctx.vesting_account.is_none());
    assert!(ctx.treasury_token_account.is_none());
}

#[test]
fn company_name_bound_is_fifty_characters() {
    assert_eq!(MAX_COMPANY_NAME_LEN, 50);
    let mut ctx = accounts_for("acme");
    let name = "n".repeat(50);
    assert_eq!(
        create_vesting_account(&program(), &mut ctx, name),
        Err(ErrorCode::AddressNotDerivable)
    );
    let mut ctx = accounts_for("acme");
    let name = "\u{e9}".repeat(51);
    assert_eq!(
        create_vesting_account(&program(), &mut ctx, name),
        Err(ErrorCode::CompanyNameTooLong)
    );
}

#[test]
fn create_vesting_account_accepts_the_longest_seed() {
    let name = "n".repeat(32);
    let mut ctx = accounts_for(&name);
    assert_eq!(create_vesting_account(&program(), &mut ctx, name.clone()), Ok(()));
    assert_eq!(ctx.vesting_account.unwrap().company_name, name);
}

#[test]
fn create_with_addresses_checks_in_order() {
    let vesting = Address::new([10; 32]);
    let treasury = Address::new([11; 32]);
    let fresh = CreateVestingAccount {
        signer: Address::new([1; 32]),
        vesting_account_address: vesting,
        vesting_account: None,
        mint: Address::new([9; 32]),
        treasury_token_account_address: treasury,
        treasury_token_account: None,
    };

    let mut ctx = fresh.clone();
    assert_eq!(
        ctx.create_with_addresses("acme".to_string(), None, Some((treasury, 3))),
        Err(ErrorCode::AddressNotDerivable)
    );
    let mut ctx = fresh.clone();
    assert_eq!(
        ctx.create_with_addresses("acme".to_string(), Some((vesting, 4)), None),
        Err(ErrorCode::AddressNotDerivable)
    );
    let mut ctx = fresh.clone();
    assert_eq!(
        ctx.create_with_addresses("acme".to_string(), Some((treasury, 4)), Some((treasury, 3))),
        Err(ErrorCode::AddressMismatch)
    );
    let mut ctx = fresh.clone();
    ctx.vesting_account = Some(some_record());
    assert_eq!(
        ctx.create_with_addresses("acme".to_string(), Some((vesting, 4)), None),
        Err(ErrorCode::AccountInUse)
    );
    let mut ctx = fresh.clone();
    ctx.vesting_account = Some(some_record());
    assert_eq!(
        ctx.create_with_addresses("n".repeat(51), None, None),
        Err(ErrorCode::CompanyNameTooLong)
    );
    let mut ctx = fresh.clone();
    assert_eq!(
        ctx.create_with_addresses("acme".to_string(), Some((vesting, 4)), Some((treasury, 3))),
        Ok(())
    );
    let record = ctx.vesting_account.unwrap();
    assert_eq!(record.bump, 4);
    assert_eq!(record.treasury_bump, 3);
    assert!(record.treasury_token_account.same(&treasury));
}
