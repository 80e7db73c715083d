use vesting::address::{
    find_employee_account_address, find_treasury_address, find_vesting_account_address, Address,
};
use vesting::employee::{create_employee_vesting, CreateEmployeeAccount, EmployeeAccount};
use vesting::error::ErrorCode;
use vesting::registry::VestingAccount;

fn program_id() -> Address {
    Address::new([7; 32])
}

fn owner() -> Address {
    Address::new([1; 32])
}

fn beneficiary() -> Address {
    Address::new([2; 32])
}

fn enrollment() -> CreateEmployeeAccount {
    let (company, bump) = find_vesting_account_address(&program_id(), "acme").unwrap();
    let (treasury, treasury_bump) = find_treasury_address(&program_id(), "acme").unwrap();
    CreateEmployeeAccount {
        owner: owner(),
        beneficiary: beneficiary(),
        vesting_account_address: company,
        vesting_account: VestingAccount {
            owner: owner(),
            mint: Address::new([9; 32]),
            treasury_token_account: treasury,
            company_name: "acme".to_string(),
            treasury_bump,
            bump,
        },
        employee_account_address: find_employee_account_address(
            &program_id(),
            &beneficiary(),
            &company,
        )
        .unwrap()
        .0,
        employee_account: None,
    }
}

#[test]
fn create_employee_vesting_records_the_schedule() {
    let mut ctx = enrollment();
    assert_eq!(create_employee_vesting(&program_id(), &mut ctx, 100, 900, 5000, 300), Ok(()));
    let record = ctx.employee_account.unwrap();
    assert!(record.beneficiary.same(&beneficiary()));
    assert!(record.vesting_account.same(&ctx.vesting_account_address));
    assert_eq!(record.start_time, 100);
    assert_eq!(record.end_time, 900);
    assert_eq!(record.total_amount, 5000);
    assert_eq!(record.cliff_time, 300);
    assert_eq!(record.total_withdrawn, 0);
    assert_eq!(record.bump, 254);
}

#[test]
fn create_employee_vesting_does_not_order_the_times() {
    let mut ctx = enrollment();
    assert_eq!(create_employee_vesting(&program_id(), &mut ctx, 900, 100, -5, 2000), Ok(()));
    let record = ctx.employee_account.unwrap();
    assert_eq!(record.start_time, 900);
    assert_eq!(record.end_time, 100);
    assert_eq!(record.total_amount, -5);
    assert_eq!(record.cliff_time, 2000);
}

#[test]
fn create_employee_vesting_refuses_another_caller() {
    let mut ctx = enrollment();
    ctx.owner = Address::new([4; 32]);
    assert_eq!(
        create_employee_vesting(&program_id(), &mut ctx, 100, 900, 5000, 300),
        Err(ErrorCode::Unauthorized)
    );
    assert!(ctx.employee_account.is_none());
}

#[test]
fn create_employee_vesting_refuses_a_second_schedule() {
    let mut ctx = enrollment();
    create_employee_vesting(&program_id(), &mut ctx, 100, 900, 5000, 300).unwrap();
    assert_eq!(
        create_employee_vesting(&program_id(), &mut ctx, 0, 10, 1, 0),
        Err(ErrorCode::AccountInUse)
    );
    let record = ctx.employee_account.unwrap();
    assert_eq!(record.total_amount, 5000);
    assert_eq!(record.end_time, 900);
}

#[test]
fn create_employee_vesting_refuses_another_address() {
    let mut ctx = enrollment();
    ctx.beneficiary = Address::new([3; 32]);
    assert_eq!(
        create_employee_vesting(&program_id(), &mut ctx, 100, 900, 5000, 300),
        Err(ErrorCode::AddressMismatch)
    );
    assert!(ctx.employee_account.is_none());

    let mut ctx = enrollment();
    ctx.employee_account_address = Address::new([3; 32]);
    assert_eq!(
        create_employee_vesting(&program_id(), &mut ctx, 100, 900, 5000, 300),
        Err(ErrorCode::AddressMismatch)
    );
}

#[test]
fn create_with_address_checks_in_order() {
    let fresh = enrollment();
    let address = fresh.employee_account_address;

    let mut ctx = fresh.clone();
    assert_eq!(
        ctx.create_with_address(1, 2, 3, 4, None),
        Err(ErrorCode::AddressNotDerivable)
    );
    let mut ctx = fresh.clone();
    ctx.owner = Address::new([4; 32]);
    assert_eq!(ctx.create_with_address(1, 2, 3, 4, None), Err(ErrorCode::Unauthorized));
    let mut ctx = fresh.clone();
    assert_eq!(
        ctx.create_with_address(1, 2, 3, 4, Some((Address::new([3; 32]), 9))),
        Err(ErrorCode::AddressMismatch)
    );
    let mut ctx = fresh.clone();
    ctx.employee_account = Some(EmployeeAccount {
        beneficiary: beneficiary(),
        start_time: 0,
        end_time: 1,
        total_amount: 1,
        total_withdrawn: 1,
        cliff_time: 0,
        vesting_account: fresh.vesting_account_address,
        bump: 1,
    });
    assert_eq!(
        ctx.create_with_address(1, 2, 3, 4, Some((address, 9))),
        Err(ErrorCode::AccountInUse)
    );
    assert_eq!(ctx.employee_account.unwrap().total_withdrawn, 1);
    let mut ctx = fresh.clone();
    assert_eq!(ctx.create_with_address(1, 2, 3, 4, Some((address, 9))), Ok(()));
    let record = ctx.employee_account.unwrap();
    assert_eq!(record.bump, 9);
    assert_eq!(
        (record.start_time, record.end_time, record.total_amount, record.cliff_time),
        (1, 2, 3, 4)
    );
}
