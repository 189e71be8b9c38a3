use vesting::pda::{grant_address, pool_address, treasury_address};
use vesting::{
    create_employee_account, create_employee_account_at, create_vesting_account,
    create_vesting_account_at, Account, Address, CreateEmployeeAccount, CreateVestingAccount,
    EmployeeAccount, ErrorCode, Slot, TreasuryAccount, VestingAccount,
};

fn founder() -> Address {
    Address::new([11u8; 32])
}

fn token() -> Address {
    Address::new([22u8; 32])
}

fn employee() -> Address {
    Address::new([33u8; 32])
}

fn pool_request(company_name: &str) -> CreateVestingAccount {
    let (pool, _) = pool_address(company_name).unwrap();
    let (treasury, _) = treasury_address(company_name).unwrap();
    CreateVestingAccount {
        signer: founder(),
        mint: token(),
        vesting_account: Slot { key: pool, data: None },
        token_treasury_account: Slot { key: treasury, data: None },
    }
}

fn created_pool(company_name: &str) -> Account<VestingAccount> {
    let mut ctx = pool_request(company_name);
    create_vesting_account(&mut ctx, company_name.to_string()).unwrap();
    Account { key: ctx.vesting_account.key, data: ctx.vesting_account.data.unwrap() }
}

fn grant_request(company_name: &str) -> CreateEmployeeAccount {
    let pool = created_pool(company_name);
    let (grant, _) = grant_address(&employee(), &pool.key).unwrap();
    CreateEmployeeAccount {
        owner: founder(),
        beneficiary: employee(),
        vesting_account: pool,
        employee_account: Slot { key: grant, data: None },
    }
}

#[test]
fn pool_is_created_in_both_places() {
    let mut ctx = pool_request("acme");
    let (pool, bump) = pool_address("acme").unwrap();
    let (treasury, treasury_bump) = treasury_address("acme").unwrap();
    assert_eq!(create_vesting_account(&mut ctx, "acme".to_string()), Ok(()));
    assert_eq!(
        ctx.vesting_account,
        Slot {
            key: pool,
            data: Some(VestingAccount {
                owner: founder(),
                mint: token(),
                token_treasury: treasury,
                company_name: "acme".to_string(),
                treasury_bump,
                bump,
            }),
        }
    );
    assert_eq!(
        ctx.token_treasury_account,
        Slot { key: treasury, data: Some(TreasuryAccount { mint: token(), authority: treasury }) }
    );
    assert_eq!(ctx.signer, founder());
    assert_eq!(ctx.mint, token());
}

#[test]
fn pool_name_of_51_bytes_is_too_long() {
    let name = "a".repeat(51);
    let mut ctx = pool_request("acme");
    let before = ctx.clone();
    assert_eq!(create_vesting_account(&mut ctx, name), Err(ErrorCode::NameTooLong));
    assert_eq!(ctx, before);
}

#[test]
fn pool_name_is_measured_in_bytes() {
    let name = "\u{20ac}".repeat(17);
    assert_eq!(name.chars().count(), 17);
    assert_eq!(name.len(), 51);
    let mut ctx = pool_request("acme");
    assert_eq!(create_vesting_account(&mut ctx, name), Err(ErrorCode::NameTooLong));
    let shorter = "\u{20ac}".repeat(10);
    let mut fitting = pool_request(&shorter);
    assert_eq!(create_vesting_account(&mut fitting, shorter), Ok(()));
}

#[test]
fn pool_name_of_50_bytes_is_accepted() {
    let name = "a".repeat(50);
    let mut ctx = pool_request(&name);
    let (pool, bump) = pool_address(&name).unwrap();
    let (treasury, treasury_bump) = treasury_address(&name).unwrap();
    assert_eq!(create_vesting_account(&mut ctx, name.clone()), Ok(()));
    assert_eq!(
        ctx.vesting_account.data,
        Some(VestingAccount {
            owner: founder(),
            mint: token(),
            token_treasury: treasury,
            company_name: name.clone(),
            treasury_bump,
            bump,
        })
    );
    assert_eq!(ctx.vesting_account.key, pool);
    assert_eq!(ctx.vesting_account.data.as_ref().unwrap().company_name.len(), 50);
    assert_eq!(create_vesting_account(&mut ctx, name), Err(ErrorCode::AlreadyExists));
}

#[test]
fn pool_name_of_33_bytes_is_accepted() {
    let name = "a".repeat(33);
    let mut ctx = pool_request(&name);
    assert_eq!(create_vesting_account(&mut ctx, name.clone()), Ok(()));
    assert_eq!(ctx.vesting_account.data.unwrap().company_name, name);
}

#[test]
fn pool_under_the_places_of_another_name_is_refused() {
    let name = "a".repeat(50);
    let mut ctx = pool_request("acme");
    let before = ctx.clone();
    assert_eq!(create_vesting_account(&mut ctx, name), Err(ErrorCode::Unauthorized));
    assert_eq!(ctx, before);
}

#[test]
fn pool_name_of_32_bytes_is_accepted() {
    let name = "b".repeat(32);
    let mut ctx = pool_request(&name);
    assert_eq!(create_vesting_account(&mut ctx, name.clone()), Ok(()));
    assert_eq!(ctx.vesting_account.data.unwrap().company_name, name);
}

#[test]
fn pool_at_another_address_is_refused() {
    let mut ctx = pool_request("acme");
    ctx.vesting_account.key = pool_address("other").unwrap().0;
    let before = ctx.clone();
    assert_eq!(create_vesting_account(&mut ctx, "acme".to_string()), Err(ErrorCode::Unauthorized));
    assert_eq!(ctx, before);
}

#[test]
fn treasury_at_another_address_is_refused() {
    let mut ctx = pool_request("acme");
    ctx.token_treasury_account.key = pool_address("acme").unwrap().0;
    let before = ctx.clone();
    assert_eq!(create_vesting_account(&mut ctx, "acme".to_string()), Err(ErrorCode::Unauthorized));
    assert_eq!(ctx, before);
}

#[test]
fn second_pool_of_one_name_already_exists() {
    let mut ctx = pool_request("acme");
    assert_eq!(create_vesting_account(&mut ctx, "acme".to_string()), Ok(()));
    let after_first = ctx.clone();
    assert_eq!(create_vesting_account(&mut ctx, "acme".to_string()), Err(ErrorCode::AlreadyExists));
    assert_eq!(ctx, after_first);
}

#[test]
fn second_pool_by_another_signer_already_exists() {
    let mut first = pool_request("acme");
    assert_eq!(create_vesting_account(&mut first, "acme".to_string()), Ok(()));
    let mut second = CreateVestingAccount {
        signer: Address::new([99u8; 32]),
        mint: Address::new([98u8; 32]),
        vesting_account: first.vesting_account.clone(),
        token_treasury_account: first.token_treasury_account.clone(),
    };
    let before = second.clone();
    assert_eq!(
        create_vesting_account(&mut second, "acme".to_string()),
        Err(ErrorCode::AlreadyExists)
    );
    assert_eq!(second, before);
    assert_eq!(second.vesting_account.data.unwrap().owner, founder());
}

#[test]
fn pool_with_taken_treasury_already_exists() {
    let mut ctx = pool_request("acme");
    let treasury = ctx.token_treasury_account.key;
    ctx.token_treasury_account.data = Some(TreasuryAccount { mint: token(), authority: treasury });
    let before = ctx.clone();
    assert_eq!(create_vesting_account(&mut ctx, "acme".to_string()), Err(ErrorCode::AlreadyExists));
    assert_eq!(ctx, before);
}

#[test]
fn pools_of_two_names_both_exist() {
    let first = created_pool("acme");
    let second = created_pool("globex");
    assert_ne!(first.key, second.key);
    assert_ne!(first.data.token_treasury, second.data.token_treasury);
}

#[test]
fn grant_is_created_as_given() {
    let mut ctx = grant_request("acme");
    let pool = ctx.vesting_account.clone();
    let (grant, bump) = grant_address(&employee(), &pool.key).unwrap();
    assert_eq!(create_employee_account(&mut ctx, 1000, 2000, 1200, 1000), Ok(()));
    assert_eq!(
        ctx.employee_account,
        Slot {
            key: grant,
            data: Some(EmployeeAccount {
                beneficiary: employee(),
                vesting_account: pool.key,
                start_date: 1000,
                end_date: 2000,
                cliff_date: 1200,
                total_amount: 1000,
                total_withdrawn: 0,
                bump,
            }),
        }
    );
    assert_eq!(ctx.vesting_account, pool);
    assert_eq!(ctx.owner, founder());
    assert_eq!(ctx.beneficiary, employee());
}

#[test]
fn grant_schedule_is_not_checked_at_creation() {
    let mut reversed = grant_request("acme");
    assert_eq!(create_employee_account(&mut reversed, 2000, 1000, 5000, 7), Ok(()));
    let stored = reversed.employee_account.data.unwrap();
    assert_eq!((stored.start_date, stored.end_date, stored.cliff_date), (2000, 1000, 5000));
    let mut zero = grant_request("acme");
    assert_eq!(create_employee_account(&mut zero, 0, 0, 0, 0), Ok(()));
    assert_eq!(zero.employee_account.data.unwrap().total_amount, 0);
    let mut largest = grant_request("acme");
    assert_eq!(create_employee_account(&mut largest, u64::MAX, u64::MAX, u64::MAX, u64::MAX), Ok(()));
    assert_eq!(largest.employee_account.data.unwrap().total_withdrawn, 0);
}

#[test]
fn grant_by_another_than_the_owner_is_refused() {
    let mut ctx = grant_request("acme");
    ctx.owner = employee();
    let before = ctx.clone();
    assert_eq!(
        create_employee_account(&mut ctx, 1000, 2000, 1200, 1000),
        Err(ErrorCode::Unauthorized)
    );
    assert_eq!(ctx, before);
}

#[test]
fn grant_at_another_address_is_refused() {
    let mut ctx = grant_request("acme");
    ctx.employee_account.key = grant_address(&founder(), &ctx.vesting_account.key).unwrap().0;
    let before = ctx.clone();
    assert_eq!(
        create_employee_account(&mut ctx, 1000, 2000, 1200, 1000),
        Err(ErrorCode::Unauthorized)
    );
    assert_eq!(ctx, before);
}

#[test]
fn second_grant_of_one_beneficiary_already_exists() {
    let mut ctx = grant_request("acme");
    assert_eq!(create_employee_account(&mut ctx, 1000, 2000, 1200, 1000), Ok(()));
    let after_first = ctx.clone();
    assert_eq!(
        create_employee_account(&mut ctx, 1, 2, 3, 4),
        Err(ErrorCode::AlreadyExists)
    );
    assert_eq!(ctx, after_first);
}

#[test]
fn unauthorized_comes_before_already_exists() {
    let mut ctx = grant_request("acme");
    assert_eq!(create_employee_account(&mut ctx, 1000, 2000, 1200, 1000), Ok(()));
    ctx.owner = employee();
    assert_eq!(
        create_employee_account(&mut ctx, 1000, 2000, 1200, 1000),
        Err(ErrorCode::Unauthorized)
    );
}

#[test]
fn grants_of_one_beneficiary_under_two_pools() {
    let mut first = grant_request("acme");
    let mut second = grant_request("globex");
    assert_ne!(first.employee_account.key, second.employee_account.key);
    assert_eq!(create_employee_account(&mut first, 1000, 2000, 1200, 1000), Ok(()));
    assert_eq!(create_employee_account(&mut second, 1000, 2000, 1200, 1000), Ok(()));
}

#[test]
fn pool_is_created_at_the_addresses_given() {
    let pool = Address::new([1u8; 32]);
    let treasury = Address::new([2u8; 32]);
    let mut ctx = CreateVestingAccount {
        signer: founder(),
        mint: token(),
        vesting_account: Slot { key: pool, data: None },
        token_treasury_account: Slot { key: treasury, data: None },
    };
    let created = create_vesting_account_at(
        &mut ctx,
        "acme".to_string(),
        Some((pool, 250)),
        Some((treasury, 251)),
    );
    assert_eq!(created, Ok(()));
    assert_eq!(
        ctx.vesting_account.data,
        Some(VestingAccount {
            owner: founder(),
            mint: token(),
            token_treasury: treasury,
            company_name: "acme".to_string(),
            treasury_bump: 251,
            bump: 250,
        })
    );
    assert_eq!(
        ctx.token_treasury_account.data,
        Some(TreasuryAccount { mint: token(), authority: treasury })
    );
}

#[test]
fn pool_without_a_derived_address_is_refused() {
    let pool = Address::new([1u8; 32]);
    let treasury = Address::new([2u8; 32]);
    let vacant = CreateVestingAccount {
        signer: founder(),
        mint: token(),
        vesting_account: Slot { key: pool, data: None },
        token_treasury_account: Slot { key: treasury, data: None },
    };
    let mut ctx = vacant.clone();
    assert_eq!(
        create_vesting_account_at(&mut ctx, "acme".to_string(), None, Some((treasury, 251))),
        Err(ErrorCode::Unauthorized)
    );
    assert_eq!(
        create_vesting_account_at(&mut ctx, "acme".to_string(), Some((pool, 250)), None),
        Err(ErrorCode::Unauthorized)
    );
    assert_eq!(
        create_vesting_account_at(
            &mut ctx,
            "acme".to_string(),
            Some((treasury, 250)),
            Some((pool, 251))
        ),
        Err(ErrorCode::Unauthorized)
    );
    assert_eq!(
        create_vesting_account_at(&mut ctx, "a".repeat(51), None, None),
        Err(ErrorCode::NameTooLong)
    );
    assert_eq!(ctx, vacant);
}

#[test]
fn pool_name_of_50_bytes_fits_the_record() {
    let pool = Address::new([1u8; 32]);
    let treasury = Address::new([2u8; 32]);
    let mut ctx = CreateVestingAccount {
        signer: founder(),
        mint: token(),
        vesting_account: Slot { key: pool, data: None },
        token_treasury_account: Slot { key: treasury, data: None },
    };
    let name = "c".repeat(50);
    assert_eq!(
        create_vesting_account_at(&mut ctx, name.clone(), Some((pool, 250)), Some((treasury, 251))),
        Ok(())
    );
    assert_eq!(ctx.vesting_account.data.unwrap().company_name, name);
}

#[test]
fn grant_is_created_at_the_address_given() {
    let pool = created_pool("acme");
    let place = Address::new([3u8; 32]);
    let mut ctx = CreateEmployeeAccount {
        owner: founder(),
        beneficiary: employee(),
        vesting_account: pool.clone(),
        employee_account: Slot { key: place, data: None },
    };
    let vacant = ctx.clone();
    assert_eq!(
        create_employee_account_at(&mut ctx, 10, 20, 30, 40, None),
        Err(ErrorCode::Unauthorized)
    );
    assert_eq!(
        create_employee_account_at(&mut ctx, 10, 20, 30, 40, Some((pool.key, 9))),
        Err(ErrorCode::Unauthorized)
    );
    assert_eq!(ctx, vacant);
    assert_eq!(create_employee_account_at(&mut ctx, 10, 20, 30, 40, Some((place, 9))), Ok(()));
    assert_eq!(
        ctx.employee_account.data,
        Some(EmployeeAccount {
            beneficiary: employee(),
            vesting_account: pool.key,
            start_date: 10,
            end_date: 20,
            cliff_date: 30,
            total_amount: 40,
            total_withdrawn: 0,
            bump: 9,
        })
    );
    assert_eq!(
        create_employee_account_at(&mut ctx, 10, 20, 30, 40, Some((place, 9))),
        Err(ErrorCode::AlreadyExists)
    );
}

#[test]
fn pool_and_treasury_at_one_address_are_refused() {
    let place = Address::new([1u8; 32]);
    let mut ctx = CreateVestingAccount {
        signer: founder(),
        mint: token(),
        vesting_account: Slot { key: place, data: None },
        token_treasury_account: Slot { key: place, data: None },
    };
    let before = ctx.clone();
    assert_eq!(
        create_vesting_account_at(
            &mut ctx,
            "acme".to_string(),
            Some((place, 250)),
            Some((place, 251))
        ),
        Err(ErrorCode::AlreadyExists)
    );
    assert_eq!(ctx, before);
}
