//! An employee's schedule and what it has released.

use crate::address::{
    created_program_address, employee_seeds, find_employee_account_address, found_address,
    found_bump, found_program_address, found_view, with_bump, Address,
};
use crate::error::ErrorCode;
use crate::registry::VestingAccount;
use vstd::prelude::*;

verus! {

/// `later - earlier`, held between zero and the largest 64-bit value.
pub open spec fn saturating_span(later: int, earlier: int) -> int {
    if later <= earlier {
        0
    } else if later - earlier > i64::MAX {
        i64::MAX as int
    } else {
        later - earlier
    }
}

/// One beneficiary's allocation under one company.
///
/// The allocation unlocks in proportion to the time since `start_time`,
/// all of it from `end_time` on, and nothing can be claimed before
/// `cliff_time`. The order of the three times is not enforced.
#[derive(Clone, Copy, Debug)]
pub struct EmployeeAccount {
    pub beneficiary: Address,
    pub start_time: i64,
    pub end_time: i64,
    pub total_amount: i64,
    pub total_withdrawn: i64,
    pub cliff_time: i64,
    pub vesting_account: Address,
    pub bump: u8,
}

impl EmployeeAccount {
    /// What holds of every record that was created here and changed only by
    /// claims: nothing negative was withdrawn, and no more than the whole.
    pub open spec fn well_formed(&self) -> bool {
        0 <= self.total_withdrawn <= self.total_amount
    }

    /// Whether the recorded beneficiary, company and bump give, under
    /// `program_id`, the address `address` for this record.
    pub open spec fn derives(&self, program_id: Seq<u8>, address: Seq<u8>) -> bool {
        created_program_address(
            with_bump(employee_seeds(self.beneficiary@, self.vesting_account@), self.bump),
            program_id,
        ) == Some(address)
    }

    /// Seconds since the start, never negative.
    pub open spec fn elapsed_at(&self, now: i64) -> int {
        saturating_span(now as int, self.start_time as int)
    }

    /// Seconds from start to end, never negative.
    pub open spec fn duration(&self) -> int {
        saturating_span(self.end_time as int, self.start_time as int)
    }

    /// Before the end, whether the product of amount and elapsed time leaves
    /// the 64-bit range.
    pub open spec fn overflows_at(&self, now: i64) -> bool {
        now < self.end_time && !(i64::MIN <= self.total_amount * self.elapsed_at(now) <= i64::MAX)
    }

    /// Before the end of a schedule that ends no later than it starts, the
    /// share of elapsed time is undefined.
    pub open spec fn undefined_at(&self, now: i64) -> bool {
        now < self.end_time <= self.start_time
    }

    /// The amount unlocked at `now`: the whole from the end on, before it the
    /// share of elapsed time, rounded down.
    pub open spec fn vested_at(&self, now: i64) -> int {
        if now >= self.end_time {
            self.total_amount as int
        } else {
            (self.total_amount * self.elapsed_at(now)) / self.duration()
        }
    }

    /// The amount unlocked at `now` and not yet withdrawn, never negative.
    pub open spec fn claimable_at(&self, now: i64) -> int {
        saturating_span(self.vested_at(now), self.total_withdrawn as int)
    }

    /// What a claim at `now` gives: the amount to transfer, or why there is
    /// none.
    pub open spec fn claim_result(&self, now: i64) -> Result<i64, ErrorCode> {
        if now < self.cliff_time {
            Err(ErrorCode::ClaimNotAvailableYet)
        } else if self.overflows_at(now) {
            Err(ErrorCode::CalculationOverflow)
        } else if self.claimable_at(now) == 0 {
            Err(ErrorCode::NothingToClaim)
        } else {
            Ok(self.claimable_at(now) as i64)
        }
    }

    /// The record after a claim at `now`: unchanged when the claim fails,
    /// else with the transferred amount added to what was withdrawn.
    pub open spec fn after_claim(&self, now: i64) -> EmployeeAccount {
        match self.claim_result(now) {
            Ok(amount) => EmployeeAccount {
                total_withdrawn: (self.total_withdrawn + amount) as i64,
                ..*self
            },
            Err(_) => *self,
        }
    }

    /// The amount unlocked at `now`.
    pub fn vested_amount(&self, now: i64) -> (vested: Result<i64, ErrorCode>)
        requires
            !self.undefined_at(now),
        ensures
            self.overflows_at(now) ==> vested == Err::<i64, ErrorCode>(
                ErrorCode::CalculationOverflow,
            ),
            !self.overflows_at(now) ==> vested == Ok::<i64, ErrorCode>(self.vested_at(now) as i64)
                && i64::MIN <= self.vested_at(now) <= i64::MAX,
    {
        if now >= self.end_time {
            return Ok(self.total_amount);
        }
        let elapsed = span(now, self.start_time);
        let duration = span(self.end_time, self.start_time);
        match self.total_amount.checked_mul(elapsed) {
            None => Err(ErrorCode::CalculationOverflow),
            Some(product) => {
                proof {
                    lemma_quotient_within(product as int, duration as int);
                }
                match product.checked_div_euclid(duration) {
                    Some(share) => Ok(share),
                    None => Err(ErrorCode::CalculationOverflow),
                }
            },
        }
    }

    /// The amount unlocked at `now` and not yet withdrawn.
    pub fn claimable_amount(&self, now: i64) -> (claimable: Result<i64, ErrorCode>)
        requires
            !self.undefined_at(now),
        ensures
            self.overflows_at(now) ==> claimable == Err::<i64, ErrorCode>(
                ErrorCode::CalculationOverflow,
            ),
            !self.overflows_at(now) ==> claimable == Ok::<i64, ErrorCode>(
                self.claimable_at(now) as i64,
            ) && 0 <= self.claimable_at(now) <= i64::MAX && self.total_withdrawn
                + self.claimable_at(now) <= i64::MAX,
    {
        match self.vested_amount(now) {
            Ok(vested) => Ok(span(vested, self.total_withdrawn)),
            Err(error) => Err(error),
        }
    }

    /// Claims at `now`: past the cliff, what has unlocked and was not yet
    /// withdrawn is added to `total_withdrawn` and returned for transfer.
    pub fn claim(&mut self, now: i64) -> (claimed: Result<i64, ErrorCode>)
        requires
            old(self).cliff_time <= now ==> !old(self).undefined_at(now),
        ensures
            claimed == old(self).claim_result(now),
            *final(self) == old(self).after_claim(now),
            claimed matches Ok(amount) ==> amount > 0 && final(self).total_withdrawn == old(
                self,
            ).total_withdrawn + amount,
            claimed is Err ==> *final(self) == *old(self),
    {
        if now < self.cliff_time {
            return Err(ErrorCode::ClaimNotAvailableYet);
        }
        match self.claimable_amount(now) {
            Err(error) => Err(error),
            Ok(claimable) => {
                if claimable == 0 {
                    return Err(ErrorCode::NothingToClaim);
                }
                self.total_withdrawn = self.total_withdrawn + claimable;
                Ok(claimable)
            },
        }
    }
}

/// The accounts presented to register an employee under a company.
#[derive(Clone, Debug)]
pub struct CreateEmployeeAccount {
    /// Who signed: it must be the owner that the vesting record names.
    pub owner: Address,
    pub beneficiary: Address,
    /// Where the company's vesting record stands.
    pub vesting_account_address: Address,
    pub vesting_account: VestingAccount,
    /// Where the employee's record is to stand.
    pub employee_account_address: Address,
    /// What stands there: `None` while the address is free.
    pub employee_account: Option<EmployeeAccount>,
}

impl CreateEmployeeAccount {
    /// Whether the employee can be registered, given the address found for
    /// the new record.
    pub open spec fn create_result(&self, employee: Option<(Seq<u8>, u8)>) -> Result<
        (),
        ErrorCode,
    > {
        if self.vesting_account.owner@ != self.owner@ {
            Err(ErrorCode::Unauthorized)
        } else if employee is None {
            Err(ErrorCode::AddressNotDerivable)
        } else if found_address(employee) != self.employee_account_address@ {
            Err(ErrorCode::AddressMismatch)
        } else if self.employee_account is Some {
            Err(ErrorCode::AccountInUse)
        } else {
            Ok(())
        }
    }

    /// The accounts after the employee was registered: the new record holds
    /// the schedule as given, and nothing withdrawn.
    pub open spec fn created(
        &self,
        start_time: i64,
        end_time: i64,
        total_amount: i64,
        cliff_time: i64,
        bump: u8,
    ) -> CreateEmployeeAccount {
        CreateEmployeeAccount {
            employee_account: Some(
                EmployeeAccount {
                    beneficiary: self.beneficiary,
                    start_time,
                    end_time,
                    total_amount,
                    total_withdrawn: 0,
                    cliff_time,
                    vesting_account: self.vesting_account_address,
                    bump,
                },
            ),
            ..*self
        }
    }

    /// Registers the employee, given the address found for the new record.
    /// The schedule is taken as it is: the order of its times is not checked.
    pub fn create_with_address(
        &mut self,
        start_time: i64,
        end_time: i64,
        total_amount: i64,
        cliff_time: i64,
        employee: Option<(Address, u8)>,
    ) -> (outcome: Result<(), ErrorCode>)
        ensures
            outcome == old(self).create_result(found_view(employee)),
            outcome is Err ==> *final(self) == *old(self),
            outcome is Ok ==> *final(self) == old(self).created(
                start_time,
                end_time,
                total_amount,
                cliff_time,
                found_bump(found_view(employee)),
            ),
    {
        if !self.vesting_account.owner.same(&self.owner) {
            return Err(ErrorCode::Unauthorized);
        }
        let (employee_address, bump) = match employee {
            Some(found) => found,
            None => {
                return Err(ErrorCode::AddressNotDerivable);
            },
        };
        if !employee_address.same(&self.employee_account_address) {
            return Err(ErrorCode::AddressMismatch);
        }
        if self.employee_account.is_some() {
            return Err(ErrorCode::AccountInUse);
        }
        self.employee_account = Some(
            EmployeeAccount {
                beneficiary: self.beneficiary,
                start_time,
                end_time,
                total_amount,
                total_withdrawn: 0,
                cliff_time,
                vesting_account: self.vesting_account_address,
                bump,
            },
        );
        Ok(())
    }
}

/// Registers an employee under a company: the signer must be the owner that
/// the vesting record names, and the new record stands at the address
/// derived from the beneficiary and the vesting record, which must be the
/// presented one and free.
pub fn create_employee_vesting(
    program_id: &Address,
    ctx: &mut CreateEmployeeAccount,
    start_time: i64,
    end_time: i64,
    total_amount: i64,
    cliff_time: i64,
) -> (outcome: Result<(), ErrorCode>)
    ensures
        outcome == old(ctx).create_result(
            found_program_address(
                employee_seeds(old(ctx).beneficiary@, old(ctx).vesting_account_address@),
                program_id@,
            ),
        ),
        outcome is Err ==> *final(ctx) == *old(ctx),
        outcome is Ok ==> *final(ctx) == old(ctx).created(
            start_time,
            end_time,
            total_amount,
            cliff_time,
            found_bump(
                found_program_address(
                    employee_seeds(old(ctx).beneficiary@, old(ctx).vesting_account_address@),
                    program_id@,
                ),
            ),
        ),
        outcome is Ok ==> (final(ctx).employee_account matches Some(record) && record.derives(
            program_id@,
            old(ctx).employee_account_address@,
        )),
{
    let employee = find_employee_account_address(
        program_id,
        &ctx.beneficiary,
        &ctx.vesting_account_address,
    );
    ctx.create_with_address(start_time, end_time, total_amount, cliff_time, employee)
}

/// `later - earlier`, held between zero and the largest 64-bit value.
pub fn span(later: i64, earlier: i64) -> (between: i64)
    ensures
        between == saturating_span(later as int, earlier as int),
{
    if later <= earlier {
        0
    } else {
        match later.checked_sub(earlier) {
            Some(difference) => difference,
            None => i64::MAX,
        }
    }
}

/// A 64-bit value divided by a positive one stays in the 64-bit range.
pub(crate) proof fn lemma_quotient_within(product: int, divisor: int)
    by (nonlinear_arith)
    requires
        i64::MIN <= product <= i64::MAX,
        0 < divisor,
    ensures
        i64::MIN <= product / divisor <= i64::MAX,
{
}

} // verus!
