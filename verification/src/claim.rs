//! Claims: from an employee's record and the time to the transfer that is due.

use crate::address::{
    build_employee_seeds, build_treasury_seeds, build_vesting_account_seeds,
    create_program_address, created_program_address, created_view, employee_seeds, push_bump,
    treasury_seeds, vesting_account_seeds, with_bump, Address,
};
use crate::employee::EmployeeAccount;
use crate::error::ErrorCode;
use crate::laws::law_claim_keeps_record_sound;
use crate::registry::VestingAccount;
use vstd::prelude::*;

verus! {

/// The accounts presented with a claim.
#[derive(Clone, Debug)]
pub struct ClaimTokens {
    /// Who signed: it must be the beneficiary that the employee's record
    /// names.
    pub beneficiary: Address,
    /// Where the employee's record stands.
    pub employee_account_address: Address,
    pub employee_account: EmployeeAccount,
    /// Where the company's vesting record stands.
    pub vesting_account_address: Address,
    pub vesting_account: VestingAccount,
    pub mint: Address,
    /// The decimals of the mint.
    pub decimals: u8,
    /// The token account to pay from.
    pub treasury_token_account: Address,
    /// The beneficiary's token account, to pay to.
    pub employee_token_account: Address,
}

/// A transfer of tokens that the program authorizes. The authority is an
/// address derived from `signer_seeds`: to present them is to sign for it.
#[derive(Clone, Debug)]
pub struct TransferChecked {
    pub from: Address,
    pub mint: Address,
    pub to: Address,
    pub authority: Address,
    pub amount: u64,
    pub decimals: u8,
    pub signer_seeds: Vec<Vec<u8>>,
}

impl ClaimTokens {
    /// The seeds, bump included, from which the employee's record's address
    /// is derived.
    pub open spec fn employee_signer_seeds(&self) -> Seq<Seq<u8>> {
        with_bump(
            employee_seeds(self.beneficiary@, self.vesting_account_address@),
            self.employee_account.bump,
        )
    }

    /// The seeds, bump included, from which the vesting record's address is
    /// derived for the company named in the claim.
    pub open spec fn vesting_signer_seeds(&self, company_name: Seq<char>) -> Seq<Seq<u8>> {
        with_bump(vesting_account_seeds(company_name), self.vesting_account.bump)
    }

    /// The seeds, bump included, that sign for the treasury.
    pub open spec fn treasury_signer_seeds(&self) -> Seq<Seq<u8>> {
        with_bump(
            treasury_seeds(self.vesting_account.company_name@),
            self.vesting_account.treasury_bump,
        )
    }

    /// Whether the presented accounts belong together, given the addresses
    /// derived again for the employee's record, the vesting record and the
    /// treasury. The checks come in this order, and the first that fails
    /// decides.
    pub open spec fn check_result(
        &self,
        employee: Option<Seq<u8>>,
        vesting: Option<Seq<u8>>,
        treasury: Option<Seq<u8>>,
    ) -> Result<(), ErrorCode> {
        if employee != Some(self.employee_account_address@) {
            Err(ErrorCode::AddressMismatch)
        } else if self.employee_account.beneficiary@ != self.beneficiary@ {
            Err(ErrorCode::Unauthorized)
        } else if self.employee_account.vesting_account@ != self.vesting_account_address@ {
            Err(ErrorCode::AccountMismatch)
        } else if vesting != Some(self.vesting_account_address@) {
            Err(ErrorCode::AddressMismatch)
        } else if self.vesting_account.treasury_token_account@ != self.treasury_token_account@ {
            Err(ErrorCode::AccountMismatch)
        } else if self.vesting_account.mint@ != self.mint@ {
            Err(ErrorCode::AccountMismatch)
        } else if treasury != Some(self.treasury_token_account@) {
            Err(ErrorCode::AddressMismatch)
        } else {
            Ok(())
        }
    }

    /// What a claim at `now` gives, given the derived addresses: the amount
    /// to transfer, or the first reason why there is none.
    pub open spec fn claim_result(
        &self,
        employee: Option<Seq<u8>>,
        vesting: Option<Seq<u8>>,
        treasury: Option<Seq<u8>>,
        now: i64,
    ) -> Result<u64, ErrorCode> {
        match self.check_result(employee, vesting, treasury) {
            Err(error) => Err(error),
            Ok(_) => match self.employee_account.claim_result(now) {
                Ok(amount) => Ok(amount as u64),
                Err(error) => Err(error),
            },
        }
    }

    /// The accounts after a claim at `now` that gave `claimed`: only the
    /// employee's record changes, and only when the claim succeeds.
    pub open spec fn after_claim(&self, claimed: Result<u64, ErrorCode>, now: i64) -> ClaimTokens {
        if claimed is Ok {
            ClaimTokens { employee_account: self.employee_account.after_claim(now), ..*self }
        } else {
            *self
        }
    }

    /// Whether `transfer` moves tokens of the presented mint from the
    /// treasury to the beneficiary's token account, signed for the treasury
    /// with its seeds.
    pub open spec fn authorizes(&self, transfer: TransferChecked) -> bool {
        &&& transfer.from == self.treasury_token_account
        &&& transfer.mint == self.mint
        &&& transfer.to == self.employee_token_account
        &&& transfer.authority == self.treasury_token_account
        &&& transfer.decimals == self.decimals
        &&& transfer.signer_seeds.deep_view() == self.treasury_signer_seeds()
    }

    /// Checks that the presented accounts belong together, given the
    /// addresses derived again from their seeds.
    pub fn check_accounts(
        &self,
        employee: Option<Address>,
        vesting: Option<Address>,
        treasury: Option<Address>,
    ) -> (outcome: Result<(), ErrorCode>)
        ensures
            outcome == self.check_result(
                created_view(employee),
                created_view(vesting),
                created_view(treasury),
            ),
    {
        if !is_address(employee, &self.employee_account_address) {
            return Err(ErrorCode::AddressMismatch);
        }
        if !self.employee_account.beneficiary.same(&self.beneficiary) {
            return Err(ErrorCode::Unauthorized);
        }
        if !self.employee_account.vesting_account.same(&self.vesting_account_address) {
            return Err(ErrorCode::AccountMismatch);
        }
        if !is_address(vesting, &self.vesting_account_address) {
            return Err(ErrorCode::AddressMismatch);
        }
        if !self.vesting_account.treasury_token_account.same(&self.treasury_token_account) {
            return Err(ErrorCode::AccountMismatch);
        }
        if !self.vesting_account.mint.same(&self.mint) {
            return Err(ErrorCode::AccountMismatch);
        }
        if !is_address(treasury, &self.treasury_token_account) {
            return Err(ErrorCode::AddressMismatch);
        }
        Ok(())
    }

    /// Claims at `now`, given the addresses derived again from the seeds of
    /// the employee's record, the vesting record and the treasury. Where the
    /// accounts belong together and something is due, the employee's record
    /// counts it as withdrawn and the transfer to make is returned.
    pub fn claim_with_addresses(
        &mut self,
        employee: Option<Address>,
        vesting: Option<Address>,
        treasury: Option<Address>,
        now: i64,
    ) -> (claimed: Result<TransferChecked, ErrorCode>)
        requires
            old(self).check_result(
                created_view(employee),
                created_view(vesting),
                created_view(treasury),
            ) is Ok && old(self).employee_account.cliff_time <= now ==> !old(
                self,
            ).employee_account.undefined_at(now),
        ensures
            amount_of(claimed) == old(self).claim_result(
                created_view(employee),
                created_view(vesting),
                created_view(treasury),
                now,
            ),
            *final(self) == old(self).after_claim(amount_of(claimed), now),
            claimed matches Ok(transfer) ==> old(self).authorizes(transfer) && transfer.amount > 0,
    {
        match self.check_accounts(employee, vesting, treasury) {
            Err(error) => {
                return Err(error);
            },
            Ok(_) => {},
        }
        let amount = match self.employee_account.claim(now) {
            Ok(amount) => amount,
            Err(error) => {
                return Err(error);
            },
        };
        let seeds = build_treasury_seeds(self.vesting_account.company_name.as_str());
        let signer_seeds = push_bump(seeds, self.vesting_account.treasury_bump);
        Ok(
            TransferChecked {
                from: self.treasury_token_account,
                mint: self.mint,
                to: self.employee_token_account,
                authority: self.treasury_token_account,
                amount: amount as u64,
                decimals: self.decimals,
                signer_seeds,
            },
        )
    }
}

/// The amount that a claim transfers, or why it transfers none.
pub open spec fn amount_of(claimed: Result<TransferChecked, ErrorCode>) -> Result<u64, ErrorCode> {
    match claimed {
        Ok(transfer) => Ok(transfer.amount),
        Err(error) => Err(error),
    }
}

/// Whether a derived address is there and is `expected`.
fn is_address(derived: Option<Address>, expected: &Address) -> (equal: bool)
    ensures
        equal == (created_view(derived) == Some(expected@)),
{
    match derived {
        Some(address) => address.same(expected),
        None => false,
    }
}

/// The addresses of the employee's record, of the vesting record of the
/// company named `company_name` and of the treasury, each derived again from
/// its seeds and the recorded bump.
fn derive_addresses(program_id: &Address, ctx: &ClaimTokens, company_name: &str) -> (derived: (
    Option<Address>,
    Option<Address>,
    Option<Address>,
))
    ensures
        created_view(derived.0) == created_program_address(
            ctx.employee_signer_seeds(),
            program_id@,
        ),
        created_view(derived.1) == created_program_address(
            ctx.vesting_signer_seeds(company_name@),
            program_id@,
        ),
        created_view(derived.2) == created_program_address(
            ctx.treasury_signer_seeds(),
            program_id@,
        ),
{
    let employee_seeds = push_bump(
        build_employee_seeds(&ctx.beneficiary, &ctx.vesting_account_address),
        ctx.employee_account.bump,
    );
    let vesting_seeds = push_bump(
        build_vesting_account_seeds(company_name),
        ctx.vesting_account.bump,
    );
    let signer_seeds = push_bump(
        build_treasury_seeds(ctx.vesting_account.company_name.as_str()),
        ctx.vesting_account.treasury_bump,
    );
    (
        create_program_address(&employee_seeds, program_id),
        create_program_address(&vesting_seeds, program_id),
        create_program_address(&signer_seeds, program_id),
    )
}

impl ClaimTokens {
    /// Whether the presented accounts belong together under `program_id`,
    /// for the company named `company_name`.
    pub open spec fn verified(&self, program_id: Seq<u8>, company_name: Seq<char>) -> Result<
        (),
        ErrorCode,
    > {
        self.check_result(
            created_program_address(self.employee_signer_seeds(), program_id),
            created_program_address(self.vesting_signer_seeds(company_name), program_id),
            created_program_address(self.treasury_signer_seeds(), program_id),
        )
    }

    /// What a claim at `now` gives under `program_id`, for the company named
    /// `company_name`.
    pub open spec fn outcome(&self, program_id: Seq<u8>, company_name: Seq<char>, now: i64) -> Result<
        u64,
        ErrorCode,
    > {
        self.claim_result(
            created_program_address(self.employee_signer_seeds(), program_id),
            created_program_address(self.vesting_signer_seeds(company_name), program_id),
            created_program_address(self.treasury_signer_seeds(), program_id),
            now,
        )
    }

    /// Whether a claim at `now` reaches a schedule that has no share of
    /// elapsed time to give: the accounts belong together, the cliff has
    /// passed, and the schedule ends later than `now` but no later than it
    /// starts.
    pub open spec fn undefined_at(
        &self,
        program_id: Seq<u8>,
        company_name: Seq<char>,
        now: i64,
    ) -> bool {
        &&& self.verified(program_id, company_name) is Ok
        &&& self.employee_account.cliff_time <= now
        &&& self.employee_account.undefined_at(now)
    }
}

/// Serves a claim at `now` for the company named `company_name`, under
/// `program_id`.
///
/// The addresses of the employee's record, of the vesting record and of the
/// treasury are derived again from their seeds and the recorded bumps, and
/// the accounts must belong together. Then, past the cliff, what has
/// unlocked and was not yet withdrawn is counted as withdrawn, and the
/// transfer to make is returned. The caller makes that transfer in the same
/// atomic step, and drops the changed record if the transfer fails.
pub fn claim_token(
    program_id: &Address,
    ctx: &mut ClaimTokens,
    company_name: String,
    now: i64,
) -> (claimed: Result<TransferChecked, ErrorCode>)
    requires
        !old(ctx).undefined_at(program_id@, company_name@, now),
    ensures
        amount_of(claimed) == old(ctx).outcome(program_id@, company_name@, now),
        *final(ctx) == old(ctx).after_claim(amount_of(claimed), now),
        claimed matches Ok(transfer) ==> old(ctx).authorizes(transfer) && transfer.amount > 0,
        old(ctx).verified(program_id@, company_name@) matches Err(error) ==> claimed == Err::<
            TransferChecked,
            ErrorCode,
        >(error),
        old(ctx).verified(program_id@, company_name@) is Ok && now < old(
            ctx,
        ).employee_account.cliff_time ==> claimed == Err::<TransferChecked, ErrorCode>(
            ErrorCode::ClaimNotAvailableYet,
        ),
        claimed is Err ==> *final(ctx) == *old(ctx),
        final(ctx).employee_account.total_withdrawn >= old(ctx).employee_account.total_withdrawn,
        old(ctx).employee_account.well_formed() ==> final(ctx).employee_account.well_formed(),
{
    let (employee, vesting, treasury) = derive_addresses(program_id, ctx, company_name.as_str());
    proof {
        if ctx.verified(program_id@, company_name@) is Ok {
            law_claim_keeps_record_sound(ctx.employee_account, now);
        }
    }
    ctx.claim_with_addresses(employee, vesting, treasury, now)
}

/// Serves a claim as `claim_token` does, wherever the schedule has an answer
/// at `now`; where it has none, returns `None` and changes nothing.
pub fn checked_claim_token(
    program_id: &Address,
    ctx: &mut ClaimTokens,
    company_name: String,
    now: i64,
) -> (answer: Option<Result<TransferChecked, ErrorCode>>)
    ensures
        answer is None <==> old(ctx).undefined_at(program_id@, company_name@, now),
        answer is None ==> *final(ctx) == *old(ctx),
        answer matches Some(claimed) ==> {
            &&& amount_of(claimed) == old(ctx).outcome(program_id@, company_name@, now)
            &&& *final(ctx) == old(ctx).after_claim(amount_of(claimed), now)
            &&& claimed matches Ok(transfer) ==> old(ctx).authorizes(transfer) && transfer.amount
                > 0
        },
{
    let record = &ctx.employee_account;
    if record.cliff_time <= now && now < record.end_time && record.end_time <= record.start_time {
        let (employee, vesting, treasury) = derive_addresses(
            program_id,
            ctx,
            company_name.as_str(),
        );
        match ctx.check_accounts(employee, vesting, treasury) {
            Err(error) => Some(Err(error)),
            Ok(_) => None,
        }
    } else {
        Some(claim_token(program_id, ctx, company_name, now))
    }
}

} // verus!
