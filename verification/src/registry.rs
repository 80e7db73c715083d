//! Companies and their treasuries.

use crate::address::{
    created_program_address, find_treasury_address, find_vesting_account_address, found_address,
    found_bump, found_program_address, found_view, treasury_seeds, vesting_account_seeds,
    with_bump, Address,
};
use crate::error::ErrorCode;
use vstd::prelude::*;
use vstd::string::StrSliceExecFns;

verus! {

/// Most characters a company name may hold.
pub const MAX_COMPANY_NAME_LEN: usize = 50;

/// A company's vesting program. Its fields never change once it is created.
#[derive(Clone, Debug)]
pub struct VestingAccount {
    /// Who may register employees.
    pub owner: Address,
    /// The token that is distributed.
    pub mint: Address,
    /// The token account that funds every claim.
    pub treasury_token_account: Address,
    /// The company's name, from which this record's address and the
    /// treasury's are derived.
    pub company_name: String,
    /// The bump seed of the treasury's address.
    pub treasury_bump: u8,
    /// The bump seed of this record's address.
    pub bump: u8,
}

impl VestingAccount {
    /// Whether the recorded name and bumps give, under `program_id`, the
    /// address `address` for this record and the recorded address for the
    /// treasury.
    pub open spec fn derives(&self, program_id: Seq<u8>, address: Seq<u8>) -> bool {
        &&& created_program_address(
            with_bump(vesting_account_seeds(self.company_name@), self.bump),
            program_id,
        ) == Some(address)
        &&& created_program_address(
            with_bump(treasury_seeds(self.company_name@), self.treasury_bump),
            program_id,
        ) == Some(self.treasury_token_account@)
    }
}

/// What the registry fixes of a token account when it creates one.
#[derive(Clone, Copy, Debug)]
pub struct TokenAccount {
    pub mint: Address,
    /// Who may move its funds.
    pub authority: Address,
}

/// The accounts presented to create a company's vesting program.
#[derive(Clone, Debug)]
pub struct CreateVestingAccount {
    /// Who signed, and pays for the new accounts.
    pub signer: Address,
    /// Where the vesting record is to stand.
    pub vesting_account_address: Address,
    /// What stands there: `None` while the address is free.
    pub vesting_account: Option<VestingAccount>,
    pub mint: Address,
    /// Where the treasury is to stand.
    pub treasury_token_account_address: Address,
    /// What stands there: `None` while the address is free.
    pub treasury_token_account: Option<TokenAccount>,
}

impl CreateVestingAccount {
    /// Whether a company of this name can be created, given the addresses
    /// found for its vesting record and for its treasury.
    pub open spec fn create_result(
        &self,
        company_name: Seq<char>,
        vesting: Option<(Seq<u8>, u8)>,
        treasury: Option<(Seq<u8>, u8)>,
    ) -> Result<(), ErrorCode> {
        if company_name.len() > MAX_COMPANY_NAME_LEN {
            Err(ErrorCode::CompanyNameTooLong)
        } else if vesting is None {
            Err(ErrorCode::AddressNotDerivable)
        } else if found_address(vesting) != self.vesting_account_address@ {
            Err(ErrorCode::AddressMismatch)
        } else if self.vesting_account is Some {
            Err(ErrorCode::AccountInUse)
        } else if treasury is None {
            Err(ErrorCode::AddressNotDerivable)
        } else if found_address(treasury) != self.treasury_token_account_address@ {
            Err(ErrorCode::AddressMismatch)
        } else if self.treasury_token_account is Some {
            Err(ErrorCode::AccountInUse)
        } else {
            Ok(())
        }
    }

    /// The accounts after the company was created: the signer owns the new
    /// vesting record, which names the treasury and keeps both bumps, and
    /// the treasury is its own authority.
    pub open spec fn created(
        &self,
        company_name: String,
        bump: u8,
        treasury_bump: u8,
    ) -> CreateVestingAccount {
        CreateVestingAccount {
            vesting_account: Some(
                VestingAccount {
                    owner: self.signer,
                    mint: self.mint,
                    treasury_token_account: self.treasury_token_account_address,
                    company_name,
                    treasury_bump,
                    bump,
                },
            ),
            treasury_token_account: Some(
                TokenAccount { mint: self.mint, authority: self.treasury_token_account_address },
            ),
            ..*self
        }
    }

    /// Creates the company, given the addresses found for its vesting record
    /// and for its treasury.
    pub fn create_with_addresses(
        &mut self,
        company_name: String,
        vesting: Option<(Address, u8)>,
        treasury: Option<(Address, u8)>,
    ) -> (outcome: Result<(), ErrorCode>)
        ensures
            outcome == old(self).create_result(
                company_name@,
                found_view(vesting),
                found_view(treasury),
            ),
            outcome is Err ==> *final(self) == *old(self),
            outcome is Ok ==> *final(self) == old(self).created(
                company_name,
                found_bump(found_view(vesting)),
                found_bump(found_view(treasury)),
            ),
    {
        if company_name.as_str().unicode_len() > MAX_COMPANY_NAME_LEN {
            return Err(ErrorCode::CompanyNameTooLong);
        }
        let (vesting_address, bump) = match vesting {
            Some(found) => found,
            None => {
                return Err(ErrorCode::AddressNotDerivable);
            },
        };
        if !vesting_address.same(&self.vesting_account_address) {
            return Err(ErrorCode::AddressMismatch);
        }
        if self.vesting_account.is_some() {
            return Err(ErrorCode::AccountInUse);
        }
        let (treasury_address, treasury_bump) = match treasury {
            Some(found) => found,
            None => {
                return Err(ErrorCode::AddressNotDerivable);
            },
        };
        if !treasury_address.same(&self.treasury_token_account_address) {
            return Err(ErrorCode::AddressMismatch);
        }
        if self.treasury_token_account.is_some() {
            return Err(ErrorCode::AccountInUse);
        }
        self.vesting_account = Some(
            VestingAccount {
                owner: self.signer,
                mint: self.mint,
                treasury_token_account: self.treasury_token_account_address,
                company_name,
                treasury_bump,
                bump,
            },
        );
        self.treasury_token_account = Some(
            TokenAccount { mint: self.mint, authority: self.treasury_token_account_address },
        );
        Ok(())
    }
}

/// Creates a company's vesting program under `program_id`: the vesting
/// record and the treasury, each at the address derived from the company's
/// name, which must be the presented ones and free.
pub fn create_vesting_account(
    program_id: &Address,
    ctx: &mut CreateVestingAccount,
    company_name: String,
) -> (outcome: Result<(), ErrorCode>)
    ensures
        outcome == old(ctx).create_result(
            company_name@,
            found_program_address(vesting_account_seeds(company_name@), program_id@),
            found_program_address(treasury_seeds(company_name@), program_id@),
        ),
        outcome is Err ==> *final(ctx) == *old(ctx),
        outcome is Ok ==> *final(ctx) == old(ctx).created(
            company_name,
            found_bump(found_program_address(vesting_account_seeds(company_name@), program_id@)),
            found_bump(found_program_address(treasury_seeds(company_name@), program_id@)),
        ),
        outcome is Ok ==> (final(ctx).vesting_account matches Some(record) && record.derives(
            program_id@,
            old(ctx).vesting_account_address@,
        )),
{
    let vesting = find_vesting_account_address(program_id, company_name.as_str());
    let treasury = find_treasury_address(program_id, company_name.as_str());
    ctx.create_with_addresses(company_name, vesting, treasury)
}

} // verus!
