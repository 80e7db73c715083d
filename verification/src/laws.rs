//! What holds of every schedule and of every run of claims.

use crate::claim::ClaimTokens;
use crate::employee::EmployeeAccount;
use crate::error::ErrorCode;
use vstd::prelude::*;

verus! {

/// The record after claims at each of `times`, in turn.
pub open spec fn after_claims(record: EmployeeAccount, times: Seq<i64>) -> EmployeeAccount
    decreases times.len(),
{
    if times.len() == 0 {
        record
    } else {
        after_claims(record, times.drop_last()).after_claim(times.last())
    }
}

/// The sum of what the claims at each of `times`, in turn, transfer.
pub open spec fn claimed_total(record: EmployeeAccount, times: Seq<i64>) -> int
    decreases times.len(),
{
    if times.len() == 0 {
        0
    } else {
        claimed_total(record, times.drop_last()) + match after_claims(
            record,
            times.drop_last(),
        ).claim_result(times.last()) {
            Ok(amount) => amount as int,
            Err(_) => 0,
        }
    }
}

/// Whether the schedule has an answer for a claim at each of `times`.
pub open spec fn all_defined(record: EmployeeAccount, times: Seq<i64>) -> bool {
    forall|i: int|
        0 <= i < times.len() ==> !(record.cliff_time <= #[trigger] times[i] && record.undefined_at(
            times[i],
        ))
}

/// A share of a non-negative amount is no more than the amount, and no less
/// than zero.
proof fn lemma_share_within(total: int, elapsed: int, duration: int)
    by (nonlinear_arith)
    requires
        0 <= total,
        0 <= elapsed <= duration,
        0 < duration,
    ensures
        0 <= (total * elapsed) / duration <= total,
{
}

/// A share of a non-negative amount grows with the elapsed time.
proof fn lemma_share_grows(total: int, earlier: int, later: int, duration: int)
    by (nonlinear_arith)
    requires
        0 <= total,
        0 <= earlier <= later,
        0 < duration,
    ensures
        (total * earlier) / duration <= (total * later) / duration,
{
}

/// Of a non-negative allocation never more than the whole has vested, and
/// never less than nothing.
pub proof fn law_vested_within_total(record: EmployeeAccount, now: i64)
    requires
        0 <= record.total_amount,
        !record.undefined_at(now),
    ensures
        0 <= record.vested_at(now) <= record.total_amount,
{
    if now < record.end_time {
        lemma_share_within(
            record.total_amount as int,
            record.elapsed_at(now),
            record.duration(),
        );
    }
}

/// The vested amount of a non-negative allocation never shrinks as time
/// passes.
pub proof fn law_vested_grows_with_time(record: EmployeeAccount, earlier: i64, later: i64)
    requires
        0 <= record.total_amount,
        earlier <= later,
        !record.undefined_at(earlier),
    ensures
        record.vested_at(earlier) <= record.vested_at(later),
{
    law_vested_within_total(record, earlier);
    if later < record.end_time {
        lemma_share_grows(
            record.total_amount as int,
            record.elapsed_at(earlier),
            record.elapsed_at(later),
            record.duration(),
        );
    }
}

/// A claim before the cliff fails for that reason and changes nothing.
pub proof fn law_claim_before_cliff_fails(record: EmployeeAccount, now: i64)
    requires
        now < record.cliff_time,
    ensures
        record.claim_result(now) == Err::<i64, ErrorCode>(ErrorCode::ClaimNotAvailableYet),
        record.after_claim(now) == record,
{
}

/// A claim never lowers what was withdrawn, and a sound record stays sound:
/// what was withdrawn never exceeds the allocation.
pub proof fn law_claim_keeps_record_sound(record: EmployeeAccount, now: i64)
    requires
        record.cliff_time <= now ==> !record.undefined_at(now),
    ensures
        record.total_withdrawn <= record.after_claim(now).total_withdrawn,
        record.well_formed() ==> record.after_claim(now).well_formed(),
{
    if record.cliff_time <= now && !record.overflows_at(now) {
        if record.well_formed() {
            law_vested_within_total(record, now);
        }
        if now < record.end_time {
            crate::employee::lemma_quotient_within(
                record.total_amount * record.elapsed_at(now),
                record.duration(),
            );
        }
    }
}

/// Over any run of claims on a sound record, what was withdrawn never
/// decreases and never exceeds the allocation, and it has grown by exactly
/// the sum of what the claims transferred.
pub proof fn law_claims_keep_record_sound(record: EmployeeAccount, times: Seq<i64>)
    requires
        record.well_formed(),
        all_defined(record, times),
    ensures
        after_claims(record, times).well_formed(),
        record.total_withdrawn <= after_claims(record, times).total_withdrawn,
        after_claims(record, times).total_withdrawn == record.total_withdrawn + claimed_total(
            record,
            times,
        ),
        same_schedule(record, after_claims(record, times)),
    decreases times.len(),
{
    if times.len() > 0 {
        let before = after_claims(record, times.drop_last());
        assert(all_defined(record, times.drop_last())) by {
            assert forall|i: int| 0 <= i < times.drop_last().len() implies !(record.cliff_time
                <= #[trigger] times.drop_last()[i] && record.undefined_at(times.drop_last()[i])) by {
                assert(times.drop_last()[i] == times[i]);
            }
        }
        law_claims_keep_record_sound(record, times.drop_last());
        assert(!(record.cliff_time <= times[times.len() - 1] && record.undefined_at(
            times[times.len() - 1],
        )));
        law_claim_keeps_record_sound(before, times.last());
    }
}

/// Whether two records differ at most in what was withdrawn.
pub open spec fn same_schedule(first: EmployeeAccount, second: EmployeeAccount) -> bool {
    second == (EmployeeAccount { total_withdrawn: second.total_withdrawn, ..first })
}

/// Between two moments of one run of claims on a sound record, what was
/// withdrawn never decreases.
pub proof fn law_withdrawn_never_decreases(
    record: EmployeeAccount,
    times: Seq<i64>,
    earlier: int,
    later: int,
)
    requires
        record.well_formed(),
        all_defined(record, times),
        0 <= earlier <= later <= times.len(),
    ensures
        after_claims(record, times.take(earlier)).total_withdrawn <= after_claims(
            record,
            times.take(later),
        ).total_withdrawn,
        after_claims(record, times.take(later)).total_withdrawn <= record.total_amount,
    decreases later - earlier,
{
    assert(all_defined(record, times.take(later))) by {
        assert forall|i: int| 0 <= i < times.take(later).len() implies !(record.cliff_time
            <= #[trigger] times.take(later)[i] && record.undefined_at(times.take(later)[i])) by {
            assert(times.take(later)[i] == times[i]);
        }
    }
    law_claims_keep_record_sound(record, times.take(later));
    if earlier < later {
        assert(times.take(later).drop_last() =~= times.take(later - 1));
        law_withdrawn_never_decreases(record, times, earlier, later - 1);
        assert(!(record.cliff_time <= times[later - 1] && record.undefined_at(times[later - 1])));
        law_claim_keeps_record_sound(
            after_claims(record, times.take(later - 1)),
            times.take(later).last(),
        );
    }
}

/// A second claim at the same moment finds nothing to claim: past the cliff
/// and where the amount can be computed, the first claim either transfers
/// what is due or finds nothing, and the second finds nothing.
pub proof fn law_second_claim_finds_nothing(record: EmployeeAccount, now: i64)
    requires
        record.well_formed(),
        record.cliff_time <= now,
        !record.undefined_at(now),
        !record.overflows_at(now),
    ensures
        record.claim_result(now) is Ok || record.claim_result(now) == Err::<i64, ErrorCode>(
            ErrorCode::NothingToClaim,
        ),
        record.claim_result(now) matches Ok(amount) ==> amount == record.vested_at(now)
            - record.total_withdrawn,
        record.after_claim(now).claim_result(now) == Err::<i64, ErrorCode>(
            ErrorCode::NothingToClaim,
        ),
{
    law_vested_within_total(record, now);
}

/// A claim at the end of the schedule or later, past the cliff, leaves the
/// whole allocation withdrawn.
pub proof fn law_claim_at_end_withdraws_all(record: EmployeeAccount, now: i64)
    requires
        record.well_formed(),
        record.cliff_time <= now,
        record.end_time <= now,
    ensures
        record.after_claim(now).total_withdrawn == record.total_amount,
{
}

/// Whatever was claimed before and however it was rounded, once a claim is
/// made at the end of the schedule or later, past the cliff, the claims of a
/// new record have transferred the whole allocation, no more and no less.
pub proof fn law_claims_sum_to_total(record: EmployeeAccount, times: Seq<i64>)
    requires
        record.total_withdrawn == 0,
        0 <= record.total_amount,
        all_defined(record, times),
        times.len() > 0,
        record.cliff_time <= times.last(),
        record.end_time <= times.last(),
    ensures
        claimed_total(record, times) == record.total_amount,
{
    law_claims_keep_record_sound(record, times);
    assert(all_defined(record, times.drop_last())) by {
        assert forall|i: int| 0 <= i < times.drop_last().len() implies !(record.cliff_time
            <= #[trigger] times.drop_last()[i] && record.undefined_at(times.drop_last()[i])) by {
            assert(times.drop_last()[i] == times[i]);
        }
    }
    law_claims_keep_record_sound(record, times.drop_last());
    law_claim_at_end_withdraws_all(after_claims(record, times.drop_last()), times.last());
}

/// After a claim that transferred something, a claim at a later moment is
/// due exactly what has vested by then less what is withdrawn, with nothing
/// cut off at zero.
pub proof fn law_next_claim_is_the_difference(record: EmployeeAccount, first: i64, second: i64)
    requires
        record.well_formed(),
        first <= second,
        record.cliff_time <= first,
        !record.undefined_at(first),
        record.claim_result(first) is Ok,
    ensures
        record.after_claim(first).total_withdrawn == record.vested_at(first),
        record.vested_at(first) <= record.vested_at(second),
        record.after_claim(first).claimable_at(second) == record.vested_at(second)
            - record.after_claim(first).total_withdrawn,
{
    law_vested_within_total(record, first);
    law_vested_within_total(record, second);
    law_vested_grows_with_time(record, first, second);
}

/// Records that stand where their own seeds and bumps put them, and that
/// name each other and the presented accounts, pass every check of a claim
/// for their company.
pub proof fn law_linked_records_are_verified(accounts: ClaimTokens, program_id: Seq<u8>)
    requires
        accounts.vesting_account.derives(program_id, accounts.vesting_account_address@),
        accounts.employee_account.derives(program_id, accounts.employee_account_address@),
        accounts.employee_account.beneficiary@ == accounts.beneficiary@,
        accounts.employee_account.vesting_account@ == accounts.vesting_account_address@,
        accounts.vesting_account.treasury_token_account@ == accounts.treasury_token_account@,
        accounts.vesting_account.mint@ == accounts.mint@,
    ensures
        accounts.verified(program_id, accounts.vesting_account.company_name@) is Ok,
{
}

/// A claim for which any check of the accounts fails transfers nothing and
/// changes nothing, whatever the schedule and the time.
pub proof fn law_unverified_claim_changes_nothing(
    accounts: ClaimTokens,
    program_id: Seq<u8>,
    company_name: Seq<char>,
    now: i64,
)
    requires
        accounts.verified(program_id, company_name) is Err,
    ensures
        accounts.outcome(program_id, company_name, now) is Err,
        accounts.outcome(program_id, company_name, now) == Err::<u64, ErrorCode>(
            accounts.verified(program_id, company_name)->Err_0,
        ),
        accounts.after_claim(accounts.outcome(program_id, company_name, now), now) == accounts,
{
}

} // verus!
