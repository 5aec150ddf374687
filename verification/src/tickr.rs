//! The ticketing program's treasury: its admin withdraws lamports from the
//! marketplace's treasury.
use vstd::prelude::*;
use crate::address::Address;
use crate::marketplace::{marketplace_seeds, treasury_seeds, marketplace_seeds_of, treasury_seeds_of};
use crate::pda::with_bump;
use crate::constraints::{
    ConstraintError, first_failure, find_first_failure, signer_check, program_check, bump_check, system_program_id,
    check_signer, check_program, check_bump, system_program_address,
};
use crate::transfer::{LamportTransfer, LamportTransferView};

verus! {

/// Why a ticketing instruction is refused.
#[derive(Clone, Copy, Debug, PartialEq, Eq, Structural)]
pub enum TickrError {
    /// An account fails a check of the instruction's account constraints.
    Constraint(ConstraintError),
}

/// The manager account: its bump.
#[derive(Clone, Copy, Debug)]
pub struct Manager {
    pub bump: u8,
}

/// The ticketing marketplace: its admin, its name, and the bumps of its own
/// address and of its treasury.
pub struct Marketplace {
    pub admin: Address,
    pub name: String,
    pub bump: u8,
    pub treasury_bump: u8,
}

/// The accounts of `withdraw_from_treasury`.
pub struct WithdrawFromTreasury {
    pub admin: Address,
    pub admin_is_signer: bool,
    pub marketplace_key: Address,
    pub marketplace: Marketplace,
    pub treasury: Address,
    pub system_program: Address,
}

/// The `has_one = admin` check: the marketplace names the admin.
pub open spec fn has_one_check(holds: bool) -> Result<(), ConstraintError> {
    if holds { Ok(()) } else { Err(ConstraintError::ConstraintHasOne) }
}

impl WithdrawFromTreasury {
    /// The checks of `check_accounts_spec`, in the order they are made.
    pub open spec fn checks(&self, program_id: Seq<u8>) -> Seq<Result<(), ConstraintError>> {
        seq![
            signer_check(self.admin_is_signer),
            program_check(self.system_program@, system_program_id()),
            bump_check(marketplace_seeds(self.marketplace.name@), self.marketplace.bump, program_id, self.marketplace_key@),
            has_one_check(self.marketplace.admin@ == self.admin@),
            bump_check(treasury_seeds(self.marketplace_key@), self.marketplace.treasury_bump, program_id, self.treasury@),
        ]
    }

    /// What the account checks of `withdraw_from_treasury` decide, in the
    /// order they are made: the admin signs; the program is the system
    /// program; the marketplace is the address of its seeds with its bump
    /// and names the admin; the treasury is the address of its seeds with
    /// its bump.
    pub open spec fn check_accounts_spec(&self, program_id: Seq<u8>) -> Result<(), TickrError> {
        match first_failure(
            self.checks(program_id),
        ) {
            Err(e) => Err(TickrError::Constraint(e)),
            Ok(_) => Ok(()),
        }
    }

    /// The account checks of `withdraw_from_treasury`.
    pub fn check_accounts(&self, program_id: &Address) -> (r: Result<(), TickrError>)
        ensures
            r == self.check_accounts_spec(program_id@),
    {
        let has_one = if self.marketplace.admin.same_as(&self.admin) {
            Ok(())
        } else {
            Err(ConstraintError::ConstraintHasOne)
        };
        let checks = vec![
            check_signer(self.admin_is_signer),
            check_program(&self.system_program, &system_program_address()),
            check_bump(&marketplace_seeds_of(&self.marketplace.name), self.marketplace.bump, program_id, &self.marketplace_key),
            has_one,
            check_bump(&treasury_seeds_of(&self.marketplace_key), self.marketplace.treasury_bump, program_id, &self.treasury),
        ];
        match find_first_failure(&checks) {
            Err(e) => Err(TickrError::Constraint(e)),
            Ok(_) => Ok(()),
        }
    }

    /// The transfer `withdraw_from_treasury` asks for.
    pub open spec fn withdraw_spec(&self, amount: u64) -> LamportTransferView {
        LamportTransferView {
            program: self.system_program@,
            from: self.treasury@,
            to: self.admin@,
            lamports: amount,
            signer_seeds: Some(with_bump(treasury_seeds(self.marketplace_key@), self.marketplace.treasury_bump)),
        }
    }

    /// Moves `amount` lamports from the treasury to the admin, signed for the
    /// treasury.
    pub fn withdraw_from_treasury(&self, amount: u64) -> (r: Result<LamportTransfer, TickrError>)
        ensures
            r matches Ok(t) && t@ == self.withdraw_spec(amount),
    {
        let seeds = crate::pda::seeds_with_bump(&treasury_seeds_of(&self.marketplace_key), self.marketplace.treasury_bump);
        Ok(LamportTransfer {
            program: self.system_program,
            from: self.treasury,
            to: self.admin,
            lamports: amount,
            signer_seeds: Some(seeds),
        })
    }
}

/// A withdrawal moves exactly the amount asked for, whatever it is, from the
/// treasury to the admin.
pub proof fn lemma_withdrawal_moves_requested_amount(w: WithdrawFromTreasury, amount: u64)
    ensures
        w.withdraw_spec(amount).lamports == amount,
        w.withdraw_spec(amount).from == w.treasury@,
        w.withdraw_spec(amount).to == w.admin@,
{
}

/// Only the marketplace's admin can draw on the treasury, and the withdrawal
/// is signed as the treasury: when the accounts pass their checks, the
/// recipient is the admin the marketplace names and the signer seeds derive
/// the treasury the lamports leave.
pub proof fn lemma_withdraw_only_to_admin(w: WithdrawFromTreasury, amount: u64, program_id: Seq<u8>)
    requires
        w.check_accounts_spec(program_id) is Ok,
    ensures
        w.admin_is_signer,
        w.withdraw_spec(amount).to == w.marketplace.admin@,
        w.withdraw_spec(amount).program == system_program_id(),
        crate::pda::derived_address(w.withdraw_spec(amount).signer_seeds.unwrap(), program_id)
            == Some(w.withdraw_spec(amount).from),
{
    crate::constraints::lemma_first_failure_ok(w.checks(program_id));
    assert(w.checks(program_id)[0] is Ok);
    assert(w.checks(program_id)[1] is Ok);
    assert(w.checks(program_id)[3] is Ok);
    assert(w.checks(program_id)[4] is Ok);
}

} // verus!
