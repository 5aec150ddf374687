use dapp_programs::address::Address;
use dapp_programs::constraints::{system_program_address, ConstraintError};
use dapp_programs::pda::find_program_address;
use dapp_programs::tickr::{Manager, Marketplace, TickrError, WithdrawFromTreasury};

fn program_id() -> Address {
    Address::new([3u8; 32])
}

fn key(n: u8) -> Address {
    Address::new([n; 32])
}

fn withdraw_accounts(admin: Address) -> WithdrawFromTreasury {
    let (m, mb) = find_program_address(&vec![b"marketplace".to_vec(), b"gig".to_vec()], &program_id()).unwrap();
    let (t, tb) = find_program_address(&vec![b"treasury".to_vec(), m.bytes.to_vec()], &program_id()).unwrap();
    WithdrawFromTreasury {
        admin,
        admin_is_signer: true,
        marketplace_key: m,
        marketplace: Marketplace { admin: key(1), name: "gig".to_string(), bump: mb, treasury_bump: tb },
        treasury: t,
        system_program: system_program_address(),
    }
}

#[test]
fn withdraw_from_treasury_pays_admin_signed_by_treasury() {
    let w = withdraw_accounts(key(1));
    assert_eq!(w.check_accounts(&program_id()), Ok(()));
    let t = w.withdraw_from_treasury(123).unwrap();
    assert_eq!((t.program, t.from, t.to, t.lamports), (system_program_address(), w.treasury, key(1), 123));
    let seeds = t.signer_seeds.unwrap();
    assert_eq!(seeds, vec![b"treasury".to_vec(), w.marketplace_key.bytes.to_vec(), vec![w.marketplace.treasury_bump]]);
    let _ = Manager { bump: 1 };
}

#[test]
fn withdraw_refused_for_other_signer() {
    assert_eq!(withdraw_accounts(key(2)).check_accounts(&program_id()), Err(TickrError::Constraint(ConstraintError::ConstraintHasOne)));
    let mut unsigned = withdraw_accounts(key(1));
    unsigned.admin_is_signer = false;
    assert_eq!(unsigned.check_accounts(&program_id()), Err(TickrError::Constraint(ConstraintError::AccountNotSigner)));
}

#[test]
fn withdraw_refused_for_wrong_treasury() {
    let mut w = withdraw_accounts(key(1));
    w.treasury = key(5);
    assert_eq!(w.check_accounts(&program_id()), Err(TickrError::Constraint(ConstraintError::ConstraintSeeds)));
    let mut w = withdraw_accounts(key(2));
    w.marketplace.name = "other".to_string();
    assert_eq!(w.check_accounts(&program_id()), Err(TickrError::Constraint(ConstraintError::ConstraintSeeds)));
    let mut w = withdraw_accounts(key(1));
    w.system_program = key(7);
    assert_eq!(w.check_accounts(&program_id()), Err(TickrError::Constraint(ConstraintError::InvalidProgramId)));
}
