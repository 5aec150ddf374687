use dapp_programs::address::Address;
use dapp_programs::constraints::{
    associated_token_program_address, system_program_address, token_program_address, ConstraintError,
};
use dapp_programs::create::AccountState;
use dapp_programs::escrow::{make, take, Escrow, EscrowError, Make, MakeBumps, Take};
use dapp_programs::pda::find_program_address;

fn program_id() -> Address {
    Address::new([17u8; 32])
}

fn key(n: u8) -> Address {
    Address::new([n; 32])
}

fn escrow_pda(maker: &Address, seed: u64) -> (Address, u8) {
    find_program_address(&vec![b"escrow".to_vec(), maker.bytes.to_vec(), seed.to_le_bytes().to_vec()], &program_id()).unwrap()
}

fn make_accounts() -> Make {
    let (e, _) = escrow_pda(&key(1), 42);
    let vault_seeds = vec![e.bytes.to_vec(), token_program_address().bytes.to_vec(), key(2).bytes.to_vec()];
    let vault = find_program_address(&vault_seeds, &associated_token_program_address()).unwrap().0;
    Make {
        maker: key(1),
        maker_is_signer: true,
        mint_a: key(2),
        mint_a_decimals: 6,
        mint_b: key(3),
        maker_ata_a: key(4),
        escrow_key: e,
        escrow: Escrow { seed: 0, maker: key(0), mint_a: key(0), mint_b: key(0), receive: 0, bump: 0 },
        escrow_state: fresh(),
        vault,
        vault_state: fresh(),
        token_program: token_program_address(),
    }
}

fn fresh() -> AccountState {
    AccountState { lamports: 0, owner: system_program_address(), data_len: 0 }
}

#[test]
fn make_records_escrow_and_deposits() {
    let mut accounts = make_accounts();
    let bumps = accounts.check_accounts(42, &program_id()).unwrap();
    assert_eq!(bumps.escrow, escrow_pda(&key(1), 42).1);
    assert_eq!(accounts.check_accounts(43, &program_id()).err(), Some(EscrowError::Constraint(ConstraintError::ConstraintSeeds)));
    let t = make(&mut accounts, 42, 500, 1000, &MakeBumps { escrow: 250 }).unwrap();
    assert_eq!((t.from, t.to, t.mint, t.authority, t.amount, t.decimals), (key(4), accounts.vault, key(2), key(1), 1000, 6));
    let e = accounts.escrow;
    assert_eq!((e.seed, e.maker, e.mint_a, e.mint_b, e.receive, e.bump), (42, key(1), key(2), key(3), 500, 250));
}

#[test]
fn make_requires_signature() {
    let mut accounts = make_accounts();
    accounts.maker_is_signer = false;
    assert_eq!(accounts.check_accounts(42, &program_id()).err(), Some(EscrowError::Constraint(ConstraintError::AccountNotSigner)));
}

fn take_accounts() -> Take {
    let seed: u64 = 42;
    let (e, eb) = escrow_pda(&key(1), seed);
    Take {
        taker: key(10),
        taker_is_signer: true,
        maker: key(1),
        mint_a: key(2),
        mint_a_decimals: 6,
        mint_b: key(3),
        mint_b_decimals: 9,
        taker_ata_a: key(11),
        taker_ata_b: key(12),
        maker_ata_b: key(13),
        escrow_key: e,
        escrow: Escrow { seed, maker: key(1), mint_a: key(2), mint_b: key(3), receive: 500, bump: eb },
        vault: key(6),
        vault_amount: 1000,
        token_program: token_program_address(),
    }
}

#[test]
fn take_pays_maker_and_empties_vault() {
    let accounts = take_accounts();
    assert_eq!(accounts.check_accounts(&program_id()), Ok(()));
    let calls = take(&accounts, 0, 0, 0).unwrap();
    let p = calls.payment;
    assert_eq!((p.from, p.to, p.mint, p.authority, p.amount, p.decimals), (key(12), key(13), key(3), key(10), 500, 9));
    let w = calls.withdrawal;
    assert_eq!((w.from, w.to, w.mint, w.authority, w.amount), (key(6), key(11), key(2), accounts.escrow_key, 1000));
    let seeds = vec![b"escrow".to_vec(), key(1).bytes.to_vec(), 42u64.to_le_bytes().to_vec(), vec![accounts.escrow.bump]];
    assert_eq!(w.signer_seeds, Some(seeds.clone()));
    assert_eq!((calls.close.account, calls.close.destination, calls.close.authority), (key(6), key(1), accounts.escrow_key));
    assert_eq!(calls.close.signer_seeds, Some(seeds));
}

#[test]
fn take_refuses_wrong_escrow() {
    let mut accounts = take_accounts();
    accounts.escrow.seed = 43;
    assert_eq!(accounts.check_accounts(&program_id()), Err(EscrowError::Constraint(ConstraintError::ConstraintSeeds)));
    let mut other_maker = take_accounts();
    other_maker.maker = key(9);
    assert_eq!(other_maker.check_accounts(&program_id()), Err(EscrowError::Constraint(ConstraintError::ConstraintHasOne)));
}

#[test]
fn make_refuses_open_escrow_and_creates_accounts() {
    let mut open = make_accounts();
    open.escrow_state = AccountState { lamports: 2_000_000, owner: program_id(), data_len: 121 };
    assert_eq!(open.check_accounts(42, &program_id()).err(), Some(EscrowError::Constraint(ConstraintError::AccountAlreadyInUse)));
    let accounts = make_accounts();
    let bumps = accounts.check_accounts(42, &program_id()).unwrap();
    let c = accounts.create_accounts(42, &program_id(), &bumps, 1_732_080);
    assert_eq!((c.escrow.payer, c.escrow.account, c.escrow.owner), (key(1), accounts.escrow_key, program_id()));
    assert_eq!((c.escrow.lamports, c.escrow.space), (1_732_080, 121));
    assert_eq!(Escrow::INIT_SPACE, 113);
    assert_eq!(c.escrow.signer_seeds, Some(vec![b"escrow".to_vec(), key(1).bytes.to_vec(), 42u64.to_le_bytes().to_vec(), vec![bumps.escrow]]));
    assert_eq!((c.vault.associated_token, c.vault.wallet, c.vault.mint), (accounts.vault, accounts.escrow_key, key(2)));
}
