use dapp_programs::address::Address;
use dapp_programs::amm::{AmmError, Config, Initialize, InitializeBumps};
use dapp_programs::constraints::{
    associated_token_program_address, system_program_address, token_program_address, ConstraintError,
};
use dapp_programs::create::{AccountState, MINT_SPACE};
use dapp_programs::pda::find_program_address;

fn program_id() -> Address {
    Address::new([11u8; 32])
}

fn key(n: u8) -> Address {
    Address::new([n; 32])
}

fn fresh() -> AccountState {
    AccountState { lamports: 0, owner: system_program_address(), data_len: 0 }
}

fn blank() -> Config {
    Config { seed: 0, authority: None, mint_x: key(0), mint_y: key(0), fee: 0, locked: true, config_bump: 0, lp_bump: 0 }
}

fn ata(wallet: &Address, mint: &Address) -> Address {
    let seeds = vec![wallet.bytes.to_vec(), token_program_address().bytes.to_vec(), mint.bytes.to_vec()];
    find_program_address(&seeds, &associated_token_program_address()).unwrap().0
}

fn pool(seed: u64) -> (Initialize, u8, u8) {
    let (c, cb) = find_program_address(&vec![b"config".to_vec(), seed.to_le_bytes().to_vec()], &program_id()).unwrap();
    let (lp, lb) = find_program_address(&vec![b"lp".to_vec(), c.bytes.to_vec()], &program_id()).unwrap();
    let accounts = Initialize {
        admin: key(1),
        admin_is_signer: true,
        mint_x: key(2),
        mint_y: key(3),
        mint_lp: lp,
        vault_x: ata(&c, &key(2)),
        vault_y: ata(&c, &key(3)),
        config_key: c,
        config: blank(),
        token_program: token_program_address(),
        associated_token_program: associated_token_program_address(),
        system_program: system_program_address(),
        mint_lp_state: fresh(),
        vault_x_state: fresh(),
        vault_y_state: fresh(),
        config_state: fresh(),
    };
    (accounts, cb, lb)
}

#[test]
fn amm_initialize_writes_config() {
    let seed: u64 = 0x0102_0304_0506_0708;
    let (mut accounts, cb, lb) = pool(seed);
    let bumps = accounts.check_accounts(seed, &program_id()).expect("valid accounts");
    assert_eq!((bumps.config, bumps.mint_lp), (cb, lb));
    assert_eq!(accounts.initialize(seed, 30, Some(key(9)), &bumps), Ok(()));
    let cfg = accounts.config;
    assert_eq!(cfg.seed, seed);
    assert_eq!(cfg.authority, Some(key(9)));
    assert_eq!((cfg.mint_x, cfg.mint_y), (key(2), key(3)));
    assert_eq!(cfg.fee, 30);
    assert!(!cfg.locked);
    assert_eq!((cfg.config_bump, cfg.lp_bump), (cb, lb));
    assert_eq!(accounts.check_accounts(seed + 1, &program_id()).err(), Some(AmmError::Constraint(ConstraintError::ConstraintSeeds)));
}

#[test]
fn amm_vaults_must_be_config_token_accounts() {
    let (mut accounts, _, _) = pool(5);
    std::mem::swap(&mut accounts.vault_x, &mut accounts.vault_y);
    assert_eq!(
        accounts.check_accounts(5, &program_id()).err(),
        Some(AmmError::Constraint(ConstraintError::AccountNotAssociatedTokenAccount))
    );
    let (mut unsigned, _, _) = pool(5);
    unsigned.admin_is_signer = false;
    assert_eq!(unsigned.check_accounts(5, &program_id()).err(), Some(AmmError::Constraint(ConstraintError::AccountNotSigner)));
}

#[test]
fn amm_initialize_without_authority() {
    let (mut accounts, _, _) = pool(7);
    assert_eq!(accounts.initialize(7, 0, None, &InitializeBumps { mint_lp: 1, config: 2 }), Ok(()));
    assert_eq!(accounts.config.authority, None);
    assert_eq!((accounts.config.config_bump, accounts.config.lp_bump), (2, 1));
}

#[test]
fn amm_refuses_pool_accounts_in_use() {
    let (mut vault, _, _) = pool(9);
    vault.vault_y_state.owner = token_program_address();
    assert_eq!(vault.check_accounts(9, &program_id()).err(), Some(AmmError::Constraint(ConstraintError::AccountAlreadyInUse)));
    let (mut config, _, _) = pool(9);
    config.config_state = AccountState { lamports: 5, owner: program_id(), data_len: 110 };
    assert_eq!(config.check_accounts(9, &program_id()).err(), Some(AmmError::Constraint(ConstraintError::AccountAlreadyInUse)));
}

#[test]
fn amm_creates_lp_mint_vaults_and_config() {
    let (accounts, cb, lb) = pool(9);
    let bumps = accounts.check_accounts(9, &program_id()).unwrap();
    let c = accounts.create_accounts(9, &program_id(), &bumps, 1_461_600, 1_656_480);
    let m = &c.mint_lp;
    assert_eq!((m.account.payer, m.account.account, m.account.owner), (key(1), accounts.mint_lp, token_program_address()));
    assert_eq!((m.account.lamports, m.account.space), (1_461_600, MINT_SPACE));
    assert_eq!(m.account.signer_seeds, Some(vec![b"lp".to_vec(), accounts.config_key.bytes.to_vec(), vec![lb]]));
    assert_eq!((m.initialize.decimals, m.initialize.mint_authority), (6, accounts.config_key));
    assert_eq!((c.vault_x.associated_token, c.vault_x.wallet, c.vault_x.mint), (accounts.vault_x, accounts.config_key, key(2)));
    assert_eq!((c.vault_y.associated_token, c.vault_y.wallet, c.vault_y.mint), (accounts.vault_y, accounts.config_key, key(3)));
    assert_eq!((c.config.account, c.config.owner, c.config.lamports, c.config.space), (accounts.config_key, program_id(), 1_656_480, 110));
    assert_eq!(Config::INIT_SPACE, 110);
    assert_eq!(c.config.signer_seeds, Some(vec![b"config".to_vec(), 9u64.to_le_bytes().to_vec(), vec![cb]]));
}
