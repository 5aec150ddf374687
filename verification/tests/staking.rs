use dapp_programs::address::Address;
use dapp_programs::constraints::{
    associated_token_program_address, metadata_program_address, system_program_address, token_program_address,
    ConstraintError, TokenAccountInfo,
};
use dapp_programs::create::{AccountState, MINT_SPACE};
use dapp_programs::marketplace::Collection;
use dapp_programs::pda::find_program_address;
use dapp_programs::staking::{
    InitialiseConfig, InitialiseConfigBumps, InitialiseUser, Stake, StakeAccount, StakeBumps, StakeConfig, StakeError,
    UserAccount,
};

fn program_id() -> Address {
    let mut b = [0u8; 32];
    for i in 0..32 {
        b[i] = (100 + i) as u8;
    }
    Address::new(b)
}

fn key(n: u8) -> Address {
    Address::new([n; 32])
}

fn pda(seeds: Vec<Vec<u8>>) -> (Address, u8) {
    find_program_address(&seeds, &program_id()).expect("a program address")
}

fn under(seeds: Vec<Vec<u8>>, program: &Address) -> Address {
    find_program_address(&seeds, program).unwrap().0
}

fn fresh() -> AccountState {
    AccountState { lamports: 0, owner: system_program_address(), data_len: 0 }
}

fn zero_config() -> StakeConfig {
    StakeConfig { points_per_stake: 0, max_stake: 0, freeze_period: 0, rewards_bump: 0, bump: 0 }
}

fn constraint(e: ConstraintError) -> StakeError {
    StakeError::Constraint(e)
}

fn config_accounts() -> InitialiseConfig {
    let (c, _) = pda(vec![b"config".to_vec()]);
    let (r, _) = pda(vec![b"rewards".to_vec()]);
    InitialiseConfig {
        admin: key(1),
        admin_is_signer: true,
        config_key: c,
        config: zero_config(),
        reward_mint: r,
        token_program: token_program_address(),
        system_program: system_program_address(),
        config_state: fresh(),
        reward_mint_state: fresh(),
    }
}

#[test]
fn initialise_config_writes_config() {
    let (_, cb) = pda(vec![b"config".to_vec()]);
    let (_, rb) = pda(vec![b"rewards".to_vec()]);
    let mut accounts = config_accounts();
    let bumps = accounts.check_accounts(&program_id()).expect("valid accounts");
    assert_eq!((bumps.config, bumps.reward_mint), (cb, rb));
    assert_eq!(accounts.initialise_config(10, 3, 86400, &bumps), Ok(()));
    let cfg = accounts.config;
    assert_eq!((cfg.points_per_stake, cfg.max_stake, cfg.freeze_period, cfg.rewards_bump, cfg.bump), (10, 3, 86400, rb, cb));
    let mut swapped = config_accounts();
    std::mem::swap(&mut swapped.config_key, &mut swapped.reward_mint);
    assert_eq!(swapped.check_accounts(&program_id()).err(), Some(constraint(ConstraintError::ConstraintSeeds)));
    let mut wrong_program = config_accounts();
    wrong_program.token_program = key(2);
    assert_eq!(wrong_program.check_accounts(&program_id()).err(), Some(constraint(ConstraintError::InvalidProgramId)));
    let _ = InitialiseConfigBumps { config: 0, reward_mint: 0 };
}

#[test]
fn initialise_user_starts_empty() {
    let (u, ub) = pda(vec![b"user".to_vec(), key(7).bytes.to_vec()]);
    let mut accounts = InitialiseUser {
        user: key(7),
        user_is_signer: true,
        user_account_key: u,
        user_account: UserAccount { points_per_stake: 5, amount_staked: 5, bump: 5 },
        system_program: system_program_address(),
        user_account_state: fresh(),
    };
    assert_eq!(accounts.check_accounts(&program_id()).unwrap().user_account, ub);
    assert_eq!(accounts.initialise_user(ub), Ok(()));
    let a = accounts.user_account;
    assert_eq!((a.points_per_stake, a.amount_staked, a.bump), (0, 0, ub));
    accounts.user = key(8);
    assert_eq!(accounts.check_accounts(&program_id()).err(), Some(constraint(ConstraintError::ConstraintSeeds)));
    accounts.user_is_signer = false;
    assert_eq!(accounts.check_accounts(&program_id()).err(), Some(constraint(ConstraintError::AccountNotSigner)));
}

fn stake_of(amount_staked: u8, max_stake: u8, collection: Option<Collection>) -> Stake {
    let (c, cb) = pda(vec![b"config".to_vec()]);
    let user = key(7);
    let mint = key(40);
    let (u, ub) = pda(vec![b"user".to_vec(), user.bytes.to_vec()]);
    let (s, _) = pda(vec![b"stake".to_vec(), c.bytes.to_vec(), mint.bytes.to_vec()]);
    let meta = metadata_program_address().bytes.to_vec();
    let mint_ata = under(
        vec![user.bytes.to_vec(), token_program_address().bytes.to_vec(), mint.bytes.to_vec()],
        &associated_token_program_address(),
    );
    Stake {
        user,
        user_is_signer: true,
        mint,
        collection_mint: key(41),
        mint_ata: TokenAccountInfo { key: mint_ata, program_owner: token_program_address(), mint, owner: user },
        metadata: under(vec![b"metadata".to_vec(), meta.clone(), mint.bytes.to_vec()], &metadata_program_address()),
        metadata_collection: collection,
        master_edition: under(
            vec![b"metadata".to_vec(), meta, mint.bytes.to_vec(), b"edition".to_vec()],
            &metadata_program_address(),
        ),
        stake_account_key: s,
        stake_account: StakeAccount { owner: key(0), mint: key(0), staked_at: 0, bump: 0 },
        stake_account_state: fresh(),
        user_account_key: u,
        user_account: UserAccount { points_per_stake: 0, amount_staked, bump: ub },
        config_key: c,
        config: StakeConfig { points_per_stake: 10, max_stake, freeze_period: 0, rewards_bump: 0, bump: cb },
        token_program: token_program_address(),
        metadata_program: metadata_program_address(),
        system_program: system_program_address(),
    }
}

#[test]
fn stake_approves_freezes_and_records() {
    let mut s = stake_of(2, 3, Some(Collection { key: key(41), verified: true }));
    let bumps = s.check_accounts(&program_id()).expect("valid accounts");
    let calls = s.stake(&bumps, 1_700_000_000).expect("staked");
    let a = calls.approve;
    assert_eq!((a.program, a.to, a.delegate, a.authority, a.amount), (token_program_address(), s.mint_ata.key, s.stake_account_key, key(7), 1));
    assert_eq!(calls.freeze.program, metadata_program_address());
    assert_eq!(calls.freeze.delegate, s.stake_account_key);
    assert_eq!(calls.freeze.token_account, s.mint_ata.key);
    assert_eq!(calls.freeze.edition, s.master_edition);
    assert_eq!(calls.freeze.mint, key(40));
    assert_eq!(calls.freeze.token_program, token_program_address());
    assert_eq!(
        calls.freeze.signer_seeds,
        vec![b"stake".to_vec(), s.config_key.bytes.to_vec(), key(40).bytes.to_vec(), vec![bumps.stake_account]]
    );
    let rec = s.stake_account;
    assert_eq!((rec.owner, rec.mint, rec.staked_at, rec.bump), (key(7), key(40), 1_700_000_000, bumps.stake_account));
    assert_eq!(s.user_account.amount_staked, 2);
}

#[test]
fn stake_at_maximum_is_refused() {
    let mut s = stake_of(3, 3, Some(Collection { key: key(41), verified: true }));
    assert_eq!(s.stake(&StakeBumps { stake_account: 1 }, 5).err(), Some(StakeError::MaxStakeReached));
    assert_eq!(s.stake_account.staked_at, 0);
}

#[test]
fn stake_above_maximum_is_refused() {
    let mut s = stake_of(4, 3, Some(Collection { key: key(41), verified: true }));
    assert_eq!(s.stake(&StakeBumps { stake_account: 1 }, 5).err(), Some(StakeError::MaxStakeReached));
    assert_eq!(s.stake_account.staked_at, 0);
}

#[test]
fn stake_below_maximum_is_accepted() {
    let mut s = stake_of(0, 1, Some(Collection { key: key(41), verified: true }));
    assert!(s.stake(&StakeBumps { stake_account: 1 }, 5).is_ok());
    let mut none_allowed = stake_of(0, 0, Some(Collection { key: key(41), verified: true }));
    assert_eq!(none_allowed.stake(&StakeBumps { stake_account: 1 }, 5).err(), Some(StakeError::MaxStakeReached));
}

#[test]
fn stake_check_accounts_errors() {
    let unverified = stake_of(0, 3, Some(Collection { key: key(41), verified: false }));
    assert_eq!(unverified.check_accounts(&program_id()).err(), Some(constraint(ConstraintError::ConstraintRaw)));
    let mut wrong_user = stake_of(0, 3, Some(Collection { key: key(41), verified: true }));
    wrong_user.user_account.bump = wrong_user.user_account.bump.wrapping_add(1);
    assert_eq!(wrong_user.check_accounts(&program_id()).err(), Some(constraint(ConstraintError::ConstraintSeeds)));
    let mut wrong_stake = stake_of(0, 3, Some(Collection { key: key(99), verified: true }));
    wrong_stake.stake_account_key = key(3);
    assert_eq!(wrong_stake.check_accounts(&program_id()).err(), Some(constraint(ConstraintError::ConstraintSeeds)));
    let mut other_owner = stake_of(0, 3, Some(Collection { key: key(41), verified: true }));
    other_owner.mint_ata.owner = key(8);
    assert_eq!(other_owner.check_accounts(&program_id()).err(), Some(constraint(ConstraintError::ConstraintTokenOwner)));
    let mut wrong_metadata_program = stake_of(0, 3, Some(Collection { key: key(41), verified: true }));
    wrong_metadata_program.metadata_program = key(8);
    assert_eq!(wrong_metadata_program.check_accounts(&program_id()).err(), Some(constraint(ConstraintError::InvalidProgramId)));
}

#[test]
fn initialise_config_refuses_accounts_in_use_and_creates_them() {
    let mut again = config_accounts();
    again.config_state = AccountState { lamports: 1_000_000, owner: program_id(), data_len: 16 };
    assert_eq!(again.check_accounts(&program_id()).err(), Some(constraint(ConstraintError::AccountAlreadyInUse)));
    let mut minted = config_accounts();
    minted.reward_mint_state.owner = token_program_address();
    assert_eq!(minted.check_accounts(&program_id()).err(), Some(constraint(ConstraintError::AccountAlreadyInUse)));
    let accounts = config_accounts();
    let bumps = accounts.check_accounts(&program_id()).unwrap();
    let c = accounts.create_accounts(&program_id(), &bumps, 1_002_240, 1_461_600);
    assert_eq!((c.config.payer, c.config.account, c.config.owner), (key(1), accounts.config_key, program_id()));
    assert_eq!((c.config.lamports, c.config.space), (1_002_240, 16));
    assert_eq!(StakeConfig::INIT_SPACE, 8);
    assert_eq!(c.config.signer_seeds, Some(vec![b"config".to_vec(), vec![bumps.config]]));
    let m = &c.reward_mint;
    assert_eq!((m.account.account, m.account.owner, m.account.space), (accounts.reward_mint, token_program_address(), MINT_SPACE));
    assert_eq!(m.account.signer_seeds, Some(vec![b"rewards".to_vec(), vec![bumps.reward_mint]]));
    assert_eq!((m.initialize.decimals, m.initialize.mint_authority), (6, accounts.config_key));
}

#[test]
fn initialise_user_cannot_reset_an_existing_account() {
    let (u, _) = pda(vec![b"user".to_vec(), key(7).bytes.to_vec()]);
    let mut accounts = InitialiseUser {
        user: key(7),
        user_is_signer: true,
        user_account_key: u,
        user_account: UserAccount { points_per_stake: 0, amount_staked: 0, bump: 0 },
        system_program: system_program_address(),
        user_account_state: AccountState { lamports: 900_000, owner: program_id(), data_len: 6 },
    };
    assert_eq!(accounts.check_accounts(&program_id()).err(), Some(constraint(ConstraintError::AccountAlreadyInUse)));
    accounts.user_account_state = fresh();
    let bumps = accounts.check_accounts(&program_id()).unwrap();
    let c = accounts.create_accounts(&program_id(), &bumps, 890_880);
    assert_eq!((c.payer, c.account, c.owner, c.lamports, c.space), (key(7), u, program_id(), 890_880, 6));
    assert_eq!(c.signer_seeds, Some(vec![b"user".to_vec(), key(7).bytes.to_vec(), vec![bumps.user_account]]));
}

#[test]
fn stake_refuses_staked_record_and_creates_it() {
    let mut again = stake_of(0, 3, Some(Collection { key: key(41), verified: true }));
    again.stake_account_state.owner = program_id();
    assert_eq!(again.check_accounts(&program_id()).err(), Some(constraint(ConstraintError::AccountAlreadyInUse)));
    let s = stake_of(0, 3, Some(Collection { key: key(41), verified: true }));
    let bumps = s.check_accounts(&program_id()).unwrap();
    let c = s.create_accounts(&program_id(), &bumps, 1_454_640);
    assert_eq!((c.payer, c.account, c.owner, c.lamports, c.space), (key(7), s.stake_account_key, program_id(), 1_454_640, 81));
    assert_eq!(
        c.signer_seeds,
        Some(vec![b"stake".to_vec(), s.config_key.bytes.to_vec(), key(40).bytes.to_vec(), vec![bumps.stake_account]])
    );
}

#[test]
fn stake_without_collection_fails_earlier_check_first() {
    let mut s = stake_of(0, 3, None);
    s.metadata = key(2);
    assert_eq!(s.check_accounts(&program_id()).err(), Some(constraint(ConstraintError::ConstraintSeeds)));
}

#[test]
fn stake_checks_before_collection_give_stake_bump() {
    let s = stake_of(0, 3, None);
    let (_, sb) = pda(vec![b"stake".to_vec(), s.config_key.bytes.to_vec(), s.mint.bytes.to_vec()]);
    assert_eq!(s.check_accounts_before_collection(&program_id()).map(|b| b.stake_account), Ok(sb));
    let mut unsigned = stake_of(0, 3, None);
    unsigned.user_is_signer = false;
    assert_eq!(unsigned.check_accounts_before_collection(&program_id()).err(), Some(constraint(ConstraintError::AccountNotSigner)));
}
