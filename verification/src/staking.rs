//! The NFT staking program: a global stake configuration with a reward mint,
//! one account per user, and staking, which delegates the NFT to a stake
//! account and freezes it in the owner's token account.
use vstd::prelude::*;
use crate::address::Address;
use crate::marketplace::Collection;
use crate::pda::{canonical_bump_of, is_canonical_address, check_canonical_address, seeds2, seeds3, with_bump};
use crate::constraints::{
    ConstraintError, TokenAccountInfo, first_failure, find_first_failure, lemma_first_failure_append, signer_check, program_check, canonical_check,
    bump_check, raw_check, associated_token_check, metadata_address_check, metadata_seeds, master_edition_seeds,
    system_program_id, token_program_id, metadata_program_id, check_signer, check_program, check_canonical, check_bump,
    check_raw, check_associated_token, check_metadata_address, check_master_edition_address, system_program_address,
    token_program_address, metadata_program_address,
};
use crate::seeds::{config_tag, rewards_tag, stake_tag, user_tag, config_tag_bytes, rewards_tag_bytes, stake_tag_bytes, user_tag_bytes};
use crate::create::{
    AccountState, CreateAccount, CreateMint, creation_check, in_use, check_creation, create_account, create_mint,
    create_account_spec, create_mint_spec,
};
use crate::transfer::{Approve, ApproveView, FreezeDelegated, FreezeDelegatedView};

verus! {

/// Why a staking instruction is refused.
#[derive(Clone, Copy, Debug, PartialEq, Eq, Structural)]
pub enum StakeError {
    /// The user already has as many NFTs staked as the configuration allows.
    MaxStakeReached,
    /// An account fails a check of the instruction's account constraints.
    Constraint(ConstraintError),
}

/// `value` when every check of `checks` passes, else the first failure.
pub open spec fn after_checks<T>(checks: Seq<Result<(), ConstraintError>>, value: T) -> Result<T, StakeError> {
    match first_failure(checks) {
        Err(e) => Err(StakeError::Constraint(e)),
        Ok(_) => Ok(value),
    }
}

/// The staking configuration: points earned per staked NFT, the most NFTs a
/// user may stake, the freeze period, and the bumps of the reward mint and of
/// the configuration itself.
#[derive(Clone, Copy, Debug)]
pub struct StakeConfig {
    pub points_per_stake: u8,
    pub max_stake: u8,
    pub freeze_period: u32,
    pub rewards_bump: u8,
    pub bump: u8,
}

impl StakeConfig {
    /// Bytes the configuration's fields take.
    pub const INIT_SPACE: usize = 1 + 1 + 4 + 1 + 1;
}

/// A user's account: points, NFTs staked, and its bump.
#[derive(Clone, Copy, Debug)]
pub struct UserAccount {
    pub points_per_stake: u32,
    pub amount_staked: u8,
    pub bump: u8,
}

impl UserAccount {
    /// Bytes a user account's fields take.
    pub const INIT_SPACE: usize = 4 + 1 + 1;
}

/// The record of one staked NFT: its owner, its mint, when it was staked
/// (Unix seconds) and the record's bump.
#[derive(Clone, Copy, Debug)]
pub struct StakeAccount {
    pub owner: Address,
    pub mint: Address,
    pub staked_at: i64,
    pub bump: u8,
}

impl StakeAccount {
    /// Bytes a stake record's fields take.
    pub const INIT_SPACE: usize = 32 + 32 + 8 + 1;
}

/// Seeds of the configuration: `[b"config"]`.
pub open spec fn config_seeds() -> Seq<Seq<u8>> {
    seq![config_tag()]
}

/// Seeds of the reward mint: `[b"rewards"]`.
pub open spec fn reward_mint_seeds() -> Seq<Seq<u8>> {
    seq![rewards_tag()]
}

/// Seeds of a user's account: `[b"user", user]`.
pub open spec fn user_seeds(user: Seq<u8>) -> Seq<Seq<u8>> {
    seq![user_tag(), user]
}

/// Seeds of a stake record: `[b"stake", config, mint]`.
pub open spec fn stake_seeds(config: Seq<u8>, mint: Seq<u8>) -> Seq<Seq<u8>> {
    seq![stake_tag(), config, mint]
}

fn one_seed(a: Vec<u8>) -> (s: Vec<Vec<u8>>)
    ensures
        s.deep_view() == seq![a@],
{
    let mut s: Vec<Vec<u8>> = Vec::new();
    s.push(a);
    assert(s.deep_view()[0] =~= a@);
    assert(s.deep_view() =~= seq![a@]);
    s
}

pub fn config_seeds_of() -> (s: Vec<Vec<u8>>)
    ensures
        s.deep_view() == config_seeds(),
{
    one_seed(config_tag_bytes())
}

pub fn reward_mint_seeds_of() -> (s: Vec<Vec<u8>>)
    ensures
        s.deep_view() == reward_mint_seeds(),
{
    one_seed(rewards_tag_bytes())
}

pub fn user_seeds_of(user: &Address) -> (s: Vec<Vec<u8>>)
    ensures
        s.deep_view() == user_seeds(user@),
{
    seeds2(user_tag_bytes(), user.to_seed())
}

pub fn stake_seeds_of(config: &Address, mint: &Address) -> (s: Vec<Vec<u8>>)
    ensures
        s.deep_view() == stake_seeds(config@, mint@),
{
    seeds3(stake_tag_bytes(), config.to_seed(), mint.to_seed())
}

/// Bumps of the accounts that `InitialiseConfig` creates.
#[derive(Clone, Copy, Debug)]
pub struct InitialiseConfigBumps {
    pub config: u8,
    pub reward_mint: u8,
}

/// The accounts of `initialise_config`: the admin, the configuration and
/// the reward mint.
pub struct InitialiseConfig {
    pub admin: Address,
    pub admin_is_signer: bool,
    pub config_key: Address,
    pub config: StakeConfig,
    pub reward_mint: Address,
    pub token_program: Address,
    pub system_program: Address,
    pub config_state: AccountState,
    pub reward_mint_state: AccountState,
}

/// The calls that create the accounts of `initialise_config`.
pub struct InitialiseConfigCreations {
    pub config: CreateAccount,
    pub reward_mint: CreateMint,
}

impl InitialiseConfig {
    /// The checks of `check_accounts_spec`, in the order they are made.
    pub open spec fn checks(&self, program_id: Seq<u8>) -> Seq<Result<(), ConstraintError>> {
        let c = canonical_bump_of(config_seeds(), program_id, self.config_key@);
        let r = canonical_bump_of(reward_mint_seeds(), program_id, self.reward_mint@);
        seq![
            signer_check(self.admin_is_signer),
            program_check(self.token_program@, token_program_id()),
            program_check(self.system_program@, system_program_id()),
            canonical_check(c),
            creation_check(self.config_key@, self.config_state, self.admin@),
            canonical_check(r),
            creation_check(self.reward_mint@, self.reward_mint_state, self.admin@),
        ]
    }

    /// What the account checks of `initialise_config` decide: the admin
    /// signs, the programs are the token and system programs, and the new
    /// configuration and reward mint are the addresses of their seeds with
    /// canonical bumps, which are returned, and are not in use yet.
    pub open spec fn check_accounts_spec(&self, program_id: Seq<u8>) -> Result<InitialiseConfigBumps, StakeError> {
        let c = canonical_bump_of(config_seeds(), program_id, self.config_key@);
        let r = canonical_bump_of(reward_mint_seeds(), program_id, self.reward_mint@);
        after_checks(
            self.checks(program_id),
            InitialiseConfigBumps { config: c->Some_0, reward_mint: r->Some_0 },
        )
    }

    /// The account checks of `initialise_config`.
    pub fn check_accounts(&self, program_id: &Address) -> (r: Result<InitialiseConfigBumps, StakeError>)
        ensures
            r == self.check_accounts_spec(program_id@),
    {
        let c = check_canonical_address(&config_seeds_of(), program_id, &self.config_key);
        let rw = check_canonical_address(&reward_mint_seeds_of(), program_id, &self.reward_mint);
        let checks = vec![
            check_signer(self.admin_is_signer),
            check_program(&self.token_program, &token_program_address()),
            check_program(&self.system_program, &system_program_address()),
            check_canonical(c),
            check_creation(&self.config_key, &self.config_state, &self.admin),
            check_canonical(rw),
            check_creation(&self.reward_mint, &self.reward_mint_state, &self.admin),
        ];
        match find_first_failure(&checks) {
            Err(e) => Err(StakeError::Constraint(e)),
            Ok(_) => Ok(InitialiseConfigBumps { config: c.unwrap(), reward_mint: rw.unwrap() }),
        }
    }

    /// The calls that create the accounts of `initialise_config`, made once
    /// its account checks pass and give `bumps`, in order: the configuration,
    /// a discriminator and `StakeConfig::INIT_SPACE` bytes held by the
    /// program, funded by the admin from `config_rent` (the rent-exempt
    /// minimum for that space); then the reward mint, held by the token
    /// program, funded from `mint_rent`, with six decimals and the
    /// configuration as authority.  Each is signed for by its seeds and bump.
    pub fn create_accounts(
        &self,
        program_id: &Address,
        bumps: &InitialiseConfigBumps,
        config_rent: u64,
        mint_rent: u64,
    ) -> (c: InitialiseConfigCreations)
        ensures
            c.config@ == create_account_spec(
                self.admin@,
                self.config_key@,
                self.config_state,
                config_rent,
                (8 + StakeConfig::INIT_SPACE) as u64,
                program_id@,
                Some(with_bump(config_seeds(), bumps.config)),
            ),
            (c.reward_mint.account@, c.reward_mint.initialize@) == create_mint_spec(
                self.admin@,
                self.reward_mint@,
                self.reward_mint_state,
                mint_rent,
                token_program_id(),
                self.config_key@,
                Some(with_bump(reward_mint_seeds(), bumps.reward_mint)),
            ),
    {
        let config = create_account(
            &self.admin,
            &self.config_key,
            &self.config_state,
            config_rent,
            (8 + StakeConfig::INIT_SPACE) as u64,
            program_id,
            Some(crate::pda::seeds_with_bump(&config_seeds_of(), bumps.config)),
        );
        let reward_mint = create_mint(
            &self.admin,
            &self.reward_mint,
            &self.reward_mint_state,
            mint_rent,
            &token_program_address(),
            &self.config_key,
            Some(crate::pda::seeds_with_bump(&reward_mint_seeds_of(), bumps.reward_mint)),
        );
        InitialiseConfigCreations { config, reward_mint }
    }

    /// Writes the configuration.
    pub fn initialise_config(
        &mut self,
        points_per_stake: u8,
        max_stake: u8,
        freeze_period: u32,
        bumps: &InitialiseConfigBumps,
    ) -> (r: Result<(), StakeError>)
        ensures
            r == Ok::<(), StakeError>(()),
            final(self).config == (StakeConfig {
                points_per_stake,
                max_stake,
                freeze_period,
                rewards_bump: bumps.reward_mint,
                bump: bumps.config,
            }),
            *final(self) == (InitialiseConfig { config: final(self).config, ..*old(self) }),
    {
        self.config = StakeConfig {
            points_per_stake,
            max_stake,
            freeze_period,
            rewards_bump: bumps.reward_mint,
            bump: bumps.config,
        };
        Ok(())
    }
}

/// Bumps of the account that `InitialiseUser` creates.
#[derive(Clone, Copy, Debug)]
pub struct InitialiseUserBumps {
    pub user_account: u8,
}

/// The accounts of `initialise_user`: the user and their new account.
pub struct InitialiseUser {
    pub user: Address,
    pub user_is_signer: bool,
    pub user_account_key: Address,
    pub user_account: UserAccount,
    pub system_program: Address,
    pub user_account_state: AccountState,
}

impl InitialiseUser {
    /// The checks of `check_accounts_spec`, in the order they are made.
    pub open spec fn checks(&self, program_id: Seq<u8>) -> Seq<Result<(), ConstraintError>> {
        let u = canonical_bump_of(user_seeds(self.user@), program_id, self.user_account_key@);
        seq![
            signer_check(self.user_is_signer),
            program_check(self.system_program@, system_program_id()),
            canonical_check(u),
            creation_check(self.user_account_key@, self.user_account_state, self.user@),
        ]
    }

    /// What the account checks of `initialise_user` decide: the user signs,
    /// the program is the system program, and the new user account is the
    /// address of its seeds with the canonical bump, which is returned, and
    /// is not in use yet.
    pub open spec fn check_accounts_spec(&self, program_id: Seq<u8>) -> Result<InitialiseUserBumps, StakeError> {
        let u = canonical_bump_of(user_seeds(self.user@), program_id, self.user_account_key@);
        after_checks(
            self.checks(program_id),
            InitialiseUserBumps { user_account: u->Some_0 },
        )
    }

    /// The account checks of `initialise_user`.
    pub fn check_accounts(&self, program_id: &Address) -> (r: Result<InitialiseUserBumps, StakeError>)
        ensures
            r == self.check_accounts_spec(program_id@),
    {
        let u = check_canonical_address(&user_seeds_of(&self.user), program_id, &self.user_account_key);
        let checks = vec![
            check_signer(self.user_is_signer),
            check_program(&self.system_program, &system_program_address()),
            check_canonical(u),
            check_creation(&self.user_account_key, &self.user_account_state, &self.user),
        ];
        match find_first_failure(&checks) {
            Err(e) => Err(StakeError::Constraint(e)),
            Ok(_) => Ok(InitialiseUserBumps { user_account: u.unwrap() }),
        }
    }

    /// The call that creates the user's account, made once the account
    /// checks pass and give `bumps`: `UserAccount::INIT_SPACE` bytes held by
    /// the program, funded by the user from `rent` (the rent-exempt minimum
    /// for that space), signed for by its seeds and bump.
    pub fn create_accounts(&self, program_id: &Address, bumps: &InitialiseUserBumps, rent: u64) -> (c: CreateAccount)
        ensures
            c@ == create_account_spec(
                self.user@,
                self.user_account_key@,
                self.user_account_state,
                rent,
                UserAccount::INIT_SPACE as u64,
                program_id@,
                Some(with_bump(user_seeds(self.user@), bumps.user_account)),
            ),
    {
        create_account(
            &self.user,
            &self.user_account_key,
            &self.user_account_state,
            rent,
            UserAccount::INIT_SPACE as u64,
            program_id,
            Some(crate::pda::seeds_with_bump(&user_seeds_of(&self.user), bumps.user_account)),
        )
    }

    /// Writes the user's account with nothing staked and no points.
    pub fn initialise_user(&mut self, user_bump: u8) -> (r: Result<(), StakeError>)
        ensures
            r == Ok::<(), StakeError>(()),
            final(self).user_account == (UserAccount { points_per_stake: 0, amount_staked: 0, bump: user_bump }),
            *final(self) == (InitialiseUser { user_account: final(self).user_account, ..*old(self) }),
    {
        self.user_account = UserAccount { points_per_stake: 0, amount_staked: 0, bump: user_bump };
        Ok(())
    }
}

/// Bumps of the account that `Stake` creates.
#[derive(Clone, Copy, Debug)]
pub struct StakeBumps {
    pub stake_account: u8,
}

/// The accounts of `stake`: the user, the NFT's mint and collection, the
/// user's token account for it, its metadata's collection and its master
/// edition, the new stake record, the user's account and the configuration.
pub struct Stake {
    pub user: Address,
    pub user_is_signer: bool,
    pub mint: Address,
    pub collection_mint: Address,
    pub mint_ata: TokenAccountInfo,
    pub metadata: Address,
    pub metadata_collection: Option<Collection>,
    pub master_edition: Address,
    pub stake_account_key: Address,
    pub stake_account: StakeAccount,
    pub stake_account_state: AccountState,
    pub user_account_key: Address,
    pub user_account: UserAccount,
    pub config_key: Address,
    pub config: StakeConfig,
    pub token_program: Address,
    pub metadata_program: Address,
    pub system_program: Address,
}

/// The two calls of a stake: the approval of the stake record as delegate,
/// then the freeze that it signs.
pub struct StakeCalls {
    pub approve: Approve,
    pub freeze: FreezeDelegated,
}

impl Stake {
    /// The checks of `check_accounts_spec` made before the metadata's
    /// collection is read, in order.
    pub open spec fn checks_before_collection(&self, program_id: Seq<u8>) -> Seq<Result<(), ConstraintError>> {
        let s = canonical_bump_of(stake_seeds(self.config_key@, self.mint@), program_id, self.stake_account_key@);
        seq![
            signer_check(self.user_is_signer),
            program_check(self.token_program@, token_program_id()),
            program_check(self.metadata_program@, metadata_program_id()),
            program_check(self.system_program@, system_program_id()),
            canonical_check(s),
            creation_check(self.stake_account_key@, self.stake_account_state, self.user@),
            associated_token_check(self.mint_ata, self.user@, self.mint@, token_program_id(), false),
            metadata_address_check(metadata_seeds(self.mint@), self.metadata@),
        ]
    }

    /// The checks of `check_accounts_spec` from the metadata's collection
    /// on, in order.
    pub open spec fn checks_from_collection(&self, program_id: Seq<u8>) -> Seq<Result<(), ConstraintError>> {
        let c = self.metadata_collection.unwrap();
        seq![
            raw_check(c.key@ == self.collection_mint@),
            raw_check(c.verified),
            metadata_address_check(master_edition_seeds(self.mint@), self.master_edition@),
            bump_check(user_seeds(self.user@), self.user_account.bump, program_id, self.user_account_key@),
            bump_check(config_seeds(), self.config.bump, program_id, self.config_key@),
        ]
    }

    /// The checks of `check_accounts_spec`, in the order they are made.
    pub open spec fn checks(&self, program_id: Seq<u8>) -> Seq<Result<(), ConstraintError>> {
        self.checks_before_collection(program_id) + self.checks_from_collection(program_id)
    }

    /// What the account checks of `stake` decide, in the order they are made:
    /// the signer and the programs; the new stake record's seeds (its
    /// canonical bump is returned) and that it is not in use yet; the user's token account for the NFT, the
    /// associated token account of the user and mint; the metadata's address
    /// and collection; the master edition's address; the user account's and
    /// configuration's seeds with their bumps.
    pub open spec fn check_accounts_spec(&self, program_id: Seq<u8>) -> Result<StakeBumps, StakeError> {
        let s = canonical_bump_of(stake_seeds(self.config_key@, self.mint@), program_id, self.stake_account_key@);
        after_checks(
            self.checks(program_id),
            StakeBumps { stake_account: s->Some_0 },
        )
    }

    /// The account checks of `stake` made before the metadata's collection
    /// is read, with the bump they give.
    pub fn check_accounts_before_collection(&self, program_id: &Address) -> (r: Result<StakeBumps, StakeError>)
        ensures
            r == after_checks(
                self.checks_before_collection(program_id@),
                StakeBumps {
                    stake_account: canonical_bump_of(
                        stake_seeds(self.config_key@, self.mint@),
                        program_id@,
                        self.stake_account_key@,
                    )->Some_0,
                },
            ),
    {
        let s = check_canonical_address(&stake_seeds_of(&self.config_key, &self.mint), program_id, &self.stake_account_key);
        let before = vec![
            check_signer(self.user_is_signer),
            check_program(&self.token_program, &token_program_address()),
            check_program(&self.metadata_program, &metadata_program_address()),
            check_program(&self.system_program, &system_program_address()),
            check_canonical(s),
            check_creation(&self.stake_account_key, &self.stake_account_state, &self.user),
            check_associated_token(&self.mint_ata, &self.user, &self.mint, &token_program_address(), false),
            check_metadata_address(&self.mint, &self.metadata),
        ];
        match find_first_failure(&before) {
            Err(e) => Err(StakeError::Constraint(e)),
            Ok(_) => Ok(StakeBumps { stake_account: s.unwrap() }),
        }
    }

    /// The account checks of `stake`.  Once the checks before it pass, the
    /// metadata must name a collection.
    pub fn check_accounts(&self, program_id: &Address) -> (r: Result<StakeBumps, StakeError>)
        requires
            first_failure(self.checks_before_collection(program_id@)) is Err || self.metadata_collection is Some,
        ensures
            r == self.check_accounts_spec(program_id@),
    {
        proof {
            lemma_first_failure_append(self.checks_before_collection(program_id@), self.checks_from_collection(program_id@));
        }
        let bumps = match self.check_accounts_before_collection(program_id) {
            Err(e) => return Err(e),
            Ok(b) => b,
        };
        let c = self.metadata_collection.unwrap();
        let checks = vec![
            check_raw(c.key.same_as(&self.collection_mint)),
            check_raw(c.verified),
            check_master_edition_address(&self.mint, &self.master_edition),
            check_bump(&user_seeds_of(&self.user), self.user_account.bump, program_id, &self.user_account_key),
            check_bump(&config_seeds_of(), self.config.bump, program_id, &self.config_key),
        ];
        match find_first_failure(&checks) {
            Err(e) => Err(StakeError::Constraint(e)),
            Ok(_) => Ok(bumps),
        }
    }

    /// The call that creates the stake record, made once the account checks
    /// pass and give `bumps`: a discriminator and `StakeAccount::INIT_SPACE`
    /// bytes held by the program, funded by the user from `rent` (the
    /// rent-exempt minimum for that space), signed for by its seeds and bump.
    pub fn create_accounts(&self, program_id: &Address, bumps: &StakeBumps, rent: u64) -> (c: CreateAccount)
        ensures
            c@ == create_account_spec(
                self.user@,
                self.stake_account_key@,
                self.stake_account_state,
                rent,
                (8 + StakeAccount::INIT_SPACE) as u64,
                program_id@,
                Some(with_bump(stake_seeds(self.config_key@, self.mint@), bumps.stake_account)),
            ),
    {
        create_account(
            &self.user,
            &self.stake_account_key,
            &self.stake_account_state,
            rent,
            (8 + StakeAccount::INIT_SPACE) as u64,
            program_id,
            Some(crate::pda::seeds_with_bump(&stake_seeds_of(&self.config_key, &self.mint), bumps.stake_account)),
        )
    }

    /// The approval that `stake` asks for.
    pub open spec fn approve_spec(&self) -> ApproveView {
        ApproveView {
            program: self.token_program@,
            to: self.mint_ata.key@,
            delegate: self.stake_account_key@,
            authority: self.user@,
            amount: 1,
        }
    }

    /// The freeze that `stake` asks for.
    pub open spec fn freeze_spec(&self, bumps: StakeBumps) -> FreezeDelegatedView {
        FreezeDelegatedView {
            program: self.metadata_program@,
            delegate: self.stake_account_key@,
            token_account: self.mint_ata.key@,
            edition: self.master_edition@,
            mint: self.mint@,
            token_program: self.token_program@,
            signer_seeds: with_bump(stake_seeds(self.config_key@, self.mint@), bumps.stake_account),
        }
    }

    /// Stakes the NFT at time `now` (Unix seconds, from the clock): refused
    /// when the user already has the configuration's maximum staked (or
    /// more); otherwise approves the stake record as delegate of the NFT,
    /// freezes it, and writes the stake record.
    pub fn stake(&mut self, bumps: &StakeBumps, now: i64) -> (r: Result<StakeCalls, StakeError>)
        ensures
            old(self).user_account.amount_staked >= old(self).config.max_stake ==> r == Err::<StakeCalls, StakeError>(
                StakeError::MaxStakeReached,
            ) && *final(self) == *old(self),
            old(self).user_account.amount_staked < old(self).config.max_stake ==> (r matches Ok(calls) && calls.approve@
                == old(self).approve_spec() && calls.freeze@ == old(self).freeze_spec(*bumps) && *final(self) == (Stake {
                stake_account: StakeAccount { owner: old(self).user, mint: old(self).mint, staked_at: now, bump: bumps.stake_account },
                ..*old(self)
            })),
    {
        if self.user_account.amount_staked >= self.config.max_stake {
            return Err(StakeError::MaxStakeReached);
        }
        let approve = Approve {
            program: self.token_program,
            to: self.mint_ata.key,
            delegate: self.stake_account_key,
            authority: self.user,
            amount: 1,
        };
        let seeds = crate::pda::seeds_with_bump(&stake_seeds_of(&self.config_key, &self.mint), bumps.stake_account);
        let freeze = FreezeDelegated {
            program: self.metadata_program,
            delegate: self.stake_account_key,
            token_account: self.mint_ata.key,
            edition: self.master_edition,
            mint: self.mint,
            token_program: self.token_program,
            signer_seeds: seeds,
        };
        self.stake_account = StakeAccount { owner: self.user, mint: self.mint, staked_at: now, bump: bumps.stake_account };
        Ok(StakeCalls { approve, freeze })
    }
}

/// A stake approves the stake record as delegate of exactly the one NFT in
/// the user's token account, on the user's signature, and freezes that same
/// token account of the NFT's mint.
pub proof fn lemma_stake_delegates_one_nft(s: Stake, bumps: StakeBumps)
    ensures
        s.approve_spec().amount == 1,
        s.approve_spec().to == s.mint_ata.key@,
        s.approve_spec().delegate == s.stake_account_key@,
        s.approve_spec().authority == s.user@,
        s.freeze_spec(bumps).token_account == s.mint_ata.key@,
        s.freeze_spec(bumps).mint == s.mint@,
        s.freeze_spec(bumps).edition == s.master_edition@,
{
}

/// Only an NFT of the collection named by the instruction, verified as one
/// of its own, is staked: when the accounts of `stake` pass their checks,
/// the NFT's metadata names the collection mint passed in, verified.
pub proof fn lemma_stake_only_verified_collection(s: Stake, program_id: Seq<u8>)
    requires
        s.metadata_collection is Some,
        s.check_accounts_spec(program_id) is Ok,
    ensures
        s.metadata_collection.unwrap().key@ == s.collection_mint@,
        s.metadata_collection.unwrap().verified,
{
    crate::constraints::lemma_first_failure_ok(s.checks(program_id));
    assert(s.checks(program_id)[8] is Ok);
    assert(s.checks(program_id)[9] is Ok);
}

/// A user's account is written only on an account not in use yet: when the
/// accounts of `initialise_user` pass their checks, the account the system
/// program creates is held by no program and holds no data, so no existing
/// record of what the user has staked is reset.
pub proof fn lemma_user_account_starts_fresh(accounts: InitialiseUser, program_id: Seq<u8>)
    requires
        accounts.check_accounts_spec(program_id) is Ok,
    ensures
        !in_use(accounts.user_account_state),
        is_canonical_address(
            user_seeds(accounts.user@),
            accounts.check_accounts_spec(program_id)->Ok_0.user_account,
            program_id,
            accounts.user_account_key@,
        ),
{
    crate::constraints::lemma_first_failure_ok(accounts.checks(program_id));
    assert(accounts.checks(program_id)[2] is Ok);
    assert(accounts.checks(program_id)[3] is Ok);
}

/// The freeze of a stake is signed as the delegate the approval named: when
/// the accounts of `stake` pass their checks with the bumps they give, the
/// seeds the freeze signs with derive the approved delegate, both calls name
/// the user's own token account for the NFT, and the calls go to the token
/// and metadata programs.
pub proof fn lemma_stake_freeze_signed_by_delegate(s: Stake, program_id: Seq<u8>)
    requires
        s.metadata_collection is Some,
        s.check_accounts_spec(program_id) is Ok,
    ensures
        s.freeze_spec(s.check_accounts_spec(program_id)->Ok_0).delegate == s.approve_spec().delegate,
        crate::pda::derived_address(s.freeze_spec(s.check_accounts_spec(program_id)->Ok_0).signer_seeds, program_id)
            == Some(s.approve_spec().delegate),
        s.approve_spec().to == s.freeze_spec(s.check_accounts_spec(program_id)->Ok_0).token_account,
        s.mint_ata.owner@ == s.user@,
        s.approve_spec().program == token_program_id(),
        s.freeze_spec(s.check_accounts_spec(program_id)->Ok_0).program == metadata_program_id(),
{
    crate::constraints::lemma_first_failure_ok(s.checks(program_id));
    assert(s.checks(program_id)[0] is Ok);
    assert(s.checks(program_id)[1] is Ok);
    assert(s.checks(program_id)[2] is Ok);
    assert(s.checks(program_id)[4] is Ok);
    assert(s.checks(program_id)[6] is Ok);
    let sb = canonical_bump_of(stake_seeds(s.config_key@, s.mint@), program_id, s.stake_account_key@);
    assert(sb is Some);
    let b = choose|b: u8| is_canonical_address(stake_seeds(s.config_key@, s.mint@), b, program_id, s.stake_account_key@);
    assert(s.check_accounts_spec(program_id)->Ok_0.stake_account == b);
}

} // verus!
