//! The AMM program's pool configuration: the two mints of the pool, its fee,
//! whether it is locked, and the bumps of the configuration and LP mint.
use vstd::prelude::*;
use crate::address::Address;
use crate::pda::{canonical_bump_of, check_canonical_address, seeds2, seeds_with_bump, with_bump};
use crate::create::{
    AccountState, CreateAccount, CreateMint, CreateAssociatedToken, creation_check, token_account_creation_check,
    check_creation, check_token_account_creation, create_account, create_mint, create_associated_token,
    create_account_spec, create_mint_spec, create_associated_token_spec,
};
use crate::constraints::{
    ConstraintError, first_failure, find_first_failure, signer_check, program_check, canonical_check,
    new_associated_token_check, is_associated_token_address, token_program_id, associated_token_program_id,
    system_program_id, check_signer, check_program, check_canonical, check_new_associated_token, token_program_address,
    associated_token_program_address, system_program_address,
};
use crate::seeds::{config_tag, lp_tag, le_bytes, config_tag_bytes, lp_tag_bytes, le_bytes_of};

verus! {

/// Why an AMM instruction is refused.
#[derive(Clone, Copy, Debug, PartialEq, Eq, Structural)]
pub enum AmmError {
    /// An account fails a check of the instruction's account constraints.
    Constraint(ConstraintError),
}

/// A pool's configuration.
#[derive(Clone, Copy, Debug)]
pub struct Config {
    pub seed: u64,
    pub authority: Option<Address>,
    pub mint_x: Address,
    pub mint_y: Address,
    pub fee: u16,
    pub locked: bool,
    pub config_bump: u8,
    pub lp_bump: u8,
}

impl Config {
    /// Bytes the configuration's fields take: the seed, the optional
    /// authority, the two mints, the fee, the lock and the two bumps.
    pub const INIT_SPACE: usize = 8 + (1 + 32) + 32 + 32 + 2 + 1 + 1 + 1;
}

/// Seeds of a pool's configuration: `[b"config", seed.to_le_bytes()]`.
pub open spec fn config_seeds(seed: u64) -> Seq<Seq<u8>> {
    seq![config_tag(), le_bytes(seed)]
}

/// Seeds of a pool's LP mint: `[b"lp", config]`.
pub open spec fn lp_seeds(config: Seq<u8>) -> Seq<Seq<u8>> {
    seq![lp_tag(), config]
}

pub fn config_seeds_of(seed: u64) -> (s: Vec<Vec<u8>>)
    ensures
        s.deep_view() == config_seeds(seed),
{
    seeds2(config_tag_bytes(), le_bytes_of(seed))
}

pub fn lp_seeds_of(config: &Address) -> (s: Vec<Vec<u8>>)
    ensures
        s.deep_view() == lp_seeds(config@),
{
    seeds2(lp_tag_bytes(), config.to_seed())
}

/// Bumps of the accounts that `Initialize` creates.
#[derive(Clone, Copy, Debug)]
pub struct InitializeBumps {
    pub mint_lp: u8,
    pub config: u8,
}

/// The accounts of the pool's `initialize`: the admin, who signs; the two
/// mints; the new LP mint; the pool's two new vaults; the new configuration;
/// and the token, associated token and system programs.
pub struct Initialize {
    pub admin: Address,
    pub admin_is_signer: bool,
    pub mint_x: Address,
    pub mint_y: Address,
    pub mint_lp: Address,
    pub vault_x: Address,
    pub vault_y: Address,
    pub config_key: Address,
    pub config: Config,
    pub token_program: Address,
    pub associated_token_program: Address,
    pub system_program: Address,
    pub mint_lp_state: AccountState,
    pub vault_x_state: AccountState,
    pub vault_y_state: AccountState,
    pub config_state: AccountState,
}

/// The calls that create the accounts of the pool's `initialize`, in order.
pub struct InitializeCreations {
    pub mint_lp: CreateMint,
    pub vault_x: CreateAssociatedToken,
    pub vault_y: CreateAssociatedToken,
    pub config: CreateAccount,
}

impl Initialize {
    /// The checks of `check_accounts_spec`, in the order they are made.
    pub open spec fn checks(&self, seed: u64, program_id: Seq<u8>) -> Seq<Result<(), ConstraintError>> {
        let lp = canonical_bump_of(lp_seeds(self.config_key@), program_id, self.mint_lp@);
        let c = canonical_bump_of(config_seeds(seed), program_id, self.config_key@);
        seq![
            signer_check(self.admin_is_signer),
            program_check(self.token_program@, token_program_id()),
            program_check(self.associated_token_program@, associated_token_program_id()),
            program_check(self.system_program@, system_program_id()),
            canonical_check(lp),
            creation_check(self.mint_lp@, self.mint_lp_state, self.admin@),
            new_associated_token_check(self.vault_x@, self.config_key@, self.mint_x@, token_program_id()),
            token_account_creation_check(self.vault_x_state),
            new_associated_token_check(self.vault_y@, self.config_key@, self.mint_y@, token_program_id()),
            token_account_creation_check(self.vault_y_state),
            canonical_check(c),
            creation_check(self.config_key@, self.config_state, self.admin@),
        ]
    }

    /// What the account checks of the pool's `initialize` decide, in the
    /// order they are made: the admin signs; the programs are the token,
    /// associated token and system programs; then the accounts it creates:
    /// the LP mint (its seeds, canonical bump), the two vaults (the
    /// configuration's associated token accounts for the two mints) and the
    /// configuration (its seeds, canonical bump), each not in use yet.
    pub open spec fn check_accounts_spec(&self, seed: u64, program_id: Seq<u8>) -> Result<InitializeBumps, AmmError> {
        let lp = canonical_bump_of(lp_seeds(self.config_key@), program_id, self.mint_lp@);
        let c = canonical_bump_of(config_seeds(seed), program_id, self.config_key@);
        match first_failure(
            self.checks(seed, program_id),
        ) {
            Err(e) => Err(AmmError::Constraint(e)),
            Ok(_) => Ok(InitializeBumps { mint_lp: lp->Some_0, config: c->Some_0 }),
        }
    }

    /// The account checks of the pool's `initialize`, which give its bumps.
    pub fn check_accounts(&self, seed: u64, program_id: &Address) -> (r: Result<InitializeBumps, AmmError>)
        ensures
            r == self.check_accounts_spec(seed, program_id@),
    {
        let lp = check_canonical_address(&lp_seeds_of(&self.config_key), program_id, &self.mint_lp);
        let c = check_canonical_address(&config_seeds_of(seed), program_id, &self.config_key);
        let checks = vec![
            check_signer(self.admin_is_signer),
            check_program(&self.token_program, &token_program_address()),
            check_program(&self.associated_token_program, &associated_token_program_address()),
            check_program(&self.system_program, &system_program_address()),
            check_canonical(lp),
            check_creation(&self.mint_lp, &self.mint_lp_state, &self.admin),
            check_new_associated_token(&self.vault_x, &self.config_key, &self.mint_x, &token_program_address()),
            check_token_account_creation(&self.vault_x_state),
            check_new_associated_token(&self.vault_y, &self.config_key, &self.mint_y, &token_program_address()),
            check_token_account_creation(&self.vault_y_state),
            check_canonical(c),
            check_creation(&self.config_key, &self.config_state, &self.admin),
        ];
        match find_first_failure(&checks) {
            Err(e) => Err(AmmError::Constraint(e)),
            Ok(_) => Ok(InitializeBumps { mint_lp: lp.unwrap(), config: c.unwrap() }),
        }
    }

    /// The calls that create the pool's accounts, made once its account
    /// checks pass and give `bumps`, all paid by the admin, in order: the LP
    /// mint, held by the token program, funded from `mint_rent` (the
    /// rent-exempt minimum for a mint), with six decimals and the
    /// configuration as authority; the two vaults, the configuration's
    /// associated token accounts for the two mints; the configuration,
    /// `Config::INIT_SPACE` bytes held by the program, funded from
    /// `config_rent`.  The LP mint and the configuration are signed for by
    /// their seeds and bumps.
    pub fn create_accounts(
        &self,
        seed: u64,
        program_id: &Address,
        bumps: &InitializeBumps,
        mint_rent: u64,
        config_rent: u64,
    ) -> (c: InitializeCreations)
        ensures
            (c.mint_lp.account@, c.mint_lp.initialize@) == create_mint_spec(
                self.admin@,
                self.mint_lp@,
                self.mint_lp_state,
                mint_rent,
                token_program_id(),
                self.config_key@,
                Some(with_bump(lp_seeds(self.config_key@), bumps.mint_lp)),
            ),
            c.vault_x@ == create_associated_token_spec(self.admin@, self.vault_x@, self.config_key@, self.mint_x@, token_program_id()),
            c.vault_y@ == create_associated_token_spec(self.admin@, self.vault_y@, self.config_key@, self.mint_y@, token_program_id()),
            c.config@ == create_account_spec(
                self.admin@,
                self.config_key@,
                self.config_state,
                config_rent,
                Config::INIT_SPACE as u64,
                program_id@,
                Some(with_bump(config_seeds(seed), bumps.config)),
            ),
    {
        let token_program = token_program_address();
        let mint_lp = create_mint(
            &self.admin,
            &self.mint_lp,
            &self.mint_lp_state,
            mint_rent,
            &token_program,
            &self.config_key,
            Some(seeds_with_bump(&lp_seeds_of(&self.config_key), bumps.mint_lp)),
        );
        let vault_x = create_associated_token(&self.admin, &self.vault_x, &self.config_key, &self.mint_x, &token_program);
        let vault_y = create_associated_token(&self.admin, &self.vault_y, &self.config_key, &self.mint_y, &token_program);
        let config = create_account(
            &self.admin,
            &self.config_key,
            &self.config_state,
            config_rent,
            Config::INIT_SPACE as u64,
            program_id,
            Some(seeds_with_bump(&config_seeds_of(seed), bumps.config)),
        );
        InitializeCreations { mint_lp, vault_x, vault_y, config }
    }

    /// Writes the pool's configuration: the seed, the optional authority, the
    /// two mints, the fee, unlocked, and the bumps.
    pub fn initialize(&mut self, seed: u64, fee: u16, authority: Option<Address>, bumps: &InitializeBumps) -> (r: Result<(), AmmError>)
        ensures
            r == Ok::<(), AmmError>(()),
            final(self).config == (Config {
                seed,
                authority,
                mint_x: old(self).mint_x,
                mint_y: old(self).mint_y,
                fee,
                locked: false,
                config_bump: bumps.config,
                lp_bump: bumps.mint_lp,
            }),
            *final(self) == (Initialize { config: final(self).config, ..*old(self) }),
    {
        self.config = Config {
            seed,
            authority,
            mint_x: self.mint_x,
            mint_y: self.mint_y,
            fee,
            locked: false,
            config_bump: bumps.config,
            lp_bump: bumps.mint_lp,
        };
        Ok(())
    }
}

/// A pool that passes its account checks holds its two tokens in the
/// configuration's own associated token accounts for the two mints, and the
/// configuration that `initialize` writes names those same mints, unlocked.
pub proof fn lemma_pool_vaults_hold_config_mints(
    accounts: Initialize,
    after: Initialize,
    seed: u64,
    fee: u16,
    authority: Option<Address>,
    program_id: Seq<u8>,
)
    requires
        accounts.check_accounts_spec(seed, program_id) is Ok,
        after.config == (Config {
            seed,
            authority,
            mint_x: accounts.mint_x,
            mint_y: accounts.mint_y,
            fee,
            locked: false,
            config_bump: (accounts.check_accounts_spec(seed, program_id)->Ok_0).config,
            lp_bump: (accounts.check_accounts_spec(seed, program_id)->Ok_0).mint_lp,
        }),
        after.config_key == accounts.config_key,
        after.vault_x == accounts.vault_x,
        after.vault_y == accounts.vault_y,
    ensures
        is_associated_token_address(after.vault_x@, after.config_key@, after.config.mint_x@, token_program_id()),
        is_associated_token_address(after.vault_y@, after.config_key@, after.config.mint_y@, token_program_id()),
        !after.config.locked,
        accounts.admin_is_signer,
{
    crate::constraints::lemma_first_failure_ok(accounts.checks(seed, program_id));
    assert(accounts.checks(seed, program_id)[0] is Ok);
    assert(accounts.checks(seed, program_id)[6] is Ok);
    assert(accounts.checks(seed, program_id)[8] is Ok);
}

} // verus!
