//! The creation of the accounts that an instruction makes (`init` and
//! `init_if_needed`): the rule that such an account is not in use yet, and the
//! calls that create it — a system account funded for rent exemption and
//! given its space and owner, a token mint initialized with its decimals and
//! authority, or an associated token account.
use vstd::prelude::*;
use crate::address::Address;
use crate::constraints::{ConstraintError, TokenAccountInfo, system_program_id, system_program_address};
use crate::transfer::seeds_view;

verus! {

/// Bytes a token mint takes (`Mint::LEN`).
pub const MINT_SPACE: u64 = 82;

/// The decimals of every mint the programs create.
pub const MINT_DECIMALS: u8 = 6;

/// What the runtime knows of an account before the instruction creates it:
/// its lamports, the program that holds it and the length of its data.
#[derive(Clone, Copy, Debug)]
pub struct AccountState {
    pub lamports: u64,
    pub owner: Address,
    pub data_len: u64,
}

/// Whether an account is in use: held by a program other than the system
/// program, or holding data.
pub open spec fn in_use(state: AccountState) -> bool {
    state.owner@ != system_program_id() || state.data_len != 0
}

/// The check on an account the instruction creates: when it already holds
/// lamports it is not the payer itself, and it is not in use.
pub open spec fn creation_check(key: Seq<u8>, state: AccountState, payer: Seq<u8>) -> Result<(), ConstraintError> {
    if state.lamports != 0 && key == payer {
        Err(ConstraintError::TryingToInitPayerAsProgramAccount)
    } else if in_use(state) {
        Err(ConstraintError::AccountAlreadyInUse)
    } else {
        Ok(())
    }
}

pub fn check_creation(key: &Address, state: &AccountState, payer: &Address) -> (r: Result<(), ConstraintError>)
    ensures
        r == creation_check(key@, *state, payer@),
{
    if state.lamports != 0 && key.same_as(payer) {
        return Err(ConstraintError::TryingToInitPayerAsProgramAccount);
    }
    if !state.owner.same_as(&system_program_address()) || state.data_len != 0 {
        return Err(ConstraintError::AccountAlreadyInUse);
    }
    Ok(())
}

/// The check on an associated token account the instruction creates: the
/// account is not in use.
pub open spec fn token_account_creation_check(state: AccountState) -> Result<(), ConstraintError> {
    if in_use(state) { Err(ConstraintError::AccountAlreadyInUse) } else { Ok(()) }
}

pub fn check_token_account_creation(state: &AccountState) -> (r: Result<(), ConstraintError>)
    ensures
        r == token_account_creation_check(*state),
{
    if !state.owner.same_as(&system_program_address()) || state.data_len != 0 {
        Err(ConstraintError::AccountAlreadyInUse)
    } else {
        Ok(())
    }
}

/// The system program's `create_account` (or, for an account that already
/// holds lamports, `create_account_allow_prefund`): `payer` funds `account`
/// with `lamports`, and the account gets `space` bytes and the owner `owner`,
/// signed for a program derived address by `signer_seeds`.
pub struct CreateAccount {
    pub program: Address,
    pub payer: Address,
    pub account: Address,
    pub lamports: u64,
    pub space: u64,
    pub owner: Address,
    pub allow_prefund: bool,
    pub signer_seeds: Option<Vec<Vec<u8>>>,
}

pub struct CreateAccountView {
    pub program: Seq<u8>,
    pub payer: Seq<u8>,
    pub account: Seq<u8>,
    pub lamports: u64,
    pub space: u64,
    pub owner: Seq<u8>,
    pub allow_prefund: bool,
    pub signer_seeds: Option<Seq<Seq<u8>>>,
}

impl View for CreateAccount {
    type V = CreateAccountView;

    open spec fn view(&self) -> CreateAccountView {
        CreateAccountView {
            program: self.program@,
            payer: self.payer@,
            account: self.account@,
            lamports: self.lamports,
            space: self.space,
            owner: self.owner@,
            allow_prefund: self.allow_prefund,
            signer_seeds: seeds_view(self.signer_seeds),
        }
    }
}

/// The lamports a creation moves: the rent-exempt minimum `rent` for an
/// empty account; for one that already holds lamports, what it lacks of that
/// minimum (at least one lamport in all), or nothing.
pub open spec fn creation_lamports(state: AccountState, rent: u64) -> u64 {
    if state.lamports == 0 {
        rent
    } else {
        let needed: int = if rent == 0 { 1 } else { rent as int };
        if needed > state.lamports { (needed - state.lamports) as u64 } else { 0 }
    }
}

/// A created account holds at least the rent-exempt minimum afterwards,
/// and the payer never pays more than that minimum: nothing at all for an
/// account that already holds it.
pub proof fn lemma_creation_funds_rent_exemption(state: AccountState, rent: u64)
    ensures
        state.lamports + creation_lamports(state, rent) >= rent,
        creation_lamports(state, rent) <= rent,
        state.lamports != 0 && state.lamports >= rent ==> creation_lamports(state, rent) == 0,
{
}

/// The creation of `account`, with `rent` the rent-exempt minimum for
/// `space` bytes (which the runtime's rent schedule gives).
pub open spec fn create_account_spec(
    payer: Seq<u8>,
    account: Seq<u8>,
    state: AccountState,
    rent: u64,
    space: u64,
    owner: Seq<u8>,
    signer_seeds: Option<Seq<Seq<u8>>>,
) -> CreateAccountView {
    CreateAccountView {
        program: system_program_id(),
        payer,
        account,
        lamports: creation_lamports(state, rent),
        space,
        owner,
        allow_prefund: state.lamports != 0,
        signer_seeds,
    }
}

pub fn create_account(
    payer: &Address,
    account: &Address,
    state: &AccountState,
    rent: u64,
    space: u64,
    owner: &Address,
    signer_seeds: Option<Vec<Vec<u8>>>,
) -> (c: CreateAccount)
    ensures
        c@ == create_account_spec(payer@, account@, *state, rent, space, owner@, seeds_view(signer_seeds)),
{
    let lamports: u64 = if state.lamports == 0 {
        rent
    } else {
        let needed: u64 = if rent == 0 { 1 } else { rent };
        if needed > state.lamports { needed - state.lamports } else { 0 }
    };
    CreateAccount {
        program: system_program_address(),
        payer: *payer,
        account: *account,
        lamports,
        space,
        owner: *owner,
        allow_prefund: state.lamports != 0,
        signer_seeds,
    }
}

/// The token program `program`'s `initialize_mint2`: `mint` gets `decimals`
/// and the mint authority `mint_authority`, with no freeze authority.
pub struct InitializeMint {
    pub program: Address,
    pub mint: Address,
    pub decimals: u8,
    pub mint_authority: Address,
}

pub struct InitializeMintView {
    pub program: Seq<u8>,
    pub mint: Seq<u8>,
    pub decimals: u8,
    pub mint_authority: Seq<u8>,
}

impl View for InitializeMint {
    type V = InitializeMintView;

    open spec fn view(&self) -> InitializeMintView {
        InitializeMintView {
            program: self.program@,
            mint: self.mint@,
            decimals: self.decimals,
            mint_authority: self.mint_authority@,
        }
    }
}

/// The associated token account program `program`'s `create`: `payer`
/// creates the associated token account of `wallet` for `mint` under
/// `token_program`.
pub struct CreateAssociatedToken {
    pub program: Address,
    pub payer: Address,
    pub associated_token: Address,
    pub wallet: Address,
    pub mint: Address,
    pub token_program: Address,
}

pub struct CreateAssociatedTokenView {
    pub program: Seq<u8>,
    pub payer: Seq<u8>,
    pub associated_token: Seq<u8>,
    pub wallet: Seq<u8>,
    pub mint: Seq<u8>,
    pub token_program: Seq<u8>,
}

impl View for CreateAssociatedToken {
    type V = CreateAssociatedTokenView;

    open spec fn view(&self) -> CreateAssociatedTokenView {
        CreateAssociatedTokenView {
            program: self.program@,
            payer: self.payer@,
            associated_token: self.associated_token@,
            wallet: self.wallet@,
            mint: self.mint@,
            token_program: self.token_program@,
        }
    }
}

/// A new mint: created with `MINT_SPACE` bytes for the token program, then
/// initialized.
pub struct CreateMint {
    pub account: CreateAccount,
    pub initialize: InitializeMint,
}

/// The creation of the mint `mint` under `token_program`, with `decimals`
/// and authority `authority`.
pub open spec fn create_mint_spec(
    payer: Seq<u8>,
    mint: Seq<u8>,
    state: AccountState,
    rent: u64,
    token_program: Seq<u8>,
    authority: Seq<u8>,
    signer_seeds: Option<Seq<Seq<u8>>>,
) -> (CreateAccountView, InitializeMintView) {
    (
        create_account_spec(payer, mint, state, rent, MINT_SPACE, token_program, signer_seeds),
        InitializeMintView { program: token_program, mint, decimals: MINT_DECIMALS, mint_authority: authority },
    )
}

pub fn create_mint(
    payer: &Address,
    mint: &Address,
    state: &AccountState,
    rent: u64,
    token_program: &Address,
    authority: &Address,
    signer_seeds: Option<Vec<Vec<u8>>>,
) -> (c: CreateMint)
    ensures
        (c.account@, c.initialize@) == create_mint_spec(payer@, mint@, *state, rent, token_program@, authority@, seeds_view(signer_seeds)),
{
    let account = create_account(payer, mint, state, rent, MINT_SPACE, token_program, signer_seeds);
    CreateMint {
        account,
        initialize: InitializeMint { program: *token_program, mint: *mint, decimals: MINT_DECIMALS, mint_authority: *authority },
    }
}

/// The creation of the associated token account `associated_token`.
pub open spec fn create_associated_token_spec(
    payer: Seq<u8>,
    associated_token: Seq<u8>,
    wallet: Seq<u8>,
    mint: Seq<u8>,
    token_program: Seq<u8>,
) -> CreateAssociatedTokenView {
    CreateAssociatedTokenView {
        program: crate::constraints::associated_token_program_id(),
        payer,
        associated_token,
        wallet,
        mint,
        token_program,
    }
}

pub fn create_associated_token(
    payer: &Address,
    associated_token: &Address,
    wallet: &Address,
    mint: &Address,
    token_program: &Address,
) -> (c: CreateAssociatedToken)
    ensures
        c@ == create_associated_token_spec(payer@, associated_token@, wallet@, mint@, token_program@),
{
    CreateAssociatedToken {
        program: crate::constraints::associated_token_program_address(),
        payer: *payer,
        associated_token: *associated_token,
        wallet: *wallet,
        mint: *mint,
        token_program: *token_program,
    }
}

/// What `init_if_needed` does with an associated token account: it creates
/// the account, as `create_associated_token` does, while the system program
/// still holds it, and leaves an account a token program holds as it is.
pub fn create_associated_token_if_needed(
    payer: &Address,
    account: &TokenAccountInfo,
    wallet: &Address,
    mint: &Address,
    token_program: &Address,
) -> (c: Option<CreateAssociatedToken>)
    ensures
        c is Some <==> account.program_owner@ == system_program_id(),
        c matches Some(x) ==> x@ == create_associated_token_spec(payer@, account.key@, wallet@, mint@, token_program@),
{
    if account.program_owner.same_as(&system_program_address()) {
        Some(create_associated_token(payer, &account.key, wallet, mint, token_program))
    } else {
        None
    }
}

} // verus!
