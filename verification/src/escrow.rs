//! The token escrow program: a maker deposits tokens of one mint in a vault
//! and asks for an amount of another mint; a taker pays that amount to the
//! maker and receives the vault's tokens, and the vault is closed.
use vstd::prelude::*;
use crate::address::Address;
use crate::pda::{canonical_bump_of, check_canonical_address, seeds3, with_bump};
use crate::constraints::{
    ConstraintError, first_failure, find_first_failure, signer_check, token_interface_check, canonical_check, bump_check,
    new_associated_token_check, check_signer, check_token_interface, check_canonical, check_bump, check_new_associated_token,
};
use crate::seeds::{escrow_tag, le_bytes, escrow_tag_bytes, le_bytes_of};
use crate::create::{
    AccountState, CreateAccount, CreateAssociatedToken, creation_check, token_account_creation_check, check_creation,
    check_token_account_creation, create_account, create_associated_token, create_account_spec,
    create_associated_token_spec,
};
use crate::transfer::{TokenTransfer, TokenTransferView, CloseAccount, CloseAccountView};

verus! {

/// Why an escrow instruction is refused.
#[derive(Clone, Copy, Debug, PartialEq, Eq, Structural)]
pub enum EscrowError {
    /// An account fails a check of the instruction's account constraints.
    Constraint(ConstraintError),
}

/// A `has_one` check: the escrow names the account.
pub open spec fn has_one_check(holds: bool) -> Result<(), ConstraintError> {
    if holds { Ok(()) } else { Err(ConstraintError::ConstraintHasOne) }
}

fn check_has_one(holds: bool) -> (r: Result<(), ConstraintError>)
    ensures
        r == has_one_check(holds),
{
    if holds { Ok(()) } else { Err(ConstraintError::ConstraintHasOne) }
}

/// An open escrow: its seed, its maker, the mint deposited (`mint_a`), the
/// mint asked for (`mint_b`), the amount of `mint_b` the maker is to receive,
/// and the escrow's bump.
#[derive(Clone, Copy, Debug)]
pub struct Escrow {
    pub seed: u64,
    pub maker: Address,
    pub mint_a: Address,
    pub mint_b: Address,
    pub receive: u64,
    pub bump: u8,
}

impl Escrow {
    /// Bytes the escrow's fields take.
    pub const INIT_SPACE: usize = 8 + 32 + 32 + 32 + 8 + 1;
}

/// Seeds of an escrow: `[b"escrow", maker, seed.to_le_bytes()]`.
pub open spec fn escrow_seeds(maker: Seq<u8>, seed: u64) -> Seq<Seq<u8>> {
    seq![escrow_tag(), maker, le_bytes(seed)]
}

pub fn escrow_seeds_of(maker: &Address, seed: u64) -> (s: Vec<Vec<u8>>)
    ensures
        s.deep_view() == escrow_seeds(maker@, seed),
{
    seeds3(escrow_tag_bytes(), maker.to_seed(), le_bytes_of(seed))
}

/// Bumps of the accounts that `make` creates.
#[derive(Clone, Copy, Debug)]
pub struct MakeBumps {
    pub escrow: u8,
}

/// The accounts of `make`: the maker, the two mints, the maker's token
/// account of `mint_a`, the new escrow and its vault of `mint_a`.
pub struct Make {
    pub maker: Address,
    pub maker_is_signer: bool,
    pub mint_a: Address,
    pub mint_a_decimals: u8,
    pub mint_b: Address,
    pub maker_ata_a: Address,
    pub escrow_key: Address,
    pub escrow: Escrow,
    pub escrow_state: AccountState,
    pub vault: Address,
    pub vault_state: AccountState,
    pub token_program: Address,
}

/// The calls that create the accounts of `make`, in order.
pub struct MakeCreations {
    pub escrow: CreateAccount,
    pub vault: CreateAssociatedToken,
}

impl Make {
    /// The checks of `check_accounts_spec`, in the order they are made.
    pub open spec fn checks(&self, seed: u64, program_id: Seq<u8>) -> Seq<Result<(), ConstraintError>> {
        let e = canonical_bump_of(escrow_seeds(self.maker@, seed), program_id, self.escrow_key@);
        seq![
            signer_check(self.maker_is_signer),
            token_interface_check(self.token_program@),
            canonical_check(e),
            creation_check(self.escrow_key@, self.escrow_state, self.maker@),
            new_associated_token_check(self.vault@, self.escrow_key@, self.mint_a@, self.token_program@),
            token_account_creation_check(self.vault_state),
        ]
    }

    /// What the account checks of `make` decide: the maker signs, the token
    /// program is a token program, then the accounts the instruction creates:
    /// the escrow (its seeds for this maker and `seed`, canonical bump, which
    /// is returned) and its vault, the escrow's associated token account for
    /// `mint_a`, each not in use yet.
    pub open spec fn check_accounts_spec(&self, seed: u64, program_id: Seq<u8>) -> Result<MakeBumps, EscrowError> {
        let e = canonical_bump_of(escrow_seeds(self.maker@, seed), program_id, self.escrow_key@);
        match first_failure(
            self.checks(seed, program_id),
        ) {
            Err(err) => Err(EscrowError::Constraint(err)),
            Ok(_) => Ok(MakeBumps { escrow: e->Some_0 }),
        }
    }

    /// The account checks of `make`.
    pub fn check_accounts(&self, seed: u64, program_id: &Address) -> (r: Result<MakeBumps, EscrowError>)
        ensures
            r == self.check_accounts_spec(seed, program_id@),
    {
        let e = check_canonical_address(&escrow_seeds_of(&self.maker, seed), program_id, &self.escrow_key);
        let checks = vec![
            check_signer(self.maker_is_signer),
            check_token_interface(&self.token_program),
            check_canonical(e),
            check_creation(&self.escrow_key, &self.escrow_state, &self.maker),
            check_new_associated_token(&self.vault, &self.escrow_key, &self.mint_a, &self.token_program),
            check_token_account_creation(&self.vault_state),
        ];
        match find_first_failure(&checks) {
            Err(err) => Err(EscrowError::Constraint(err)),
            Ok(_) => Ok(MakeBumps { escrow: e.unwrap() }),
        }
    }

    /// The calls that create the accounts of `make`, made once its account
    /// checks pass and give `bumps`, both paid by the maker, in order: the
    /// escrow, a discriminator and `Escrow::INIT_SPACE` bytes held by the
    /// program, funded from `rent` (the rent-exempt minimum for that space)
    /// and signed for by its seeds and bump; then the vault, the escrow's
    /// associated token account for `mint_a`.
    pub fn create_accounts(&self, seed: u64, program_id: &Address, bumps: &MakeBumps, rent: u64) -> (c: MakeCreations)
        ensures
            c.escrow@ == create_account_spec(
                self.maker@,
                self.escrow_key@,
                self.escrow_state,
                rent,
                (8 + Escrow::INIT_SPACE) as u64,
                program_id@,
                Some(with_bump(escrow_seeds(self.maker@, seed), bumps.escrow)),
            ),
            c.vault@ == create_associated_token_spec(self.maker@, self.vault@, self.escrow_key@, self.mint_a@, self.token_program@),
    {
        let escrow = create_account(
            &self.maker,
            &self.escrow_key,
            &self.escrow_state,
            rent,
            (8 + Escrow::INIT_SPACE) as u64,
            program_id,
            Some(crate::pda::seeds_with_bump(&escrow_seeds_of(&self.maker, seed), bumps.escrow)),
        );
        let vault = create_associated_token(&self.maker, &self.vault, &self.escrow_key, &self.mint_a, &self.token_program);
        MakeCreations { escrow, vault }
    }

    /// The transfer of `deposit` base units of `mint_a` into the vault.
    pub open spec fn deposit_spec(&self, deposit: u64) -> TokenTransferView {
        TokenTransferView {
            program: self.token_program@,
            from: self.maker_ata_a@,
            mint: self.mint_a@,
            to: self.vault@,
            authority: self.maker@,
            amount: deposit,
            decimals: self.mint_a_decimals,
            signer_seeds: None,
        }
    }
}

/// The `make` instruction: writes the escrow (its seed, maker, mints, the
/// amount asked for, its bump), then deposits `deposit` of `mint_a` from the
/// maker into the vault.
pub fn make(accounts: &mut Make, seed: u64, receive: u64, deposit: u64, bumps: &MakeBumps) -> (r: Result<TokenTransfer, EscrowError>)
    ensures
        r matches Ok(t) && t@ == old(accounts).deposit_spec(deposit),
        final(accounts).escrow == (Escrow {
            seed,
            maker: old(accounts).maker,
            mint_a: old(accounts).mint_a,
            mint_b: old(accounts).mint_b,
            receive,
            bump: bumps.escrow,
        }),
        *final(accounts) == (Make { escrow: final(accounts).escrow, ..*old(accounts) }),
{
    accounts.escrow = Escrow {
        seed,
        maker: accounts.maker,
        mint_a: accounts.mint_a,
        mint_b: accounts.mint_b,
        receive,
        bump: bumps.escrow,
    };
    Ok(TokenTransfer {
        program: accounts.token_program,
        from: accounts.maker_ata_a,
        mint: accounts.mint_a,
        to: accounts.vault,
        authority: accounts.maker,
        amount: deposit,
        decimals: accounts.mint_a_decimals,
        signer_seeds: None,
    })
}

/// The accounts of `take`: the taker, the maker, the two mints, the token
/// accounts involved, the escrow, its vault and the vault's balance.
pub struct Take {
    pub taker: Address,
    pub taker_is_signer: bool,
    pub maker: Address,
    pub mint_a: Address,
    pub mint_a_decimals: u8,
    pub mint_b: Address,
    pub mint_b_decimals: u8,
    pub taker_ata_a: Address,
    pub taker_ata_b: Address,
    pub maker_ata_b: Address,
    pub escrow_key: Address,
    pub escrow: Escrow,
    pub vault: Address,
    pub vault_amount: u64,
    pub token_program: Address,
}

/// The calls of a take, in order: the taker's payment to the maker, the
/// vault's tokens to the taker, and the closing of the vault.
pub struct TakeCalls {
    pub payment: TokenTransfer,
    pub withdrawal: TokenTransfer,
    pub close: CloseAccount,
}

impl Take {
    /// The checks of `check_accounts_spec`, in the order they are made.
    pub open spec fn checks(&self, program_id: Seq<u8>) -> Seq<Result<(), ConstraintError>> {
        seq![
            signer_check(self.taker_is_signer),
            token_interface_check(self.token_program@),
            has_one_check(self.escrow.maker@ == self.maker@),
            has_one_check(self.escrow.mint_a@ == self.mint_a@),
            has_one_check(self.escrow.mint_b@ == self.mint_b@),
            bump_check(escrow_seeds(self.escrow.maker@, self.escrow.seed), self.escrow.bump, program_id, self.escrow_key@),
        ]
    }

    /// What the account checks of `take` decide: the taker signs, the token
    /// program is a token program, the escrow names the maker and the two
    /// mints, and the escrow is the address of its seeds with its bump.
    pub open spec fn check_accounts_spec(&self, program_id: Seq<u8>) -> Result<(), EscrowError> {
        match first_failure(
            self.checks(program_id),
        ) {
            Err(err) => Err(EscrowError::Constraint(err)),
            Ok(_) => Ok(()),
        }
    }

    /// The account checks of `take`.
    pub fn check_accounts(&self, program_id: &Address) -> (r: Result<(), EscrowError>)
        ensures
            r == self.check_accounts_spec(program_id@),
    {
        let checks = vec![
            check_signer(self.taker_is_signer),
            check_token_interface(&self.token_program),
            check_has_one(self.escrow.maker.same_as(&self.maker)),
            check_has_one(self.escrow.mint_a.same_as(&self.mint_a)),
            check_has_one(self.escrow.mint_b.same_as(&self.mint_b)),
            check_bump(&escrow_seeds_of(&self.escrow.maker, self.escrow.seed), self.escrow.bump, program_id, &self.escrow_key),
        ];
        match find_first_failure(&checks) {
            Err(err) => Err(EscrowError::Constraint(err)),
            Ok(_) => Ok(()),
        }
    }

    /// The seeds, with the escrow's bump, by which the program signs for the
    /// escrow, the owner of the vault.
    pub open spec fn escrow_signer_seeds(&self) -> Seq<Seq<u8>> {
        with_bump(escrow_seeds(self.escrow.maker@, self.escrow.seed), self.escrow.bump)
    }

    /// The taker's payment: the amount the escrow asks for, of `mint_b`, to
    /// the maker.
    pub open spec fn payment_spec(&self) -> TokenTransferView {
        TokenTransferView {
            program: self.token_program@,
            from: self.taker_ata_b@,
            mint: self.mint_b@,
            to: self.maker_ata_b@,
            authority: self.taker@,
            amount: self.escrow.receive,
            decimals: self.mint_b_decimals,
            signer_seeds: None,
        }
    }

    /// The vault's whole balance of `mint_a` to the taker.
    pub open spec fn withdrawal_spec(&self) -> TokenTransferView {
        TokenTransferView {
            program: self.token_program@,
            from: self.vault@,
            mint: self.mint_a@,
            to: self.taker_ata_a@,
            authority: self.escrow_key@,
            amount: self.vault_amount,
            decimals: self.mint_a_decimals,
            signer_seeds: Some(self.escrow_signer_seeds()),
        }
    }

    /// The vault closed, its rent to the maker.
    pub open spec fn close_spec(&self) -> CloseAccountView {
        CloseAccountView {
            program: self.token_program@,
            account: self.vault@,
            destination: self.maker@,
            authority: self.escrow_key@,
            signer_seeds: Some(self.escrow_signer_seeds()),
        }
    }
}

/// The `take` instruction: the taker pays the maker (`deposit`), then the
/// vault's tokens go to the taker and the vault is closed
/// (`withdraw_and_close`).  The seed, amount and deposit it is called with
/// are not read: the escrow already holds them.
pub fn take(accounts: &Take, seed: u64, receive: u64, deposit: u64) -> (r: Result<TakeCalls, EscrowError>)
    ensures
        r matches Ok(c) && c.payment@ == accounts.payment_spec() && c.withdrawal@ == accounts.withdrawal_spec()
            && c.close@ == accounts.close_spec(),
{
    let payment = TokenTransfer {
        program: accounts.token_program,
        from: accounts.taker_ata_b,
        mint: accounts.mint_b,
        to: accounts.maker_ata_b,
        authority: accounts.taker,
        amount: accounts.escrow.receive,
        decimals: accounts.mint_b_decimals,
        signer_seeds: None,
    };
    let seeds = crate::pda::seeds_with_bump(&escrow_seeds_of(&accounts.escrow.maker, accounts.escrow.seed), accounts.escrow.bump);
    let close_seeds = crate::pda::seeds_with_bump(&escrow_seeds_of(&accounts.escrow.maker, accounts.escrow.seed), accounts.escrow.bump);
    let withdrawal = TokenTransfer {
        program: accounts.token_program,
        from: accounts.vault,
        mint: accounts.mint_a,
        to: accounts.taker_ata_a,
        authority: accounts.escrow_key,
        amount: accounts.vault_amount,
        decimals: accounts.mint_a_decimals,
        signer_seeds: Some(seeds),
    };
    let close = CloseAccount {
        program: accounts.token_program,
        account: accounts.vault,
        destination: accounts.maker,
        authority: accounts.escrow_key,
        signer_seeds: Some(close_seeds),
    };
    Ok(TakeCalls { payment, withdrawal, close })
}

/// A make deposits exactly what the maker gives, of the mint the maker
/// offers and with that mint's decimals: `deposit` base units of `mint_a`
/// from the maker's token account into the vault, on the maker's signature.
pub proof fn lemma_make_deposits_what_maker_gives(make: Make, deposit: u64)
    ensures
        make.deposit_spec(deposit).amount == deposit,
        make.deposit_spec(deposit).mint == make.mint_a@,
        make.deposit_spec(deposit).decimals == make.mint_a_decimals,
        make.deposit_spec(deposit).from == make.maker_ata_a@,
        make.deposit_spec(deposit).to == make.vault@,
        make.deposit_spec(deposit).authority == make.maker@,
        make.deposit_spec(deposit).signer_seeds is None,
{
}

/// Each side of a take moves its own mint with that mint's decimals: the
/// taker pays the escrow's asked amount of `mint_b` (declared with
/// `mint_b`'s decimals) to the maker, and receives the vault's whole balance
/// of `mint_a` (declared with `mint_a`'s decimals), and the vault is closed
/// to the maker.
pub proof fn lemma_take_moves_each_mint_with_its_decimals(take: Take)
    ensures
        take.payment_spec().mint == take.mint_b@,
        take.payment_spec().decimals == take.mint_b_decimals,
        take.payment_spec().amount == take.escrow.receive,
        take.payment_spec().from == take.taker_ata_b@,
        take.payment_spec().to == take.maker_ata_b@,
        take.withdrawal_spec().mint == take.mint_a@,
        take.withdrawal_spec().decimals == take.mint_a_decimals,
        take.withdrawal_spec().amount == take.vault_amount,
        take.withdrawal_spec().from == take.vault@,
        take.withdrawal_spec().to == take.taker_ata_a@,
        take.close_spec().account == take.vault@,
        take.close_spec().destination == take.maker@,
{
}

/// A take settles what the make set up: the maker is paid exactly the amount
/// of `mint_b` they asked for, and the taker gets every token the vault
/// holds, of the mint the maker deposited; when the escrow is the address of
/// its seeds, the seeds signed with derive the vault's owner.
pub proof fn lemma_take_settles_make(
    make: Make,
    seed: u64,
    receive: u64,
    deposit: u64,
    bumps: MakeBumps,
    take: Take,
    program_id: Seq<u8>,
)
    requires
        take.escrow == (Escrow {
            seed,
            maker: make.maker,
            mint_a: make.mint_a,
            mint_b: make.mint_b,
            receive,
            bump: bumps.escrow,
        }),
        take.mint_a@ == make.mint_a@,
        take.mint_b@ == make.mint_b@,
        take.vault@ == make.vault@,
        take.vault_amount == deposit,
        take.check_accounts_spec(program_id) is Ok,
    ensures
        take.payment_spec().amount == receive,
        take.payment_spec().mint == make.mint_b@,
        take.withdrawal_spec().from == make.deposit_spec(deposit).to,
        take.withdrawal_spec().mint == make.deposit_spec(deposit).mint,
        take.withdrawal_spec().amount == make.deposit_spec(deposit).amount,
        crate::pda::derived_address(take.withdrawal_spec().signer_seeds.unwrap(), program_id)
            == Some(take.withdrawal_spec().authority),
{
    crate::constraints::lemma_first_failure_ok(take.checks(program_id));
    assert(take.checks(program_id)[5] is Ok);
}

} // verus!
