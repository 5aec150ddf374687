//! The account checks that the programs' account structs ask of the runtime
//! framework before an instruction runs: signers, program ids, associated
//! token accounts, and the NFT metadata accounts of the metadata program.
use vstd::prelude::*;
use crate::address::Address;
use crate::pda::{canonical_bump_of, check_canonical_address, is_program_address, verify_program_address, seeds3, seeds4};

verus! {

/// Why an account check refuses an instruction.
#[derive(Clone, Copy, Debug, PartialEq, Eq, Structural)]
pub enum ConstraintError {
    /// An account that must sign did not.
    AccountNotSigner,
    /// A program account is not the program it must be.
    InvalidProgramId,
    /// An account is not the program derived address its seeds call for.
    ConstraintSeeds,
    /// An account fails a `constraint = ..` of the instruction.
    ConstraintRaw,
    /// An account's field does not name the account it must (`has_one`).
    ConstraintHasOne,
    /// A token account is not owned by the wallet it must be.
    ConstraintTokenOwner,
    /// A token account is not the associated token account of its wallet and mint.
    ConstraintAssociated,
    /// A token account is not held by the token program it must be.
    ConstraintAssociatedTokenTokenProgram,
    /// An account created as an associated token account is not at that address.
    AccountNotAssociatedTokenAccount,
    /// A token account holds another mint than it must.
    ConstraintTokenMint,
    /// An account the instruction creates is already in use.
    AccountAlreadyInUse,
    /// An account the instruction creates, already funded, is the payer itself.
    TryingToInitPayerAsProgramAccount,
}

/// The system program: 32 zero bytes.
pub open spec fn system_program_id() -> Seq<u8> {
    Seq::new(32, |i: int| 0u8)
}

/// The token program, `TokenkegQfeZyiNwAJbNbGKPFXCWuBvf9Ss623VQ5DA`.
pub open spec fn token_program_id() -> Seq<u8> {
    seq![6u8, 221, 246, 225, 215, 101, 161, 147, 217, 203, 225, 70, 206, 235, 121, 172, 28, 180, 133, 237, 95, 91, 55,
        145, 58, 140, 245, 133, 126, 255, 0, 169]
}

/// The token-2022 program, `TokenzQdBNbLqP5VEhdkAS6EPFLC1PHnBqCXEpPxuEb`.
pub open spec fn token_2022_program_id() -> Seq<u8> {
    seq![6u8, 221, 246, 225, 238, 117, 143, 222, 24, 66, 93, 188, 228, 108, 205, 218, 182, 26, 252, 77, 131, 185, 13,
        39, 254, 189, 249, 40, 216, 161, 139, 252]
}

/// The associated token account program, `ATokenGPvbdGVxr1b2hvZbsiqW5xWH25efTNsLJA8knL`.
pub open spec fn associated_token_program_id() -> Seq<u8> {
    seq![140u8, 151, 37, 143, 78, 36, 137, 241, 187, 61, 16, 41, 20, 142, 13, 131, 11, 90, 19, 153, 218, 255, 16, 132,
        4, 142, 123, 216, 219, 233, 248, 89]
}

/// The token metadata program, `metaqbxxUerdq28cj1RbAWkYQm3ybzjb6a8bt518x1s`.
pub open spec fn metadata_program_id() -> Seq<u8> {
    seq![11u8, 112, 101, 177, 227, 209, 124, 69, 56, 157, 82, 127, 107, 4, 195, 205, 88, 184, 108, 115, 26, 160, 253, 181,
        73, 182, 209, 188, 3, 248, 41, 70]
}

pub fn system_program_address() -> (a: Address)
    ensures
        a@ == system_program_id(),
{
    let a = Address::new([0u8; 32]);
    assert(a@ =~= system_program_id());
    a
}

pub fn token_program_address() -> (a: Address)
    ensures
        a@ == token_program_id(),
{
    let a = Address::new([6u8, 221, 246, 225, 215, 101, 161, 147, 217, 203, 225, 70, 206, 235, 121, 172, 28, 180, 133, 237, 95, 91, 55,
        145, 58, 140, 245, 133, 126, 255, 0, 169]);
    assert(a@ =~= token_program_id());
    a
}

pub fn token_2022_program_address() -> (a: Address)
    ensures
        a@ == token_2022_program_id(),
{
    let a = Address::new([6u8, 221, 246, 225, 238, 117, 143, 222, 24, 66, 93, 188, 228, 108, 205, 218, 182, 26, 252, 77, 131, 185, 13,
        39, 254, 189, 249, 40, 216, 161, 139, 252]);
    assert(a@ =~= token_2022_program_id());
    a
}

pub fn associated_token_program_address() -> (a: Address)
    ensures
        a@ == associated_token_program_id(),
{
    let a = Address::new([140u8, 151, 37, 143, 78, 36, 137, 241, 187, 61, 16, 41, 20, 142, 13, 131, 11, 90, 19, 153, 218, 255, 16, 132,
        4, 142, 123, 216, 219, 233, 248, 89]);
    assert(a@ =~= associated_token_program_id());
    a
}

pub fn metadata_program_address() -> (a: Address)
    ensures
        a@ == metadata_program_id(),
{
    let a = Address::new([11u8, 112, 101, 177, 227, 209, 124, 69, 56, 157, 82, 127, 107, 4, 195, 205, 88, 184, 108, 115, 26, 160, 253, 181,
        73, 182, 209, 188, 3, 248, 41, 70]);
    assert(a@ =~= metadata_program_id());
    a
}

/// A signer check: the account must have signed.
pub open spec fn signer_check(is_signer: bool) -> Result<(), ConstraintError> {
    if is_signer { Ok(()) } else { Err(ConstraintError::AccountNotSigner) }
}

pub fn check_signer(is_signer: bool) -> (r: Result<(), ConstraintError>)
    ensures
        r == signer_check(is_signer),
{
    if is_signer { Ok(()) } else { Err(ConstraintError::AccountNotSigner) }
}

/// A program check (`Program<..>`): the account must be the program `id`.
pub open spec fn program_check(key: Seq<u8>, id: Seq<u8>) -> Result<(), ConstraintError> {
    if key == id { Ok(()) } else { Err(ConstraintError::InvalidProgramId) }
}

pub fn check_program(key: &Address, id: &Address) -> (r: Result<(), ConstraintError>)
    ensures
        r == program_check(key@, id@),
{
    if key.same_as(id) { Ok(()) } else { Err(ConstraintError::InvalidProgramId) }
}

/// A token interface check: the account must be the token program or the
/// token-2022 program.
pub open spec fn token_interface_check(key: Seq<u8>) -> Result<(), ConstraintError> {
    if key == token_program_id() || key == token_2022_program_id() {
        Ok(())
    } else {
        Err(ConstraintError::InvalidProgramId)
    }
}

pub fn check_token_interface(key: &Address) -> (r: Result<(), ConstraintError>)
    ensures
        r == token_interface_check(key@),
{
    if key.same_as(&token_program_address()) || key.same_as(&token_2022_program_address()) {
        Ok(())
    } else {
        Err(ConstraintError::InvalidProgramId)
    }
}

/// Seeds of an associated token account: `[wallet, token program, mint]`,
/// under the associated token account program.
pub open spec fn associated_token_seeds(wallet: Seq<u8>, mint: Seq<u8>, token_program: Seq<u8>) -> Seq<Seq<u8>> {
    seq![wallet, token_program, mint]
}

/// Whether `address` is the associated token account of `wallet` for `mint`
/// under `token_program`.
pub open spec fn is_associated_token_address(address: Seq<u8>, wallet: Seq<u8>, mint: Seq<u8>, token_program: Seq<u8>) -> bool {
    canonical_bump_of(associated_token_seeds(wallet, mint, token_program), associated_token_program_id(), address) is Some
}

/// What the runtime knows of a token account: its address, the program that
/// holds it, and the mint and the wallet its data names.
#[derive(Clone, Copy, Debug)]
pub struct TokenAccountInfo {
    pub key: Address,
    pub program_owner: Address,
    pub mint: Address,
    pub owner: Address,
}

/// The check of `associated_token::mint = mint, associated_token::authority
/// = wallet` on an existing token account, with
/// `associated_token::token_program = token_program` when `check_program`:
/// the account is held by that token program, its owner is the wallet, and
/// it is at the associated token address.
pub open spec fn associated_token_check(
    account: TokenAccountInfo,
    wallet: Seq<u8>,
    mint: Seq<u8>,
    token_program: Seq<u8>,
    check_program: bool,
) -> Result<(), ConstraintError> {
    if check_program && account.program_owner@ != token_program {
        Err(ConstraintError::ConstraintAssociatedTokenTokenProgram)
    } else if account.owner@ != wallet {
        Err(ConstraintError::ConstraintTokenOwner)
    } else if !is_associated_token_address(account.key@, wallet, mint, token_program) {
        Err(ConstraintError::ConstraintAssociated)
    } else {
        Ok(())
    }
}

fn associated_token_seeds_of(wallet: &Address, mint: &Address, token_program: &Address) -> (s: Vec<Vec<u8>>)
    ensures
        s.deep_view() == associated_token_seeds(wallet@, mint@, token_program@),
{
    seeds3(wallet.to_seed(), token_program.to_seed(), mint.to_seed())
}

/// Whether `address` is the associated token account of `wallet` for `mint`.
pub fn check_associated_token_address(address: &Address, wallet: &Address, mint: &Address, token_program: &Address) -> (r: bool)
    ensures
        r == is_associated_token_address(address@, wallet@, mint@, token_program@),
{
    check_canonical_address(
        &associated_token_seeds_of(wallet, mint, token_program),
        &associated_token_program_address(),
        address,
    ).is_some()
}

pub fn check_associated_token(
    account: &TokenAccountInfo,
    wallet: &Address,
    mint: &Address,
    token_program: &Address,
    check_program: bool,
) -> (r: Result<(), ConstraintError>)
    ensures
        r == associated_token_check(*account, wallet@, mint@, token_program@, check_program),
{
    if check_program && !account.program_owner.same_as(token_program) {
        return Err(ConstraintError::ConstraintAssociatedTokenTokenProgram);
    }
    if !account.owner.same_as(wallet) {
        return Err(ConstraintError::ConstraintTokenOwner);
    }
    if !check_associated_token_address(&account.key, wallet, mint, token_program) {
        return Err(ConstraintError::ConstraintAssociated);
    }
    Ok(())
}

/// The check on an account that the instruction creates as an associated
/// token account: it must be at the associated token address.
pub open spec fn new_associated_token_check(address: Seq<u8>, wallet: Seq<u8>, mint: Seq<u8>, token_program: Seq<u8>) -> Result<(), ConstraintError> {
    if is_associated_token_address(address, wallet, mint, token_program) {
        Ok(())
    } else {
        Err(ConstraintError::AccountNotAssociatedTokenAccount)
    }
}

pub fn check_new_associated_token(address: &Address, wallet: &Address, mint: &Address, token_program: &Address) -> (r: Result<(), ConstraintError>)
    ensures
        r == new_associated_token_check(address@, wallet@, mint@, token_program@),
{
    if check_associated_token_address(address, wallet, mint, token_program) {
        Ok(())
    } else {
        Err(ConstraintError::AccountNotAssociatedTokenAccount)
    }
}

/// `b"metadata"`
pub open spec fn metadata_tag() -> Seq<u8> {
    seq![109u8, 101, 116, 97, 100, 97, 116, 97]
}

/// `b"edition"`
pub open spec fn edition_tag() -> Seq<u8> {
    seq![101u8, 100, 105, 116, 105, 111, 110]
}

/// Seeds of an NFT's metadata account: `[b"metadata", metadata program, mint]`.
pub open spec fn metadata_seeds(mint: Seq<u8>) -> Seq<Seq<u8>> {
    seq![metadata_tag(), metadata_program_id(), mint]
}

/// Seeds of an NFT's master edition: `[b"metadata", metadata program, mint, b"edition"]`.
pub open spec fn master_edition_seeds(mint: Seq<u8>) -> Seq<Seq<u8>> {
    seq![metadata_tag(), metadata_program_id(), mint, edition_tag()]
}

/// The check of `seeds = [..], seeds::program = metadata_program, bump`: the
/// account is the metadata program's address of `seeds`, with their
/// canonical bump.
pub open spec fn metadata_address_check(seeds: Seq<Seq<u8>>, address: Seq<u8>) -> Result<(), ConstraintError> {
    if canonical_bump_of(seeds, metadata_program_id(), address) is Some {
        Ok(())
    } else {
        Err(ConstraintError::ConstraintSeeds)
    }
}

pub fn check_metadata_address(mint: &Address, address: &Address) -> (r: Result<(), ConstraintError>)
    ensures
        r == metadata_address_check(metadata_seeds(mint@), address@),
{
    let tag: Vec<u8> = vec![109u8, 101, 116, 97, 100, 97, 116, 97];
    assert(tag@ =~= metadata_tag());
    let seeds = seeds3(tag, metadata_program_address().to_seed(), mint.to_seed());
    if check_canonical_address(&seeds, &metadata_program_address(), address).is_some() {
        Ok(())
    } else {
        Err(ConstraintError::ConstraintSeeds)
    }
}

pub fn check_master_edition_address(mint: &Address, address: &Address) -> (r: Result<(), ConstraintError>)
    ensures
        r == metadata_address_check(master_edition_seeds(mint@), address@),
{
    let tag: Vec<u8> = vec![109u8, 101, 116, 97, 100, 97, 116, 97];
    assert(tag@ =~= metadata_tag());
    let edition: Vec<u8> = vec![101u8, 100, 105, 116, 105, 111, 110];
    assert(edition@ =~= edition_tag());
    let seeds = seeds4(tag, metadata_program_address().to_seed(), mint.to_seed(), edition);
    if check_canonical_address(&seeds, &metadata_program_address(), address).is_some() {
        Ok(())
    } else {
        Err(ConstraintError::ConstraintSeeds)
    }
}

/// The check of `seeds = [..], bump` with no bump given: it passes when
/// the seeds derive the account with their canonical bump.
pub open spec fn canonical_check(bump: Option<u8>) -> Result<(), ConstraintError> {
    if bump is Some { Ok(()) } else { Err(ConstraintError::ConstraintSeeds) }
}

/// The check of `seeds = [..], bump = b`: the seeds and `b` derive the account.
pub open spec fn bump_check(seeds: Seq<Seq<u8>>, bump: u8, program_id: Seq<u8>, address: Seq<u8>) -> Result<(), ConstraintError> {
    if is_program_address(seeds, bump, program_id, address) { Ok(()) } else { Err(ConstraintError::ConstraintSeeds) }
}

/// A raw `constraint = ..` check.
pub open spec fn raw_check(holds: bool) -> Result<(), ConstraintError> {
    if holds { Ok(()) } else { Err(ConstraintError::ConstraintRaw) }
}

pub fn check_bump(seeds: &Vec<Vec<u8>>, bump: u8, program_id: &Address, address: &Address) -> (r: Result<(), ConstraintError>)
    ensures
        r == bump_check(seeds.deep_view(), bump, program_id@, address@),
{
    if verify_program_address(seeds, bump, program_id, address) { Ok(()) } else { Err(ConstraintError::ConstraintSeeds) }
}

/// The first failing check of `checks`, in order, or `Ok` when all pass.
pub open spec fn first_failure(checks: Seq<Result<(), ConstraintError>>) -> Result<(), ConstraintError>
    decreases checks.len(),
{
    if checks.len() == 0 {
        Ok(())
    } else if checks[0] is Err {
        checks[0]
    } else {
        first_failure(checks.drop_first())
    }
}

/// When no check fails, every check passes.
pub proof fn lemma_first_failure_ok(checks: Seq<Result<(), ConstraintError>>)
    ensures
        first_failure(checks) is Ok ==> forall|i: int| 0 <= i < checks.len() ==> #[trigger] checks[i] is Ok,
    decreases checks.len(),
{
    if checks.len() > 0 && checks[0] is Ok {
        lemma_first_failure_ok(checks.drop_first());
        assert forall|i: int| 0 <= i < checks.len() && first_failure(checks) is Ok implies #[trigger] checks[i] is Ok by {
            if i > 0 {
                assert(checks.drop_first()[i - 1] == checks[i]);
            }
        }
    }
}

/// The first failing check of `checks`.
pub fn find_first_failure(checks: &Vec<Result<(), ConstraintError>>) -> (r: Result<(), ConstraintError>)
    ensures
        r == first_failure(checks@),
        r is Ok ==> forall|i: int| 0 <= i < checks@.len() ==> #[trigger] checks@[i] is Ok,
{
    proof {
        lemma_first_failure_ok(checks@);
    }
    let mut r: Result<(), ConstraintError> = Ok(());
    let mut i: usize = checks.len();
    assert(checks@.subrange(i as int, checks@.len() as int) =~= Seq::<Result<(), ConstraintError>>::empty());
    while i > 0
        invariant
            i <= checks@.len(),
            r == first_failure(checks@.subrange(i as int, checks@.len() as int)),
        decreases i,
    {
        i = i - 1;
        let ghost tail = checks@.subrange(i as int, checks@.len() as int);
        assert(tail.drop_first() =~= checks@.subrange(i + 1, checks@.len() as int));
        assert(tail[0] == checks@[i as int]);
        match &checks[i] {
            Err(e) => {
                r = Err(*e);
            },
            Ok(_) => {},
        }
    }
    assert(checks@.subrange(0, checks@.len() as int) =~= checks@);
    r
}

pub fn check_canonical(bump: Option<u8>) -> (r: Result<(), ConstraintError>)
    ensures
        r == canonical_check(bump),
{
    if bump.is_some() { Ok(()) } else { Err(ConstraintError::ConstraintSeeds) }
}

pub fn check_raw(holds: bool) -> (r: Result<(), ConstraintError>)
    ensures
        r == raw_check(holds),
{
    if holds { Ok(()) } else { Err(ConstraintError::ConstraintRaw) }
}

/// The check of `init_if_needed` with `associated_token::mint = mint,
/// associated_token::authority = wallet, associated_token::token_program =
/// token_program`: an account the system program still holds is to be
/// created, and must be at the associated token address; an existing one must
/// hold `mint`, be owned by `wallet`, be held by `token_program` and be at the
/// associated token address.
pub open spec fn if_needed_associated_token_check(
    account: TokenAccountInfo,
    wallet: Seq<u8>,
    mint: Seq<u8>,
    token_program: Seq<u8>,
) -> Result<(), ConstraintError> {
    if account.program_owner@ == system_program_id() {
        new_associated_token_check(account.key@, wallet, mint, token_program)
    } else if account.mint@ != mint {
        Err(ConstraintError::ConstraintTokenMint)
    } else if account.owner@ != wallet {
        Err(ConstraintError::ConstraintTokenOwner)
    } else if account.program_owner@ != token_program {
        Err(ConstraintError::ConstraintAssociatedTokenTokenProgram)
    } else if !is_associated_token_address(account.key@, wallet, mint, token_program) {
        Err(ConstraintError::AccountNotAssociatedTokenAccount)
    } else {
        Ok(())
    }
}

pub fn check_if_needed_associated_token(
    account: &TokenAccountInfo,
    wallet: &Address,
    mint: &Address,
    token_program: &Address,
) -> (r: Result<(), ConstraintError>)
    ensures
        r == if_needed_associated_token_check(*account, wallet@, mint@, token_program@),
{
    if account.program_owner.same_as(&system_program_address()) {
        return check_new_associated_token(&account.key, wallet, mint, token_program);
    }
    if !account.mint.same_as(mint) {
        return Err(ConstraintError::ConstraintTokenMint);
    }
    if !account.owner.same_as(wallet) {
        return Err(ConstraintError::ConstraintTokenOwner);
    }
    if !account.program_owner.same_as(token_program) {
        return Err(ConstraintError::ConstraintAssociatedTokenTokenProgram);
    }
    if !check_associated_token_address(&account.key, wallet, mint, token_program) {
        return Err(ConstraintError::AccountNotAssociatedTokenAccount);
    }
    Ok(())
}

/// When every check passes, no check fails.
pub proof fn lemma_first_failure_all_ok(checks: Seq<Result<(), ConstraintError>>)
    requires
        forall|i: int| 0 <= i < checks.len() ==> #[trigger] checks[i] is Ok,
    ensures
        first_failure(checks) == Ok::<(), ConstraintError>(()),
    decreases checks.len(),
{
    if checks.len() > 0 {
        assert forall|i: int| 0 <= i < checks.drop_first().len() implies #[trigger] checks.drop_first()[i] is Ok by {
            assert(checks.drop_first()[i] == checks[i + 1]);
        }
        lemma_first_failure_all_ok(checks.drop_first());
    }
}

/// The first failure of two runs of checks is that of the first run, or,
/// when it passes, that of the second.
pub proof fn lemma_first_failure_append(a: Seq<Result<(), ConstraintError>>, b: Seq<Result<(), ConstraintError>>)
    ensures
        first_failure(a + b) == (if first_failure(a) is Err { first_failure(a) } else { first_failure(b) }),
    decreases a.len(),
{
    if a.len() == 0 {
        assert(a + b =~= b);
    } else {
        assert((a + b)[0] == a[0]);
        assert((a + b).drop_first() =~= a.drop_first() + b);
        lemma_first_failure_append(a.drop_first(), b);
    }
}

} // verus!
