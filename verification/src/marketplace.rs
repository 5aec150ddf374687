//! The NFT marketplace program: a marketplace with a fee in basis points and a
//! treasury, listings that hold a maker's NFT in a vault, delisting, and
//! purchases that split the price between the maker and the treasury.
use vstd::prelude::*;
use crate::address::Address;
use crate::pda::{canonical_bump_of, is_program_address, check_canonical_address, seeds2, seeds_with_bump, with_bump};
use crate::constraints::{
    ConstraintError, TokenAccountInfo, signer_check, program_check, token_interface_check, canonical_check, bump_check,
    raw_check, first_failure, find_first_failure, lemma_first_failure_append, check_canonical, check_raw, associated_token_check, new_associated_token_check, metadata_address_check, metadata_seeds,
    master_edition_seeds, system_program_id, associated_token_program_id, metadata_program_id, check_signer,
    check_program, check_token_interface, check_bump, check_associated_token, check_new_associated_token,
    check_metadata_address, check_master_edition_address, system_program_address, associated_token_program_address,
    metadata_program_address, if_needed_associated_token_check, check_if_needed_associated_token,
    is_associated_token_address, token_program_id, token_2022_program_id,
};
use crate::seeds::{marketplace_tag, treasury_tag, rewards_tag, marketplace_tag_bytes, treasury_tag_bytes, rewards_tag_bytes};
use crate::create::{
    AccountState, CreateAccount, CreateMint, CreateAssociatedToken, creation_check, in_use, token_account_creation_check,
    check_creation, check_token_account_creation, create_account, create_mint, create_associated_token, create_associated_token_if_needed,
    create_account_spec, create_mint_spec, create_associated_token_spec,
};
use crate::transfer::{LamportTransfer, LamportTransferView, TokenTransfer, TokenTransferView, CloseProgramAccount, CloseProgramAccountView};

verus! {

/// The highest fee a marketplace may charge, in basis points (100%).
pub const MAX_FEE_BPS: u16 = 10000;

/// Why a marketplace instruction is refused.
#[derive(Clone, Copy, Debug, PartialEq, Eq, Structural)]
pub enum MarketplaceError {
    /// The fee is above `MAX_FEE_BPS`.
    InvalidFee,
    /// The fee times the price does not fit in a `u64`.
    Overflow,
    /// The fee is larger than the price.
    Underflow,
    /// The account paid as seller is not the listing's maker.
    MakerMismatch,
    /// An account fails a check of the instruction's account constraints.
    Constraint(ConstraintError),
}

/// `value` when every check of `checks` passes, else the first failure.
pub open spec fn after_checks<T>(checks: Seq<Result<(), ConstraintError>>, value: T) -> Result<T, MarketplaceError> {
    match first_failure(checks) {
        Err(e) => Err(MarketplaceError::Constraint(e)),
        Ok(_) => Ok(value),
    }
}

/// The marketplace account: its admin, its fee in basis points, the bumps of
/// its own address, of its treasury and of its reward mint, and its name.
pub struct Marketplace {
    pub admin: Address,
    pub fee: u16,
    pub bump: u8,
    pub treasury_bump: u8,
    pub rewards_bumps: u8,
    pub name: String,
}

impl Marketplace {
    /// Bytes the account takes: discriminator, admin, fee, three bumps and a
    /// name of at most 32 bytes behind its length.
    pub const INIT_SPACE: usize = 8 + 32 + 2 + 3 * 1 + (4 + 32);
}

/// A listing: who lists which NFT, at what price in lamports.
#[derive(Clone, Copy, Debug)]
pub struct Listing {
    pub maker: Address,
    pub maker_mint: Address,
    pub price: u64,
    pub bump: u8,
}

impl Listing {
    /// Bytes the listing's data takes: maker, mint, price and bump.
    pub const INIT_SPACE: usize = 32 + 32 + 8 + 1;
}

/// The UTF-8 bytes of a marketplace's name.
pub open spec fn name_bytes(name: Seq<char>) -> Seq<u8> {
    vstd::utf8::encode_utf8(name)
}

/// Seeds of the marketplace account: `[b"marketplace", name]`.
pub open spec fn marketplace_seeds(name: Seq<char>) -> Seq<Seq<u8>> {
    seq![marketplace_tag(), name_bytes(name)]
}

/// Seeds of the treasury: `[b"treasury", marketplace]`.
pub open spec fn treasury_seeds(marketplace: Seq<u8>) -> Seq<Seq<u8>> {
    seq![treasury_tag(), marketplace]
}

/// Seeds of the reward mint: `[b"rewards", marketplace]`.
pub open spec fn rewards_seeds(marketplace: Seq<u8>) -> Seq<Seq<u8>> {
    seq![rewards_tag(), marketplace]
}

/// Seeds of a listing: `[marketplace, mint]`.
pub open spec fn listing_seeds(marketplace: Seq<u8>, mint: Seq<u8>) -> Seq<Seq<u8>> {
    seq![marketplace, mint]
}

pub fn marketplace_seeds_of(name: &String) -> (s: Vec<Vec<u8>>)
    ensures
        s.deep_view() == marketplace_seeds(name@),
{
    let bytes = vstd::slice::slice_to_vec(name.as_str().as_bytes());
    let s = seeds2(marketplace_tag_bytes(), bytes);
    assert(s.deep_view() =~= marketplace_seeds(name@));
    s
}

pub fn treasury_seeds_of(marketplace: &Address) -> (s: Vec<Vec<u8>>)
    ensures
        s.deep_view() == treasury_seeds(marketplace@),
{
    let s = seeds2(treasury_tag_bytes(), marketplace.to_seed());
    assert(s.deep_view() =~= treasury_seeds(marketplace@));
    s
}

pub fn rewards_seeds_of(marketplace: &Address) -> (s: Vec<Vec<u8>>)
    ensures
        s.deep_view() == rewards_seeds(marketplace@),
{
    let s = seeds2(rewards_tag_bytes(), marketplace.to_seed());
    assert(s.deep_view() =~= rewards_seeds(marketplace@));
    s
}

pub fn listing_seeds_of(marketplace: &Address, mint: &Address) -> (s: Vec<Vec<u8>>)
    ensures
        s.deep_view() == listing_seeds(marketplace@, mint@),
{
    let s = seeds2(marketplace.to_seed(), mint.to_seed());
    assert(s.deep_view() =~= listing_seeds(marketplace@, mint@));
    s
}

/// Bumps of the accounts that `Initialize` creates.
#[derive(Clone, Copy, Debug)]
pub struct InitializeBumps {
    pub marketplace: u8,
    pub treasury: u8,
    pub reward_mint: u8,
}

/// The calls that create the accounts of `initialize`.
pub struct InitializeCreations {
    pub marketplace: CreateAccount,
    pub reward_mint: CreateMint,
}

/// The accounts of the `initialize` instruction: the admin who pays and
/// signs, the marketplace account, its treasury, its reward mint, and the
/// system and token programs.
pub struct Initialize {
    pub admin: Address,
    pub admin_is_signer: bool,
    pub marketplace_key: Address,
    pub treasury: Address,
    pub reward_mint: Address,
    pub system_program: Address,
    pub token_program: Address,
    pub marketplace: Marketplace,
    pub marketplace_state: AccountState,
    pub reward_mint_state: AccountState,
}

/// The marketplace that `init` writes.
pub open spec fn initialized_marketplace(admin: Address, name: String, fee: u16, bumps: InitializeBumps) -> Marketplace {
    Marketplace {
        admin,
        fee,
        bump: bumps.marketplace,
        treasury_bump: bumps.treasury,
        rewards_bumps: bumps.reward_mint,
        name,
    }
}

impl Initialize {
    /// The checks of `check_accounts_spec`, in the order they are made.
    pub open spec fn checks(&self, name: Seq<char>, program_id: Seq<u8>) -> Seq<Result<(), ConstraintError>> {
        let m = canonical_bump_of(marketplace_seeds(name), program_id, self.marketplace_key@);
        let r = canonical_bump_of(rewards_seeds(self.marketplace_key@), program_id, self.reward_mint@);
        let t = canonical_bump_of(treasury_seeds(self.marketplace_key@), program_id, self.treasury@);
        seq![
            signer_check(self.admin_is_signer),
            program_check(self.system_program@, system_program_id()),
            token_interface_check(self.token_program@),
            canonical_check(m),
            creation_check(self.marketplace_key@, self.marketplace_state, self.admin@),
            canonical_check(r),
            creation_check(self.reward_mint@, self.reward_mint_state, self.admin@),
            canonical_check(t),
        ]
    }

    /// What the account checks of `initialize` decide: the admin signs, the
    /// programs are the system program and a token program, then the
    /// accounts the instruction creates (the marketplace, the reward mint),
    /// each the address of its seeds with the canonical bump and not in use
    /// yet, and the treasury, the address of its seeds with the canonical
    /// bump.
    pub open spec fn check_accounts_spec(&self, name: Seq<char>, program_id: Seq<u8>) -> Result<InitializeBumps, MarketplaceError> {
        let m = canonical_bump_of(marketplace_seeds(name), program_id, self.marketplace_key@);
        let r = canonical_bump_of(rewards_seeds(self.marketplace_key@), program_id, self.reward_mint@);
        let t = canonical_bump_of(treasury_seeds(self.marketplace_key@), program_id, self.treasury@);
        after_checks(
            self.checks(name, program_id),
            InitializeBumps { marketplace: m->Some_0, treasury: t->Some_0, reward_mint: r->Some_0 },
        )
    }

    /// The account checks of `initialize`, which give the bumps the
    /// instruction is run with.
    pub fn check_accounts(&self, name: &String, program_id: &Address) -> (r: Result<InitializeBumps, MarketplaceError>)
        ensures
            r == self.check_accounts_spec(name@, program_id@),
    {
        let m = check_canonical_address(&marketplace_seeds_of(name), program_id, &self.marketplace_key);
        let rw = check_canonical_address(&rewards_seeds_of(&self.marketplace_key), program_id, &self.reward_mint);
        let t = check_canonical_address(&treasury_seeds_of(&self.marketplace_key), program_id, &self.treasury);
        let checks = vec![
            check_signer(self.admin_is_signer),
            check_program(&self.system_program, &system_program_address()),
            check_token_interface(&self.token_program),
            check_canonical(m),
            check_creation(&self.marketplace_key, &self.marketplace_state, &self.admin),
            check_canonical(rw),
            check_creation(&self.reward_mint, &self.reward_mint_state, &self.admin),
            check_canonical(t),
        ];
        match find_first_failure(&checks) {
            Err(e) => Err(MarketplaceError::Constraint(e)),
            Ok(_) => Ok(InitializeBumps { marketplace: m.unwrap(), treasury: t.unwrap(), reward_mint: rw.unwrap() }),
        }
    }

    /// The calls that create the accounts of `initialize`, made once its
    /// account checks pass and give `bumps`, in order: the marketplace
    /// account, `Marketplace::INIT_SPACE` bytes held by the program, funded by
    /// the admin from `marketplace_rent` (the rent-exempt minimum for that
    /// space); then the reward mint, held by the token program, funded from
    /// `mint_rent` (the minimum for a mint), with six decimals and the
    /// marketplace as authority.  Each is signed for by its seeds and bump.
    pub fn create_accounts(
        &self,
        name: &String,
        program_id: &Address,
        bumps: &InitializeBumps,
        marketplace_rent: u64,
        mint_rent: u64,
    ) -> (c: InitializeCreations)
        ensures
            c.marketplace@ == create_account_spec(
                self.admin@,
                self.marketplace_key@,
                self.marketplace_state,
                marketplace_rent,
                Marketplace::INIT_SPACE as u64,
                program_id@,
                Some(with_bump(marketplace_seeds(name@), bumps.marketplace)),
            ),
            (c.reward_mint.account@, c.reward_mint.initialize@) == create_mint_spec(
                self.admin@,
                self.reward_mint@,
                self.reward_mint_state,
                mint_rent,
                self.token_program@,
                self.marketplace_key@,
                Some(with_bump(rewards_seeds(self.marketplace_key@), bumps.reward_mint)),
            ),
    {
        let marketplace = create_account(
            &self.admin,
            &self.marketplace_key,
            &self.marketplace_state,
            marketplace_rent,
            Marketplace::INIT_SPACE as u64,
            program_id,
            Some(seeds_with_bump(&marketplace_seeds_of(name), bumps.marketplace)),
        );
        let reward_mint = create_mint(
            &self.admin,
            &self.reward_mint,
            &self.reward_mint_state,
            mint_rent,
            &self.token_program,
            &self.marketplace_key,
            Some(seeds_with_bump(&rewards_seeds_of(&self.marketplace_key), bumps.reward_mint)),
        );
        InitializeCreations { marketplace, reward_mint }
    }

    /// Writes the new marketplace: the admin, the fee, the bumps and the
    /// name.  A fee above `MAX_FEE_BPS` is refused and nothing is written.
    pub fn init(&mut self, name: String, fee: u16, bumps: &InitializeBumps) -> (r: Result<(), MarketplaceError>)
        ensures
            fee > MAX_FEE_BPS ==> r == Err::<(), MarketplaceError>(MarketplaceError::InvalidFee) && *final(self) == *old(self),
            fee <= MAX_FEE_BPS ==> r == Ok::<(), MarketplaceError>(()) && *final(self) == (Initialize {
                marketplace: initialized_marketplace(old(self).admin, name, fee, *bumps),
                ..*old(self)
            }),
    {
        if fee > MAX_FEE_BPS {
            return Err(MarketplaceError::InvalidFee);
        }
        self.marketplace = Marketplace {
            admin: self.admin,
            fee,
            bump: bumps.marketplace,
            treasury_bump: bumps.treasury,
            rewards_bumps: bumps.reward_mint,
            name,
        };
        Ok(())
    }
}

/// The `initialize` instruction: refuses a fee above `MAX_FEE_BPS`, then
/// writes the marketplace as `Initialize::init` does.
pub fn initialize(accounts: &mut Initialize, name: String, fee: u16, bumps: &InitializeBumps) -> (r: Result<(), MarketplaceError>)
    ensures
        fee > MAX_FEE_BPS ==> r == Err::<(), MarketplaceError>(MarketplaceError::InvalidFee) && *final(accounts) == *old(accounts),
        fee <= MAX_FEE_BPS ==> r == Ok::<(), MarketplaceError>(()) && *final(accounts) == (Initialize {
            marketplace: initialized_marketplace(old(accounts).admin, name, fee, *bumps),
            ..*old(accounts)
        }),
{
    if fee > MAX_FEE_BPS {
        return Err(MarketplaceError::InvalidFee);
    }
    accounts.init(name, fee, bumps)
}

/// Bumps of the accounts that `List` creates.
#[derive(Clone, Copy, Debug)]
pub struct ListBumps {
    pub listing: u8,
}

/// The collection that an NFT's metadata names, and whether the collection's
/// authority has verified the NFT as one of its own.
#[derive(Clone, Copy, Debug)]
pub struct Collection {
    pub key: Address,
    pub verified: bool,
}

/// The calls that create the accounts of `list`.
pub struct ListCreations {
    pub vault: CreateAssociatedToken,
    pub listing: CreateAccount,
}

/// The accounts of the `list` instruction: the maker, who signs; the
/// marketplace; the NFT's mint and the maker's token account for it; the
/// vault and the listing that the instruction creates; the collection the
/// NFT must belong to, its metadata and master edition; and the metadata,
/// associated token, system and token programs.
pub struct List {
    pub maker: Address,
    pub maker_is_signer: bool,
    pub marketplace_key: Address,
    pub marketplace: Marketplace,
    pub maker_mint: Address,
    pub maker_mint_decimals: u8,
    pub maker_ata: TokenAccountInfo,
    pub vault: Address,
    pub vault_state: AccountState,
    pub listing_key: Address,
    pub listing: Listing,
    pub listing_state: AccountState,
    pub collection_mint: Address,
    pub metadata: Address,
    pub metadata_collection: Option<Collection>,
    pub master_edition: Address,
    pub metadata_program: Address,
    pub associated_token_program: Address,
    pub system_program: Address,
    pub token_program: Address,
}

impl List {
    /// The checks of `check_accounts_spec` made before the metadata's
    /// collection is read, in order.
    pub open spec fn checks_before_collection(&self, program_id: Seq<u8>) -> Seq<Result<(), ConstraintError>> {
        let l = canonical_bump_of(listing_seeds(self.marketplace_key@, self.maker_mint@), program_id, self.listing_key@);
        seq![
            signer_check(self.maker_is_signer),
            program_check(self.metadata_program@, metadata_program_id()),
            program_check(self.associated_token_program@, associated_token_program_id()),
            program_check(self.system_program@, system_program_id()),
            token_interface_check(self.token_program@),
            new_associated_token_check(self.vault@, self.listing_key@, self.maker_mint@, self.token_program@),
            token_account_creation_check(self.vault_state),
            canonical_check(l),
            creation_check(self.listing_key@, self.listing_state, self.maker@),
            canonical_check(canonical_bump_of(marketplace_seeds(self.marketplace.name@), program_id, self.marketplace_key@)),
            associated_token_check(self.maker_ata, self.maker@, self.maker_mint@, self.token_program@, true),
            metadata_address_check(metadata_seeds(self.maker_mint@), self.metadata@),
        ]
    }

    /// The checks of `check_accounts_spec` from the metadata's collection
    /// on, in order.
    pub open spec fn checks_from_collection(&self) -> Seq<Result<(), ConstraintError>> {
        let c = self.metadata_collection.unwrap();
        seq![
            raw_check(c.key@ == self.collection_mint@),
            raw_check(c.verified),
            metadata_address_check(master_edition_seeds(self.maker_mint@), self.master_edition@),
        ]
    }

    /// The checks of `check_accounts_spec`, in the order they are made.
    pub open spec fn checks(&self, program_id: Seq<u8>) -> Seq<Result<(), ConstraintError>> {
        self.checks_before_collection(program_id) + self.checks_from_collection()
    }

    /// What the account checks of `list` decide, in the order they are made:
    /// the signer and the programs; the accounts the instruction creates, not
    /// in use yet (the vault, as the listing's associated token account, and
    /// the listing, whose canonical bump is returned); the marketplace's
    /// seeds; the maker's token account; the metadata's address and
    /// collection; the master edition's address.
    pub open spec fn check_accounts_spec(&self, program_id: Seq<u8>) -> Result<ListBumps, MarketplaceError> {
        let l = canonical_bump_of(listing_seeds(self.marketplace_key@, self.maker_mint@), program_id, self.listing_key@);
        after_checks(
            self.checks(program_id),
            ListBumps { listing: l->Some_0 },
        )
    }

    /// The account checks of `list` made before the metadata's collection is
    /// read, with the bump they give.
    pub fn check_accounts_before_collection(&self, program_id: &Address) -> (r: Result<ListBumps, MarketplaceError>)
        ensures
            r == after_checks(
                self.checks_before_collection(program_id@),
                ListBumps {
                    listing: canonical_bump_of(
                        listing_seeds(self.marketplace_key@, self.maker_mint@),
                        program_id@,
                        self.listing_key@,
                    )->Some_0,
                },
            ),
    {
        let l = check_canonical_address(&listing_seeds_of(&self.marketplace_key, &self.maker_mint), program_id, &self.listing_key);
        let m = check_canonical_address(&marketplace_seeds_of(&self.marketplace.name), program_id, &self.marketplace_key);
        let before = vec![
            check_signer(self.maker_is_signer),
            check_program(&self.metadata_program, &metadata_program_address()),
            check_program(&self.associated_token_program, &associated_token_program_address()),
            check_program(&self.system_program, &system_program_address()),
            check_token_interface(&self.token_program),
            check_new_associated_token(&self.vault, &self.listing_key, &self.maker_mint, &self.token_program),
            check_token_account_creation(&self.vault_state),
            check_canonical(l),
            check_creation(&self.listing_key, &self.listing_state, &self.maker),
            check_canonical(m),
            check_associated_token(&self.maker_ata, &self.maker, &self.maker_mint, &self.token_program, true),
            check_metadata_address(&self.maker_mint, &self.metadata),
        ];
        match find_first_failure(&before) {
            Err(e) => Err(MarketplaceError::Constraint(e)),
            Ok(_) => Ok(ListBumps { listing: l.unwrap() }),
        }
    }

    /// The account checks of `list`.  Once the checks before it pass, the
    /// metadata must name a collection.
    pub fn check_accounts(&self, program_id: &Address) -> (r: Result<ListBumps, MarketplaceError>)
        requires
            first_failure(self.checks_before_collection(program_id@)) is Err || self.metadata_collection is Some,
        ensures
            r == self.check_accounts_spec(program_id@),
    {
        proof {
            lemma_first_failure_append(self.checks_before_collection(program_id@), self.checks_from_collection());
        }
        let bumps = match self.check_accounts_before_collection(program_id) {
            Err(e) => return Err(e),
            Ok(b) => b,
        };
        let c = self.metadata_collection.unwrap();
        let from_collection = vec![
            check_raw(c.key.same_as(&self.collection_mint)),
            check_raw(c.verified),
            check_master_edition_address(&self.maker_mint, &self.master_edition),
        ];
        match find_first_failure(&from_collection) {
            Err(e) => Err(MarketplaceError::Constraint(e)),
            Ok(_) => Ok(bumps),
        }
    }

    /// The calls that create the accounts of `list`, made once its account
    /// checks pass and give `bumps`, in order: the vault, the listing's
    /// associated token account for the NFT's mint, paid by the maker; then
    /// the listing, `Listing::INIT_SPACE` bytes held by the program, funded by
    /// the maker from `listing_rent` (the rent-exempt minimum for that space)
    /// and signed for by its seeds and bump.
    pub fn create_accounts(&self, program_id: &Address, bumps: &ListBumps, listing_rent: u64) -> (c: ListCreations)
        ensures
            c.vault@ == create_associated_token_spec(
                self.maker@,
                self.vault@,
                self.listing_key@,
                self.maker_mint@,
                self.token_program@,
            ),
            c.listing@ == create_account_spec(
                self.maker@,
                self.listing_key@,
                self.listing_state,
                listing_rent,
                Listing::INIT_SPACE as u64,
                program_id@,
                Some(with_bump(listing_seeds(self.marketplace_key@, self.maker_mint@), bumps.listing)),
            ),
    {
        let vault = create_associated_token(&self.maker, &self.vault, &self.listing_key, &self.maker_mint, &self.token_program);
        let listing = create_account(
            &self.maker,
            &self.listing_key,
            &self.listing_state,
            listing_rent,
            Listing::INIT_SPACE as u64,
            program_id,
            Some(seeds_with_bump(&listing_seeds_of(&self.marketplace_key, &self.maker_mint), bumps.listing)),
        );
        ListCreations { vault, listing }
    }

    /// Writes the new listing: the maker, the NFT's mint, the price and the
    /// listing's bump.
    pub fn create_listing(&mut self, price: u64, bumps: &ListBumps) -> (r: Result<(), MarketplaceError>)
        ensures
            r == Ok::<(), MarketplaceError>(()),
            *final(self) == (List {
                listing: Listing { maker: old(self).maker, maker_mint: old(self).maker_mint, price, bump: bumps.listing },
                ..*old(self)
            }),
    {
        self.listing = Listing { maker: self.maker, maker_mint: self.maker_mint, price, bump: bumps.listing };
        Ok(())
    }

    /// The transfer `deposit_nft` asks for.
    pub open spec fn deposit_nft_spec(&self) -> TokenTransferView {
        TokenTransferView {
            program: self.token_program@,
            from: self.maker_ata.key@,
            mint: self.maker_mint@,
            to: self.vault@,
            authority: self.maker@,
            amount: 1,
            decimals: self.maker_mint_decimals,
            signer_seeds: None,
        }
    }

    /// Moves the NFT from the maker's token account into the vault, on the
    /// maker's signature.
    pub fn deposit_nft(&self) -> (t: TokenTransfer)
        ensures
            t@ == self.deposit_nft_spec(),
    {
        TokenTransfer {
            program: self.token_program,
            from: self.maker_ata.key,
            mint: self.maker_mint,
            to: self.vault,
            authority: self.maker,
            amount: 1,
            decimals: self.maker_mint_decimals,
            signer_seeds: None,
        }
    }
}

/// The seeds, with the listing's bump, by which the program signs for the
/// listing, the owner of the vault.
pub open spec fn listing_signer_seeds(marketplace: Seq<u8>, mint: Seq<u8>, bump: u8) -> Seq<Seq<u8>> {
    crate::pda::with_bump(listing_seeds(marketplace, mint), bump)
}

/// The accounts of the `delist` instruction: the maker, who signs; the
/// marketplace; the NFT's mint, the maker's token account and the vault; the
/// listing; the NFT's metadata and master edition; and the metadata,
/// associated token, system and token programs.
pub struct Delist {
    pub maker: Address,
    pub maker_is_signer: bool,
    pub marketplace_key: Address,
    pub marketplace: Marketplace,
    pub maker_mint: Address,
    pub maker_mint_decimals: u8,
    pub maker_ata: TokenAccountInfo,
    pub vault: TokenAccountInfo,
    pub listing_key: Address,
    pub listing: Listing,
    pub metadata: Address,
    pub master_edition: Address,
    pub metadata_program: Address,
    pub associated_token_program: Address,
    pub system_program: Address,
    pub token_program: Address,
}

/// The calls of a delisting, in order: the NFT back to the maker, then the
/// listing closed to the maker.
pub struct DelistCalls {
    pub withdrawal: TokenTransfer,
    pub close: CloseProgramAccount,
}

impl Delist {
    /// The checks of `check_accounts_spec`, in the order they are made.
    pub open spec fn checks(&self, program_id: Seq<u8>) -> Seq<Result<(), ConstraintError>> {
        seq![
            signer_check(self.maker_is_signer),
            program_check(self.metadata_program@, metadata_program_id()),
            program_check(self.associated_token_program@, associated_token_program_id()),
            program_check(self.system_program@, system_program_id()),
            token_interface_check(self.token_program@),
            bump_check(marketplace_seeds(self.marketplace.name@), self.marketplace.bump, program_id, self.marketplace_key@),
            associated_token_check(self.maker_ata, self.maker@, self.maker_mint@, self.token_program@, true),
            associated_token_check(self.vault, self.listing_key@, self.maker_mint@, self.token_program@, true),
            bump_check(listing_seeds(self.marketplace_key@, self.maker_mint@), self.listing.bump, program_id, self.listing_key@),
            raw_check(self.listing.maker@ == self.maker@),
            metadata_address_check(metadata_seeds(self.maker_mint@), self.metadata@),
            metadata_address_check(master_edition_seeds(self.maker_mint@), self.master_edition@),
        ]
    }

    /// What the account checks of `delist` decide, in the order they are made:
    /// the signer and the programs; the marketplace's seeds with its bump; the
    /// maker's token account and the vault, the listing's; the listing's seeds
    /// with its bump and its maker; the metadata's and master edition's
    /// addresses.
    pub open spec fn check_accounts_spec(&self, program_id: Seq<u8>) -> Result<(), MarketplaceError> {
        after_checks(
            self.checks(program_id),
            (),
        )
    }

    /// The account checks of `delist`.
    pub fn check_accounts(&self, program_id: &Address) -> (r: Result<(), MarketplaceError>)
        ensures
            r == self.check_accounts_spec(program_id@),
    {
        let checks = vec![
            check_signer(self.maker_is_signer),
            check_program(&self.metadata_program, &metadata_program_address()),
            check_program(&self.associated_token_program, &associated_token_program_address()),
            check_program(&self.system_program, &system_program_address()),
            check_token_interface(&self.token_program),
            check_bump(&marketplace_seeds_of(&self.marketplace.name), self.marketplace.bump, program_id, &self.marketplace_key),
            check_associated_token(&self.maker_ata, &self.maker, &self.maker_mint, &self.token_program, true),
            check_associated_token(&self.vault, &self.listing_key, &self.maker_mint, &self.token_program, true),
            check_bump(&listing_seeds_of(&self.marketplace_key, &self.maker_mint), self.listing.bump, program_id, &self.listing_key),
            check_raw(self.listing.maker.same_as(&self.maker)),
            check_metadata_address(&self.maker_mint, &self.metadata),
            check_master_edition_address(&self.maker_mint, &self.master_edition),
        ];
        match find_first_failure(&checks) {
            Err(e) => Err(MarketplaceError::Constraint(e)),
            Ok(_) => Ok(()),
        }
    }

    /// The transfer `withdraw_nft` asks for.
    pub open spec fn withdraw_nft_spec(&self) -> TokenTransferView {
        TokenTransferView {
            program: self.token_program@,
            from: self.vault.key@,
            mint: self.maker_mint@,
            to: self.maker_ata.key@,
            authority: self.listing_key@,
            amount: 1,
            decimals: self.maker_mint_decimals,
            signer_seeds: Some(listing_signer_seeds(self.marketplace_key@, self.maker_mint@, self.listing.bump)),
        }
    }

    /// Moves the NFT from the vault back to the maker, signed for the listing.
    pub fn withdraw_nft(&self) -> (t: TokenTransfer)
        ensures
            t@ == self.withdraw_nft_spec(),
    {
        let seeds = crate::pda::seeds_with_bump(&listing_seeds_of(&self.marketplace_key, &self.maker_mint), self.listing.bump);
        TokenTransfer {
            program: self.token_program,
            from: self.vault.key,
            mint: self.maker_mint,
            to: self.maker_ata.key,
            authority: self.listing_key,
            amount: 1,
            decimals: self.maker_mint_decimals,
            signer_seeds: Some(seeds),
        }
    }

    /// The listing closed, its lamports to the maker (`close = maker`).
    pub open spec fn close_listing_spec(&self) -> CloseProgramAccountView {
        CloseProgramAccountView { account: self.listing_key@, destination: self.maker@ }
    }

    /// The `delist` instruction: withdraws the NFT, then closes the listing
    /// to the maker.
    pub fn execute_delist(&self) -> (c: DelistCalls)
        ensures
            c.withdrawal@ == self.withdraw_nft_spec(),
            c.close@ == self.close_listing_spec(),
    {
        let withdrawal = self.withdraw_nft();
        DelistCalls { withdrawal, close: CloseProgramAccount { account: self.listing_key, destination: self.maker } }
    }
}

/// The marketplace's cut of a sale, in lamports: the fee in basis points
/// times the price, over 10000, rounded down.
pub open spec fn marketplace_fee(fee: u16, price: u64) -> int {
    (fee * price) / 10000
}

/// What `send_sol` decides: the lamports to the maker and to the treasury, or
/// why the sale is refused.
pub open spec fn send_sol_outcome(fee: u16, price: u64) -> Result<(u64, u64), MarketplaceError> {
    if fee * price > u64::MAX {
        Err(MarketplaceError::Overflow)
    } else if price < marketplace_fee(fee, price) {
        Err(MarketplaceError::Underflow)
    } else {
        Ok(((price - marketplace_fee(fee, price)) as u64, marketplace_fee(fee, price) as u64))
    }
}

/// The accounts of the `purchase` instruction: the taker, who signs; the
/// maker, paid as seller; the marketplace and its treasury; the NFT's mint;
/// the taker's token accounts for the NFT and for the reward mint (created
/// when missing); the vault; the listing; and the associated token, system
/// and token programs.
#[allow(non_camel_case_types)]
pub struct purchase {
    pub taker: Address,
    pub taker_is_signer: bool,
    pub maker: Address,
    pub marketplace_key: Address,
    pub marketplace: Marketplace,
    pub treasury: Address,
    pub maker_mint: Address,
    pub maker_mint_decimals: u8,
    pub taker_ata: TokenAccountInfo,
    pub reward_mint: Address,
    pub taker_rewards_ata: TokenAccountInfo,
    pub vault: TokenAccountInfo,
    pub listing_key: Address,
    pub listing: Listing,
    pub associated_token_program: Address,
    pub system_program: Address,
    pub token_program: Address,
}

/// The calls that create the taker's token accounts where they are missing.
pub struct PurchaseCreations {
    pub taker_ata: Option<CreateAssociatedToken>,
    pub taker_rewards_ata: Option<CreateAssociatedToken>,
}

/// The three transfers of a purchase, in the order they are made.
pub struct PurchaseTransfers {
    pub to_maker: LamportTransfer,
    pub to_treasury: LamportTransfer,
    pub nft: TokenTransfer,
}

impl purchase {
    /// The checks of `check_accounts_spec`, in the order they are made.
    pub open spec fn checks(&self, program_id: Seq<u8>) -> Seq<Result<(), ConstraintError>> {
        seq![
            signer_check(self.taker_is_signer),
            program_check(self.associated_token_program@, associated_token_program_id()),
            program_check(self.system_program@, system_program_id()),
            token_interface_check(self.token_program@),
            if_needed_associated_token_check(self.taker_ata, self.taker@, self.maker_mint@, self.token_program@),
            if_needed_associated_token_check(self.taker_rewards_ata, self.taker@, self.reward_mint@, self.token_program@),
            bump_check(marketplace_seeds(self.marketplace.name@), self.marketplace.bump, program_id, self.marketplace_key@),
            bump_check(treasury_seeds(self.marketplace_key@), self.marketplace.treasury_bump, program_id, self.treasury@),
            associated_token_check(self.vault, self.listing_key@, self.maker_mint@, self.token_program@, true),
            bump_check(listing_seeds(self.marketplace_key@, self.maker_mint@), self.listing.bump, program_id, self.listing_key@),
        ]
    }

    /// What the account checks of `purchase` decide, in the order they are
    /// made: the signer and the programs; the taker's token accounts, each at
    /// its associated token address and, when a token program holds it
    /// already, holding its mint for the taker under the token program; the
    /// marketplace's and treasury's
    /// seeds with their bumps; the vault, the listing's; the listing's seeds
    /// with its bump; and last, that the maker paid is the listing's maker.
    pub open spec fn check_accounts_spec(&self, program_id: Seq<u8>) -> Result<(), MarketplaceError> {
        match after_checks(
            self.checks(program_id),
            (),
        ) {
            Err(e) => Err(e),
            Ok(_) => if self.listing.maker@ != self.maker@ {
                Err(MarketplaceError::MakerMismatch)
            } else {
                Ok(())
            },
        }
    }

    /// The account checks of `purchase`.
    pub fn check_accounts(&self, program_id: &Address) -> (r: Result<(), MarketplaceError>)
        ensures
            r == self.check_accounts_spec(program_id@),
    {
        let checks = vec![
            check_signer(self.taker_is_signer),
            check_program(&self.associated_token_program, &associated_token_program_address()),
            check_program(&self.system_program, &system_program_address()),
            check_token_interface(&self.token_program),
            check_if_needed_associated_token(&self.taker_ata, &self.taker, &self.maker_mint, &self.token_program),
            check_if_needed_associated_token(&self.taker_rewards_ata, &self.taker, &self.reward_mint, &self.token_program),
            check_bump(&marketplace_seeds_of(&self.marketplace.name), self.marketplace.bump, program_id, &self.marketplace_key),
            check_bump(&treasury_seeds_of(&self.marketplace_key), self.marketplace.treasury_bump, program_id, &self.treasury),
            check_associated_token(&self.vault, &self.listing_key, &self.maker_mint, &self.token_program, true),
            check_bump(&listing_seeds_of(&self.marketplace_key, &self.maker_mint), self.listing.bump, program_id, &self.listing_key),
        ];
        if let Err(e) = find_first_failure(&checks) {
            return Err(MarketplaceError::Constraint(e));
        }
        if !self.listing.maker.same_as(&self.maker) {
            return Err(MarketplaceError::MakerMismatch);
        }
        Ok(())
    }

    /// The calls that create the taker's token accounts, made once the
    /// account checks pass: each is created, paid by the taker, while the
    /// system program still holds it (`init_if_needed`).
    pub fn create_accounts(&self) -> (c: PurchaseCreations)
        ensures
            c.taker_ata is Some <==> self.taker_ata.program_owner@ == system_program_id(),
            c.taker_ata matches Some(x) ==> x@ == create_associated_token_spec(
                self.taker@,
                self.taker_ata.key@,
                self.taker@,
                self.maker_mint@,
                self.token_program@,
            ),
            c.taker_rewards_ata is Some <==> self.taker_rewards_ata.program_owner@ == system_program_id(),
            c.taker_rewards_ata matches Some(x) ==> x@ == create_associated_token_spec(
                self.taker@,
                self.taker_rewards_ata.key@,
                self.taker@,
                self.reward_mint@,
                self.token_program@,
            ),
    {
        let taker_ata = create_associated_token_if_needed(&self.taker, &self.taker_ata, &self.taker, &self.maker_mint, &self.token_program);
        let taker_rewards_ata = create_associated_token_if_needed(
            &self.taker,
            &self.taker_rewards_ata,
            &self.taker,
            &self.reward_mint,
            &self.token_program,
        );
        PurchaseCreations { taker_ata, taker_rewards_ata }
    }

    /// Pays for the NFT: the price less the marketplace's fee to the maker,
    /// then the fee to the treasury, both from the taker by the system
    /// program.
    pub fn send_sol(&self) -> (r: Result<(LamportTransfer, LamportTransfer), MarketplaceError>)
        ensures
            match send_sol_outcome(self.marketplace.fee, self.listing.price) {
                Ok((to_maker, to_treasury)) => r matches Ok((m, t)) && m@ == (LamportTransferView {
                    program: self.system_program@,
                    from: self.taker@,
                    to: self.maker@,
                    lamports: to_maker,
                    signer_seeds: None,
                }) && t@ == (LamportTransferView {
                    program: self.system_program@,
                    from: self.taker@,
                    to: self.treasury@,
                    lamports: to_treasury,
                    signer_seeds: None,
                }),
                Err(e) => r matches Err(e2) && e2 == e,
            },
    {
        let marketplace_fee: u64 = match (self.marketplace.fee as u64).checked_mul(self.listing.price) {
            Some(product) => match product.checked_div(10000u64) {
                Some(q) => q,
                None => return Err(MarketplaceError::Underflow),
            },
            None => return Err(MarketplaceError::Overflow),
        };
        let amount: u64 = match self.listing.price.checked_sub(marketplace_fee) {
            Some(a) => a,
            None => return Err(MarketplaceError::Underflow),
        };
        let to_maker = LamportTransfer { program: self.system_program, from: self.taker, to: self.maker, lamports: amount, signer_seeds: None };
        let to_treasury = LamportTransfer {
            program: self.system_program,
            from: self.taker,
            to: self.treasury,
            lamports: marketplace_fee,
            signer_seeds: None,
        };
        Ok((to_maker, to_treasury))
    }

    /// The transfer `transfer_nft` asks for.
    pub open spec fn transfer_nft_spec(&self) -> TokenTransferView {
        TokenTransferView {
            program: self.token_program@,
            from: self.vault.key@,
            mint: self.maker_mint@,
            to: self.taker_ata.key@,
            authority: self.listing_key@,
            amount: 1,
            decimals: self.maker_mint_decimals,
            signer_seeds: Some(listing_signer_seeds(self.marketplace_key@, self.maker_mint@, self.listing.bump)),
        }
    }

    /// Moves the NFT from the vault to the taker, signed for the listing.
    pub fn transfer_nft(&self) -> (t: TokenTransfer)
        ensures
            t@ == self.transfer_nft_spec(),
    {
        let seeds = crate::pda::seeds_with_bump(&listing_seeds_of(&self.marketplace_key, &self.maker_mint), self.listing.bump);
        TokenTransfer {
            program: self.token_program,
            from: self.vault.key,
            mint: self.maker_mint,
            to: self.taker_ata.key,
            authority: self.listing_key,
            amount: 1,
            decimals: self.maker_mint_decimals,
            signer_seeds: Some(seeds),
        }
    }

    /// The `purchase` instruction: the payment of `send_sol`, then the NFT of
    /// `transfer_nft`; refused as `send_sol` refuses.
    pub fn execute_purchase(&self) -> (r: Result<PurchaseTransfers, MarketplaceError>)
        ensures
            match send_sol_outcome(self.marketplace.fee, self.listing.price) {
                Ok((to_maker, to_treasury)) => r matches Ok(p) && p.to_maker@ == (LamportTransferView {
                    program: self.system_program@,
                    from: self.taker@,
                    to: self.maker@,
                    lamports: to_maker,
                    signer_seeds: None,
                }) && p.to_treasury@ == (LamportTransferView {
                    program: self.system_program@,
                    from: self.taker@,
                    to: self.treasury@,
                    lamports: to_treasury,
                    signer_seeds: None,
                }) && p.nft@ == self.transfer_nft_spec(),
                Err(e) => r matches Err(e2) && e2 == e,
            },
    {
        let (to_maker, to_treasury) = match self.send_sol() {
            Ok(pair) => pair,
            Err(e) => return Err(e),
        };
        let nft = self.transfer_nft();
        Ok(PurchaseTransfers { to_maker, to_treasury, nft })
    }
}

/// Only an NFT of the collection named by the instruction, verified as one
/// of its own, is listed: when the accounts of `list` pass their checks, the
/// NFT's metadata names the collection mint passed in, verified.
pub proof fn lemma_list_only_verified_collection(list: List, program_id: Seq<u8>)
    requires
        list.metadata_collection is Some,
        list.check_accounts_spec(program_id) is Ok,
    ensures
        list.metadata_collection.unwrap().key@ == list.collection_mint@,
        list.metadata_collection.unwrap().verified,
{
    crate::constraints::lemma_first_failure_ok(list.checks(program_id));
    assert(list.checks(program_id)[12] is Ok);
    assert(list.checks(program_id)[13] is Ok);
}

/// A purchase takes the taker's token accounts as `init_if_needed` does:
/// each may be missing (still held by the system program) or already exist
/// (held by the purchase's token program, holding its mint, owned by the
/// taker), and must be at the taker's associated token address.  When every
/// other account is as the instruction asks and the maker paid is the
/// listing's maker, the accounts pass their checks.
pub proof fn lemma_purchase_accepts_existing_or_missing_token_accounts(p: purchase, program_id: Seq<u8>)
    requires
        p.taker_is_signer,
        p.associated_token_program@ == associated_token_program_id(),
        p.system_program@ == system_program_id(),
        p.token_program@ == token_program_id() || p.token_program@ == token_2022_program_id(),
        is_associated_token_address(p.taker_ata.key@, p.taker@, p.maker_mint@, p.token_program@),
        p.taker_ata.program_owner@ == system_program_id() || (p.taker_ata.program_owner@ == p.token_program@
            && p.taker_ata.mint@ == p.maker_mint@ && p.taker_ata.owner@ == p.taker@),
        is_associated_token_address(p.taker_rewards_ata.key@, p.taker@, p.reward_mint@, p.token_program@),
        p.taker_rewards_ata.program_owner@ == system_program_id() || (p.taker_rewards_ata.program_owner@
            == p.token_program@ && p.taker_rewards_ata.mint@ == p.reward_mint@ && p.taker_rewards_ata.owner@ == p.taker@),
        is_program_address(marketplace_seeds(p.marketplace.name@), p.marketplace.bump, program_id, p.marketplace_key@),
        is_program_address(treasury_seeds(p.marketplace_key@), p.marketplace.treasury_bump, program_id, p.treasury@),
        p.vault.program_owner@ == p.token_program@,
        p.vault.owner@ == p.listing_key@,
        is_associated_token_address(p.vault.key@, p.listing_key@, p.maker_mint@, p.token_program@),
        is_program_address(listing_seeds(p.marketplace_key@, p.maker_mint@), p.listing.bump, program_id, p.listing_key@),
        p.listing.maker@ == p.maker@,
    ensures
        p.check_accounts_spec(program_id) == Ok::<(), MarketplaceError>(()),
{
    assert(token_program_id()[0] != system_program_id()[0]);
    assert(token_2022_program_id()[0] != system_program_id()[0]);
    let checks = p.checks(program_id);
    assert forall|i: int| 0 <= i < checks.len() implies #[trigger] checks[i] is Ok by {}
    crate::constraints::lemma_first_failure_all_ok(checks);
}

/// The converse: when the accounts of `purchase` pass their checks, each of
/// the taker's token accounts is at the taker's associated token address,
/// and is either still held by the system program or held by the token
/// program, holding its mint and owned by the taker.
pub proof fn lemma_purchase_token_accounts_are_the_takers(p: purchase, program_id: Seq<u8>)
    requires
        p.check_accounts_spec(program_id) is Ok,
    ensures
        is_associated_token_address(p.taker_ata.key@, p.taker@, p.maker_mint@, p.token_program@),
        p.taker_ata.program_owner@ == system_program_id() || (p.taker_ata.program_owner@ == p.token_program@
            && p.taker_ata.mint@ == p.maker_mint@ && p.taker_ata.owner@ == p.taker@),
        is_associated_token_address(p.taker_rewards_ata.key@, p.taker@, p.reward_mint@, p.token_program@),
        p.taker_rewards_ata.program_owner@ == system_program_id() || (p.taker_rewards_ata.program_owner@
            == p.token_program@ && p.taker_rewards_ata.mint@ == p.reward_mint@ && p.taker_rewards_ata.owner@ == p.taker@),
{
    crate::constraints::lemma_first_failure_ok(p.checks(program_id));
    assert(p.checks(program_id)[4] is Ok);
    assert(p.checks(program_id)[5] is Ok);
}

/// Each move of the NFT moves exactly one unit of the NFT's mint, declared
/// with that mint's decimals: listing puts it from the maker's token account
/// into the vault on the maker's signature; delisting brings it from the
/// vault back to the maker's token account, and a purchase from the vault
/// to the taker's token account, both signed for the listing.
pub proof fn lemma_nft_moves_one_unit_of_its_mint(list: List, delist: Delist, p: purchase)
    ensures
        list.deposit_nft_spec().amount == 1,
        list.deposit_nft_spec().mint == list.maker_mint@,
        list.deposit_nft_spec().decimals == list.maker_mint_decimals,
        list.deposit_nft_spec().from == list.maker_ata.key@,
        list.deposit_nft_spec().to == list.vault@,
        list.deposit_nft_spec().authority == list.maker@,
        delist.withdraw_nft_spec().amount == 1,
        delist.withdraw_nft_spec().mint == delist.maker_mint@,
        delist.withdraw_nft_spec().decimals == delist.maker_mint_decimals,
        delist.withdraw_nft_spec().from == delist.vault.key@,
        delist.withdraw_nft_spec().to == delist.maker_ata.key@,
        delist.withdraw_nft_spec().authority == delist.listing_key@,
        p.transfer_nft_spec().amount == 1,
        p.transfer_nft_spec().mint == p.maker_mint@,
        p.transfer_nft_spec().decimals == p.maker_mint_decimals,
        p.transfer_nft_spec().from == p.vault.key@,
        p.transfer_nft_spec().to == p.taker_ata.key@,
        p.transfer_nft_spec().authority == p.listing_key@,
{
}

/// A marketplace is written only on an account not in use yet: when the
/// accounts of `initialize` pass their checks, neither the marketplace
/// account nor the reward mint is held by a program or holds data, so an
/// existing marketplace (its admin, its fee) is never overwritten.
pub proof fn lemma_initialize_only_fresh_accounts(accounts: Initialize, name: Seq<char>, program_id: Seq<u8>)
    requires
        accounts.check_accounts_spec(name, program_id) is Ok,
    ensures
        !in_use(accounts.marketplace_state),
        !in_use(accounts.reward_mint_state),
{
    crate::constraints::lemma_first_failure_ok(accounts.checks(name, program_id));
    assert(accounts.checks(name, program_id)[4] is Ok);
    assert(accounts.checks(name, program_id)[6] is Ok);
}

/// On a marketplace whose fee is at most 100% (as every marketplace that
/// `init` writes is), a sale is refused only when the fee times the price
/// overflows, never for underflow; and the maker's share and the treasury's
/// share add up to the price, the treasury's being the fee rounded down.
pub proof fn lemma_sale_splits_price(fee: u16, price: u64)
    requires
        fee <= MAX_FEE_BPS,
    ensures
        send_sol_outcome(fee, price) is Ok <==> fee * price <= u64::MAX,
        send_sol_outcome(fee, price) != Err::<(u64, u64), MarketplaceError>(MarketplaceError::Underflow),
        send_sol_outcome(fee, price) matches Ok((to_maker, to_treasury)) ==> {
            &&& to_maker + to_treasury == price
            &&& to_treasury == marketplace_fee(fee, price)
            &&& to_treasury <= price
        },
{
    assert(marketplace_fee(fee, price) <= price) by (nonlinear_arith)
        requires
            fee <= 10000,
            marketplace_fee(fee, price) == (fee * price) / 10000,
    {
        assert(fee * price <= 10000 * price);
    }
    assert(marketplace_fee(fee, price) >= 0) by (nonlinear_arith)
        requires
            marketplace_fee(fee, price) == (fee * price) / 10000,
    {
    }
}

/// The treasury's share of a sale is the fee in basis points of the price,
/// rounded down, and the maker gets the rest: whenever a sale goes through,
/// `to_treasury * 10000 <= fee * price < (to_treasury + 1) * 10000` and
/// `to_maker + to_treasury == price`.
pub proof fn lemma_sale_fee_in_basis_points(fee: u16, price: u64)
    ensures
        send_sol_outcome(fee, price) matches Ok((to_maker, to_treasury)) ==> {
            &&& to_treasury * 10000 <= fee * price
            &&& fee * price < (to_treasury + 1) * 10000
            &&& to_maker + to_treasury == price
        },
{
    let product: int = fee * price;
    assert(0 <= product);
    assert((product / 10000) * 10000 <= product && product < (product / 10000 + 1) * 10000) by (nonlinear_arith)
        requires
            0 <= product,
    {
    }
}

/// Delisting undoes the deposit of listing: when the accounts of a `list`
/// and of a later `delist` of the same listing both pass their checks, the
/// NFT leaves the very vault it was put in, for the very token account it
/// came from, one unit of the same mint by the same token program.
pub proof fn lemma_delist_reverses_deposit(list: List, delist: Delist, program_id: Seq<u8>)
    requires
        list.metadata_collection is Some,
        list.check_accounts_spec(program_id) is Ok,
        delist.check_accounts_spec(program_id) is Ok,
        delist.maker@ == list.maker@,
        delist.maker_mint@ == list.maker_mint@,
        delist.listing_key@ == list.listing_key@,
        delist.token_program@ == list.token_program@,
        delist.maker_mint_decimals == list.maker_mint_decimals,
    ensures
        delist.withdraw_nft_spec().from == list.deposit_nft_spec().to,
        delist.withdraw_nft_spec().to == list.deposit_nft_spec().from,
        delist.withdraw_nft_spec().mint == list.deposit_nft_spec().mint,
        delist.withdraw_nft_spec().amount == list.deposit_nft_spec().amount,
        delist.withdraw_nft_spec().decimals == list.deposit_nft_spec().decimals,
        delist.withdraw_nft_spec().program == list.deposit_nft_spec().program,
{
    crate::constraints::lemma_first_failure_ok(list.checks(program_id));
    assert(list.checks(program_id)[5] is Ok);
    assert(list.checks(program_id)[10] is Ok);
    crate::constraints::lemma_first_failure_ok(delist.checks(program_id));
    assert(delist.checks(program_id)[6] is Ok);
    assert(delist.checks(program_id)[7] is Ok);
    let tp = list.token_program@;
    let mint = list.maker_mint@;
    crate::pda::lemma_canonical_address_unique(
        crate::constraints::associated_token_seeds(list.listing_key@, mint, tp),
        associated_token_program_id(),
        list.vault@,
        delist.vault.key@,
    );
    crate::pda::lemma_canonical_address_unique(
        crate::constraints::associated_token_seeds(list.maker@, mint, tp),
        associated_token_program_id(),
        list.maker_ata.key@,
        delist.maker_ata.key@,
    );
}

/// When the accounts of `delist` pass their checks, the seeds it signs with
/// derive the listing, the authority it names over the vault, and the NFT
/// goes to the signing maker's own token account.
pub proof fn lemma_delist_signs_as_listing(delist: Delist, program_id: Seq<u8>)
    requires
        delist.check_accounts_spec(program_id) is Ok,
    ensures
        crate::pda::derived_address(delist.withdraw_nft_spec().signer_seeds.unwrap(), program_id)
            == Some(delist.withdraw_nft_spec().authority),
        delist.maker_is_signer,
        delist.listing.maker@ == delist.maker@,
        delist.maker_ata.owner@ == delist.maker@,
{
    crate::constraints::lemma_first_failure_ok(delist.checks(program_id));
    assert(delist.checks(program_id)[0] is Ok);
    assert(delist.checks(program_id)[6] is Ok);
    assert(delist.checks(program_id)[8] is Ok);
    assert(delist.checks(program_id)[9] is Ok);
}

/// When the accounts of `purchase` pass their checks, the seeds it signs the
/// NFT transfer with derive the listing, the authority it names over the
/// vault, and the seller's share goes to the listing's maker.
pub proof fn lemma_purchase_signs_as_listing(p: purchase, program_id: Seq<u8>)
    requires
        p.check_accounts_spec(program_id) is Ok,
    ensures
        crate::pda::derived_address(p.transfer_nft_spec().signer_seeds.unwrap(), program_id)
            == Some(p.transfer_nft_spec().authority),
        p.maker@ == p.listing.maker@,
        p.taker_is_signer,
{
    crate::constraints::lemma_first_failure_ok(p.checks(program_id));
    assert(p.checks(program_id)[0] is Ok);
    assert(p.checks(program_id)[9] is Ok);
}

/// A marketplace's name fits the 32 bytes its account reserves for it: no
/// name longer than that has a marketplace address, whatever the bump.
pub proof fn lemma_marketplace_name_fits(name: Seq<char>, bump: u8, program_id: Seq<u8>, address: Seq<u8>)
    requires
        is_program_address(marketplace_seeds(name), bump, program_id, address),
    ensures
        name_bytes(name).len() <= 32,
{
    assert(crate::pda::with_bump(marketplace_seeds(name), bump)[1] == name_bytes(name));
}

} // verus!
