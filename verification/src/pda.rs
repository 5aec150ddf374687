//! Program derived addresses: the seed rules of the Solana runtime and the
//! checks that Anchor's `seeds = [..], bump` account constraints perform.
use vstd::prelude::*;
use crate::address::Address;

verus! {

/// Most seeds one derivation may take (the bump seed included).
pub const MAX_SEEDS: usize = 16;

/// Longest single seed, in bytes.
pub const MAX_SEED_LEN: usize = 32;

/// Whether `seeds` may be handed to the runtime's derivation: at most
/// `MAX_SEEDS` seeds, each at most `MAX_SEED_LEN` bytes.
pub open spec fn seeds_fit(seeds: Seq<Seq<u8>>) -> bool {
    &&& seeds.len() <= MAX_SEEDS
    &&& forall|i: int| 0 <= i < seeds.len() ==> #[trigger] seeds[i].len() <= MAX_SEED_LEN
}

/// `seeds` followed by the one-byte bump seed.
pub open spec fn with_bump(seeds: Seq<Seq<u8>>, bump: u8) -> Seq<Seq<u8>> {
    seeds.push(seq![bump])
}

/// The address that the runtime derives from `seeds` under `program_id`
/// (a SHA-256 hash of the seeds, the program id and a marker), or `None` when
/// that hash is a point of the ed25519 curve.
pub uninterp spec fn derived_address(seeds: Seq<Seq<u8>>, program_id: Seq<u8>) -> Option<Seq<u8>>;

/// Whether `address` is the program derived address of `seeds` with `bump`.
pub open spec fn is_program_address(
    seeds: Seq<Seq<u8>>,
    bump: u8,
    program_id: Seq<u8>,
    address: Seq<u8>,
) -> bool {
    &&& seeds_fit(with_bump(seeds, bump))
    &&& derived_address(with_bump(seeds, bump), program_id) == Some(address)
}

/// Whether `bump` is the canonical bump of `seeds`: the largest bump from 255
/// down to 1 for which a derived address exists.
pub open spec fn is_canonical_bump(seeds: Seq<Seq<u8>>, bump: u8, program_id: Seq<u8>) -> bool {
    &&& 1 <= bump
    &&& derived_address(with_bump(seeds, bump), program_id) is Some
    &&& forall|b: u8| bump < b ==> (#[trigger] derived_address(with_bump(seeds, b), program_id)) is None
}

/// Calls `Pubkey::create_program_address` of anchor_lang (solana_address's
/// `Address::create_program_address`).  With the seeds in bounds the only
/// error it can return is `InvalidSeeds`; its result is named by
/// `derived_address` of the seeds and the program id.
#[verifier::external_body]
fn create_program_address(seeds: &Vec<Vec<u8>>, program_id: &Address) -> (r: Option<Address>)
    requires
        seeds_fit(seeds.deep_view()),
    ensures
        match r {
            Some(a) => derived_address(seeds.deep_view(), program_id@) == Some(a@),
            None => derived_address(seeds.deep_view(), program_id@) is None,
        },
{
    let slices: Vec<&[u8]> = seeds.iter().map(|s| s.as_slice()).collect();
    let id = anchor_lang::prelude::Pubkey::new_from_array(program_id.bytes);
    match anchor_lang::prelude::Pubkey::create_program_address(&slices, &id) {
        Ok(a) => Some(Address { bytes: a.to_bytes() }),
        Err(_) => None,
    }
}

/// Calls `Pubkey::try_find_program_address` of anchor_lang.  Off chain it
/// tries the bumps 255, 254, .., 1 in turn with `create_program_address` and
/// returns the first address found with its bump, or `None` when none is.
#[verifier::external_body]
fn try_find_program_address(seeds: &Vec<Vec<u8>>, program_id: &Address) -> (r: Option<(Address, u8)>)
    requires
        seeds.len() < MAX_SEEDS,
        seeds_fit(seeds.deep_view()),
    ensures
        match r {
            Some((a, b)) => {
                &&& is_canonical_bump(seeds.deep_view(), b, program_id@)
                &&& derived_address(with_bump(seeds.deep_view(), b), program_id@) == Some(a@)
            },
            None => forall|b: u8| 1 <= b ==> (#[trigger] derived_address(with_bump(seeds.deep_view(), b), program_id@)) is None,
        },
{
    let slices: Vec<&[u8]> = seeds.iter().map(|s| s.as_slice()).collect();
    let id = anchor_lang::prelude::Pubkey::new_from_array(program_id.bytes);
    match anchor_lang::prelude::Pubkey::try_find_program_address(&slices, &id) {
        Some((a, b)) => Some((Address { bytes: a.to_bytes() }, b)),
        None => None,
    }
}

/// Checks whether the seeds fit the runtime's limits.
pub fn check_seeds_fit(seeds: &Vec<Vec<u8>>) -> (r: bool)
    ensures
        r == seeds_fit(seeds.deep_view()),
{
    if seeds.len() > MAX_SEEDS {
        return false;
    }
    let mut i: usize = 0;
    while i < seeds.len()
        invariant
            i <= seeds.len() <= MAX_SEEDS,
            forall|j: int| 0 <= j < i ==> #[trigger] seeds.deep_view()[j].len() <= MAX_SEED_LEN,
        decreases seeds.len() - i,
    {
        if seeds[i].len() > MAX_SEED_LEN {
            assert(seeds.deep_view()[i as int].len() > MAX_SEED_LEN);
            return false;
        }
        i = i + 1;
    }
    true
}

/// `seeds` with the bump seed appended, as the signer seeds of a signed call
/// are written.
pub fn seeds_with_bump(seeds: &Vec<Vec<u8>>, bump: u8) -> (r: Vec<Vec<u8>>)
    ensures
        r.deep_view() == with_bump(seeds.deep_view(), bump),
{
    let mut r = seeds.clone();
    assert(r.deep_view() =~= seeds.deep_view());
    let mut b: Vec<u8> = Vec::new();
    b.push(bump);
    assert(b@ =~= seq![bump]);
    r.push(b);
    assert(r.deep_view()[r.deep_view().len() - 1] == seq![bump]);
    assert(r.deep_view() =~= with_bump(seeds.deep_view(), bump));
    r
}

/// The check of an account constraint `seeds = [..], bump = b`: whether
/// `address` is the program derived address of `seeds` and `bump` under
/// `program_id`.  Seeds over the runtime's limits derive nothing.
pub fn verify_program_address(seeds: &Vec<Vec<u8>>, bump: u8, program_id: &Address, address: &Address) -> (r: bool)
    ensures
        r == is_program_address(seeds.deep_view(), bump, program_id@, address@),
{
    let full = seeds_with_bump(seeds, bump);
    if !check_seeds_fit(&full) {
        return false;
    }
    match create_program_address(&full, program_id) {
        Some(derived) => derived.same_as(address),
        None => false,
    }
}

/// The address and canonical bump of `seeds` under `program_id`, as an
/// account constraint `seeds = [..], bump` (without a bump value) finds them;
/// `None` when the seeds do not fit beside a bump seed or no bump from 255
/// down to 1 derives an address.
pub fn find_program_address(seeds: &Vec<Vec<u8>>, program_id: &Address) -> (r: Option<(Address, u8)>)
    ensures
        match r {
            Some((a, b)) => is_canonical_bump(seeds.deep_view(), b, program_id@)
                && is_program_address(seeds.deep_view(), b, program_id@, a@),
            None => !seeds_fit(with_bump(seeds.deep_view(), 1))
                || forall|b: u8| 1 <= b ==> (#[trigger] derived_address(with_bump(seeds.deep_view(), b), program_id@)) is None,
        },
{
    let probe = seeds_with_bump(seeds, 1);
    if !check_seeds_fit(&probe) {
        return None;
    }
    proof {
        assert forall|j: int| 0 <= j < seeds.deep_view().len() implies #[trigger] seeds.deep_view()[j].len() <= MAX_SEED_LEN by {
            assert(with_bump(seeds.deep_view(), 1)[j] == seeds.deep_view()[j]);
        }
    }
    match try_find_program_address(seeds, program_id) {
        Some((a, b)) => {
            proof {
                let s = with_bump(seeds.deep_view(), b);
                assert forall|j: int| 0 <= j < s.len() implies #[trigger] s[j].len() <= MAX_SEED_LEN by {
                    if j < seeds.deep_view().len() {
                        assert(s[j] == seeds.deep_view()[j]);
                    } else {
                        assert(s[j] == seq![b]);
                    }
                }
            }
            Some((a, b))
        },
        None => None,
    }
}

/// Whether `address` is the program derived address of `seeds` with their
/// canonical bump `bump`.
pub open spec fn is_canonical_address(seeds: Seq<Seq<u8>>, bump: u8, program_id: Seq<u8>, address: Seq<u8>) -> bool {
    &&& is_canonical_bump(seeds, bump, program_id)
    &&& is_program_address(seeds, bump, program_id, address)
}

/// Whether the seeds fit beside a bump seed does not depend on the bump.
pub proof fn lemma_fit_any_bump(seeds: Seq<Seq<u8>>, b1: u8, b2: u8)
    ensures
        seeds_fit(with_bump(seeds, b1)) == seeds_fit(with_bump(seeds, b2)),
{
    let s1 = with_bump(seeds, b1);
    let s2 = with_bump(seeds, b2);
    assert forall|j: int| 0 <= j < s1.len() implies #[trigger] s1[j].len() == s2[j].len() by {
        if j < seeds.len() {
            assert(s1[j] == seeds[j] && s2[j] == seeds[j]);
        }
    }
    if seeds_fit(s1) {
        assert forall|j: int| 0 <= j < s2.len() implies #[trigger] s2[j].len() <= MAX_SEED_LEN by {
            assert(s1[j].len() == s2[j].len());
        }
    }
    if seeds_fit(s2) {
        assert forall|j: int| 0 <= j < s1.len() implies #[trigger] s1[j].len() <= MAX_SEED_LEN by {
            assert(s1[j].len() == s2[j].len());
        }
    }
}

/// A canonical bump, where there is one, is unique.
pub proof fn lemma_canonical_bump_unique(seeds: Seq<Seq<u8>>, b1: u8, b2: u8, program_id: Seq<u8>)
    requires
        is_canonical_bump(seeds, b1, program_id),
        is_canonical_bump(seeds, b2, program_id),
    ensures
        b1 == b2,
{
    if b1 < b2 {
        assert(derived_address(with_bump(seeds, b2), program_id) is None);
    } else if b2 < b1 {
        assert(derived_address(with_bump(seeds, b1), program_id) is None);
    }
}

/// The canonical bump with which `seeds` derive `address`, if they do.
pub open spec fn canonical_bump_of(seeds: Seq<Seq<u8>>, program_id: Seq<u8>, address: Seq<u8>) -> Option<u8> {
    if exists|b: u8| is_canonical_address(seeds, b, program_id, address) {
        Some(choose|b: u8| is_canonical_address(seeds, b, program_id, address))
    } else {
        None
    }
}

/// The check of an account constraint `seeds = [..], bump` without a bump
/// value: `address` must be the program derived address of `seeds` with their
/// canonical bump, which is returned.
pub fn check_canonical_address(seeds: &Vec<Vec<u8>>, program_id: &Address, address: &Address) -> (r: Option<u8>)
    ensures
        r == canonical_bump_of(seeds.deep_view(), program_id@, address@),
        match r {
            Some(b) => is_canonical_address(seeds.deep_view(), b, program_id@, address@),
            None => forall|b: u8| !is_canonical_address(seeds.deep_view(), b, program_id@, address@),
        },
{
    match find_program_address(seeds, program_id) {
        Some((found, bump)) => {
            if found.same_as(address) {
                proof {
                    let c = choose|b: u8| is_canonical_address(seeds.deep_view(), b, program_id@, address@);
                    assert(is_canonical_address(seeds.deep_view(), bump, program_id@, address@));
                    lemma_canonical_bump_unique(seeds.deep_view(), bump, c, program_id@);
                }
                Some(bump)
            } else {
                proof {
                    assert forall|b: u8| !is_canonical_address(seeds.deep_view(), b, program_id@, address@) by {
                        if is_canonical_address(seeds.deep_view(), b, program_id@, address@) {
                            lemma_canonical_bump_unique(seeds.deep_view(), b, bump, program_id@);
                        }
                    }
                }
                None
            }
        },
        None => {
            proof {
                assert forall|b: u8| !is_canonical_address(seeds.deep_view(), b, program_id@, address@) by {
                    lemma_fit_any_bump(seeds.deep_view(), b, 1);
                }
            }
            None
        },
    }
}

/// The seed list `[a, b]`.
pub fn seeds2(a: Vec<u8>, b: Vec<u8>) -> (s: Vec<Vec<u8>>)
    ensures
        s.deep_view() == seq![a@, b@],
{
    let mut s: Vec<Vec<u8>> = Vec::new();
    s.push(a);
    s.push(b);
    assert(s.deep_view()[0] =~= a@);
    assert(s.deep_view()[1] =~= b@);
    assert(s.deep_view() =~= seq![a@, b@]);
    s
}

/// The seed list `[a, b, c]`.
pub fn seeds3(a: Vec<u8>, b: Vec<u8>, c: Vec<u8>) -> (s: Vec<Vec<u8>>)
    ensures
        s.deep_view() == seq![a@, b@, c@],
{
    let mut s: Vec<Vec<u8>> = Vec::new();
    s.push(a);
    s.push(b);
    s.push(c);
    assert(s.deep_view()[0] =~= a@);
    assert(s.deep_view()[1] =~= b@);
    assert(s.deep_view()[2] =~= c@);
    assert(s.deep_view() =~= seq![a@, b@, c@]);
    s
}

/// The seed list `[a, b, c, d]`.
pub fn seeds4(a: Vec<u8>, b: Vec<u8>, c: Vec<u8>, d: Vec<u8>) -> (s: Vec<Vec<u8>>)
    ensures
        s.deep_view() == seq![a@, b@, c@, d@],
{
    let mut s: Vec<Vec<u8>> = Vec::new();
    s.push(a);
    s.push(b);
    s.push(c);
    s.push(d);
    assert(s.deep_view()[0] =~= a@);
    assert(s.deep_view()[1] =~= b@);
    assert(s.deep_view()[2] =~= c@);
    assert(s.deep_view()[3] =~= d@);
    assert(s.deep_view() =~= seq![a@, b@, c@, d@]);
    s
}

/// Seeds derive at most one address with their canonical bump.
pub proof fn lemma_canonical_address_unique(seeds: Seq<Seq<u8>>, program_id: Seq<u8>, a1: Seq<u8>, a2: Seq<u8>)
    requires
        canonical_bump_of(seeds, program_id, a1) is Some,
        canonical_bump_of(seeds, program_id, a2) is Some,
    ensures
        a1 == a2,
{
    let b1 = choose|b: u8| is_canonical_address(seeds, b, program_id, a1);
    let b2 = choose|b: u8| is_canonical_address(seeds, b, program_id, a2);
    lemma_canonical_bump_unique(seeds, b1, b2, program_id);
}

} // verus!
