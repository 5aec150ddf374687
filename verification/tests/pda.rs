use dapp_programs::address::Address;
use dapp_programs::pda::{check_canonical_address, check_seeds_fit, find_program_address, seeds_with_bump, verify_program_address};
use dapp_programs::seeds::le_bytes_of;

fn program_id() -> Address {
    let mut b = [0u8; 32];
    for i in 0..32 {
        b[i] = (i + 1) as u8;
    }
    Address::new(b)
}

const M4_ADDRESS: [u8; 32] = [
    113, 171, 205, 197, 24, 177, 208, 53, 37, 220, 249, 243, 6, 21, 180, 9, 68, 229, 162, 152, 56, 225, 35, 234, 154, 244,
    249, 74, 80, 67, 50, 139,
];

fn m4_seeds() -> Vec<Vec<u8>> {
    vec![b"marketplace".to_vec(), b"m4".to_vec()]
}

#[test]
fn find_program_address_gives_reference_address_and_bump() {
    let found = find_program_address(&m4_seeds(), &program_id());
    let (address, bump) = found.expect("an address");
    assert_eq!(bump, 253);
    assert_eq!(address.bytes, M4_ADDRESS);
}

#[test]
fn verify_program_address_accepts_canonical_bump() {
    assert!(verify_program_address(&m4_seeds(), 253, &program_id(), &Address::new(M4_ADDRESS)));
}

#[test]
fn verify_program_address_rejects_other_bumps() {
    for bump in [254u8, 255, 252, 0] {
        assert!(!verify_program_address(&m4_seeds(), bump, &program_id(), &Address::new(M4_ADDRESS)));
    }
}

#[test]
fn verify_program_address_rejects_other_address() {
    assert!(!verify_program_address(&m4_seeds(), 253, &program_id(), &program_id()));
}

#[test]
fn check_canonical_address_returns_bump() {
    assert_eq!(check_canonical_address(&m4_seeds(), &program_id(), &Address::new(M4_ADDRESS)), Some(253));
    assert_eq!(check_canonical_address(&m4_seeds(), &program_id(), &program_id()), None);
}

#[test]
fn over_long_seed_derives_nothing() {
    let seeds = vec![vec![7u8; 33]];
    assert!(!check_seeds_fit(&seeds));
    assert_eq!(find_program_address(&seeds, &program_id()), None);
    assert!(!verify_program_address(&seeds, 255, &program_id(), &program_id()));
}

#[test]
fn too_many_seeds_derive_nothing() {
    let sixteen = vec![vec![1u8]; 16];
    assert!(check_seeds_fit(&sixteen));
    assert!(!check_seeds_fit(&seeds_with_bump(&sixteen, 3)));
    assert_eq!(find_program_address(&sixteen, &program_id()), None);
}

#[test]
fn seeds_with_bump_appends_bump() {
    let s = seeds_with_bump(&m4_seeds(), 9);
    assert_eq!(s, vec![b"marketplace".to_vec(), b"m4".to_vec(), vec![9u8]]);
}

#[test]
fn le_bytes_of_matches_std() {
    for x in [0u64, 1, 255, 256, 0x0102030405060708, u64::MAX] {
        assert_eq!(le_bytes_of(x), x.to_le_bytes().to_vec());
    }
}

#[test]
fn same_as_compares_all_bytes() {
    let a = Address::new(M4_ADDRESS);
    let mut other = M4_ADDRESS;
    other[31] ^= 1;
    assert!(a.same_as(&Address::new(M4_ADDRESS)));
    assert!(!a.same_as(&Address::new(other)));
    assert_eq!(a.to_seed(), M4_ADDRESS.to_vec());
}
