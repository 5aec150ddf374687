//! The constant byte strings that the programs put first in the seeds of
//! their program derived addresses.
use vstd::prelude::*;

verus! {

/// `b"marketplace"`
pub open spec fn marketplace_tag() -> Seq<u8> {
    seq![109u8, 97, 114, 107, 101, 116, 112, 108, 97, 99, 101]
}

/// `b"treasury"`
pub open spec fn treasury_tag() -> Seq<u8> {
    seq![116u8, 114, 101, 97, 115, 117, 114, 121]
}

/// `b"rewards"`
pub open spec fn rewards_tag() -> Seq<u8> {
    seq![114u8, 101, 119, 97, 114, 100, 115]
}

/// `b"stake"`
pub open spec fn stake_tag() -> Seq<u8> {
    seq![115u8, 116, 97, 107, 101]
}

/// `b"user"`
pub open spec fn user_tag() -> Seq<u8> {
    seq![117u8, 115, 101, 114]
}

/// `b"config"`
pub open spec fn config_tag() -> Seq<u8> {
    seq![99u8, 111, 110, 102, 105, 103]
}

/// `b"lp"`
pub open spec fn lp_tag() -> Seq<u8> {
    seq![108u8, 112]
}

/// `b"escrow"`
pub open spec fn escrow_tag() -> Seq<u8> {
    seq![101u8, 115, 99, 114, 111, 119]
}

pub fn marketplace_tag_bytes() -> (v: Vec<u8>)
    ensures
        v@ == marketplace_tag(),
{
    vec![109u8, 97, 114, 107, 101, 116, 112, 108, 97, 99, 101]
}

pub fn treasury_tag_bytes() -> (v: Vec<u8>)
    ensures
        v@ == treasury_tag(),
{
    vec![116u8, 114, 101, 97, 115, 117, 114, 121]
}

pub fn rewards_tag_bytes() -> (v: Vec<u8>)
    ensures
        v@ == rewards_tag(),
{
    vec![114u8, 101, 119, 97, 114, 100, 115]
}

pub fn stake_tag_bytes() -> (v: Vec<u8>)
    ensures
        v@ == stake_tag(),
{
    vec![115u8, 116, 97, 107, 101]
}

pub fn user_tag_bytes() -> (v: Vec<u8>)
    ensures
        v@ == user_tag(),
{
    vec![117u8, 115, 101, 114]
}

pub fn config_tag_bytes() -> (v: Vec<u8>)
    ensures
        v@ == config_tag(),
{
    vec![99u8, 111, 110, 102, 105, 103]
}

pub fn lp_tag_bytes() -> (v: Vec<u8>)
    ensures
        v@ == lp_tag(),
{
    vec![108u8, 112]
}

pub fn escrow_tag_bytes() -> (v: Vec<u8>)
    ensures
        v@ == escrow_tag(),
{
    vec![101u8, 115, 99, 114, 111, 119]
}

/// The eight little-endian bytes of `x`.
pub open spec fn le_bytes(x: u64) -> Seq<u8> {
    Seq::new(8, |i: int| ((x as int / pow256(i)) % 256) as u8)
}

/// 256 to the power `i`.
pub open spec fn pow256(i: int) -> int
    decreases i,
{
    if i <= 0 { 1 } else { 256 * pow256(i - 1) }
}

/// `x.to_le_bytes()` as a vector.
pub fn le_bytes_of(x: u64) -> (v: Vec<u8>)
    ensures
        v@ == le_bytes(x),
{
    let mut v: Vec<u8> = Vec::new();
    let mut rest: u64 = x;
    let mut i: usize = 0;
    while i < 8
        invariant
            i <= 8,
            v@.len() == i,
            rest as int == x as int / pow256(i as int),
            forall|j: int| 0 <= j < i ==> v@[j] == ((x as int / pow256(j)) % 256) as u8,
        decreases 8 - i,
    {
        let ghost old_rest = rest;
        proof {
            assert(pow256(i + 1) == 256 * pow256(i as int));
            assert(pow256(i as int) > 0) by {
                lemma_pow256_positive(i as int);
            }
            vstd::arithmetic::div_mod::lemma_div_denominator(x as int, pow256(i as int), 256);
        }
        v.push((rest % 256) as u8);
        rest = rest / 256;
        i = i + 1;
    }
    assert(v@ =~= le_bytes(x));
    v
}

proof fn lemma_pow256_positive(i: int)
    ensures
        pow256(i) > 0,
    decreases i,
{
    if i > 0 {
        lemma_pow256_positive(i - 1);
    }
}

} // verus!
