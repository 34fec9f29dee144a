//! Shared vocabulary of the contracts: account identifiers, keyed storage
//! helpers and arithmetic helpers whose behaviour is stated exactly.
use std::collections::HashMap;
use std::hash::Hash;
use vstd::prelude::*;
use vstd::std_specs::hash::obeys_key_model;

verus! {

broadcast use vstd::std_specs::hash::group_hash_axioms;

/// An account on the ledger, identified by the number the host assigned to it.
pub type Address = u64;

/// A token transfer out of a contract that the host performs after a call.
#[derive(Copy, Clone, Debug, PartialEq, Eq, Structural)]
pub struct Payout {
    pub to: Address,
    pub amount: i128,
}

/// Whether `v` lists `a`.
pub fn contains_address(v: &Vec<Address>, a: Address) -> (r: bool)
    ensures
        r == v@.contains(a),
{
    let mut i: usize = 0;
    while i < v.len()
        invariant
            0 <= i <= v.len(),
            forall|j: int| 0 <= j < i ==> v@[j] != a,
        decreases v.len() - i,
    {
        if v[i] == a {
            return true;
        }
        i = i + 1;
    }
    false
}

/// Storage lookup with a default: the stored value when the key is present.
pub open spec fn map_get_or<K, V>(m: Map<K, V>, k: K, d: V) -> V {
    if m.contains_key(k) {
        m[k]
    } else {
        d
    }
}

/// Reads `k` from `m`, falling back to `d` where nothing is stored.
pub fn get_or<K: Eq + Hash, V: Copy>(m: &HashMap<K, V>, k: &K, d: V) -> (r: V)
    requires
        obeys_key_model::<K>(),
    ensures
        r == map_get_or(m@, *k, d),
{
    match m.get(k) {
        Some(v) => *v,
        None => d,
    }
}

/// The key under which a pair of 64-bit identifiers is stored.
pub open spec fn spec_pair_key(a: u64, b: u64) -> u128 {
    (a as int * 0x1_0000_0000_0000_0000 + b as int) as u128
}

/// Packs two 64-bit identifiers into one storage key.
pub fn pair_key(a: u64, b: u64) -> (r: u128)
    ensures
        r == spec_pair_key(a, b),
{
    proof {
        lemma_pair_key_bounds(a, b);
    }
    (a as u128) * 0x1_0000_0000_0000_0000u128 + (b as u128)
}

proof fn lemma_pair_key_bounds(a: u64, b: u64)
    ensures
        0 <= a as int * 0x1_0000_0000_0000_0000 + b as int <= u128::MAX,
{
    assert(a as int * 0x1_0000_0000_0000_0000 <= 0xffff_ffff_ffff_ffff * 0x1_0000_0000_0000_0000)
        by (nonlinear_arith)
        requires
            a <= 0xffff_ffff_ffff_ffff,
    ;
}

/// Distinct pairs are stored under distinct keys.
pub proof fn lemma_pair_key_injective(a1: u64, b1: u64, a2: u64, b2: u64)
    ensures
        spec_pair_key(a1, b1) == spec_pair_key(a2, b2) <==> (a1 == a2 && b1 == b2),
{
    lemma_pair_key_bounds(a1, b1);
    lemma_pair_key_bounds(a2, b2);
    if spec_pair_key(a1, b1) == spec_pair_key(a2, b2) {
        let x1 = a1 as int * 0x1_0000_0000_0000_0000 + b1 as int;
        let x2 = a2 as int * 0x1_0000_0000_0000_0000 + b2 as int;
        assert(x1 == x2);
        if a1 < a2 {
            assert(a1 as int * 0x1_0000_0000_0000_0000 + 0x1_0000_0000_0000_0000 <= a2 as int
                * 0x1_0000_0000_0000_0000) by (nonlinear_arith)
                requires
                    a1 < a2,
            ;
        } else if a2 < a1 {
            assert(a2 as int * 0x1_0000_0000_0000_0000 + 0x1_0000_0000_0000_0000 <= a1 as int
                * 0x1_0000_0000_0000_0000) by (nonlinear_arith)
                requires
                    a2 < a1,
            ;
        }
    }
}

/// `u128` multiplication that stops at the largest value instead of overflowing.
pub open spec fn spec_sat_mul_u128(a: u128, b: u128) -> u128 {
    if a * b > u128::MAX {
        u128::MAX
    } else {
        (a * b) as u128
    }
}

/// `u128` addition that stops at the largest value instead of overflowing.
pub open spec fn spec_sat_add_u128(a: u128, b: u128) -> u128 {
    if a + b > u128::MAX {
        u128::MAX
    } else {
        (a + b) as u128
    }
}

/// `u128` subtraction that stops at zero instead of underflowing.
pub open spec fn spec_sat_sub_u128(a: u128, b: u128) -> u128 {
    if a < b {
        0
    } else {
        (a - b) as u128
    }
}

/// Saturating `u128` multiplication.
pub fn sat_mul_u128(a: u128, b: u128) -> (r: u128)
    ensures
        r == spec_sat_mul_u128(a, b),
{
    match a.checked_mul(b) {
        Some(x) => x,
        None => u128::MAX,
    }
}

/// Saturating `u128` addition.
pub fn sat_add_u128(a: u128, b: u128) -> (r: u128)
    ensures
        r == spec_sat_add_u128(a, b),
{
    match a.checked_add(b) {
        Some(x) => x,
        None => u128::MAX,
    }
}

/// Saturating `u128` subtraction.
pub fn sat_sub_u128(a: u128, b: u128) -> (r: u128)
    ensures
        r == spec_sat_sub_u128(a, b),
{
    if a < b {
        0
    } else {
        a - b
    }
}

/// The `n` low bytes of `x`, most significant first.
pub open spec fn be_bytes(x: u128, n: u32) -> Seq<u8> {
    Seq::new(n as nat, |k: int| (x >> ((8 * (n - 1 - k)) as u32)) as u8)
}

/// Appends the `n` low bytes of `x`, most significant first.
pub fn push_be(data: &mut Vec<u8>, x: u128, n: u32)
    requires
        n <= 16,
    ensures
        final(data)@ == old(data)@ + be_bytes(x, n),
{
    let ghost start = data@;
    let mut k: u32 = 0;
    while k < n
        invariant
            0 <= k <= n <= 16,
            data@ == start + be_bytes(x, n).take(k as int),
        decreases n - k,
    {
        data.push((x >> (8 * (n - 1 - k))) as u8);
        assert(be_bytes(x, n).take(k + 1) =~= be_bytes(x, n).take(k as int).push(
            (x >> ((8 * (n - 1 - k as int)) as u32)) as u8));
        k = k + 1;
    }
    assert(be_bytes(x, n).take(n as int) =~= be_bytes(x, n));
}

/// Sum of the amounts of a list of payments.
pub open spec fn payout_total(ps: Seq<Payout>) -> int
    decreases ps.len(),
{
    if ps.len() == 0 { 0 } else { payout_total(ps.drop_last()) + ps.last().amount }
}

} // verus!
