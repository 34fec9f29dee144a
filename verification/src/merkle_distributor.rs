//! Merkle proofs over SHA-256 with sorted pair hashing, and the leaf format
//! of an airdrop allocation.
use vstd::prelude::*;
use crate::crypto::{sha256, sha256_digest};

verus! {

/// Lexicographic order on byte strings (a proper prefix comes first).
pub open spec fn bytes_lt(a: Seq<u8>, b: Seq<u8>) -> bool
    decreases a.len(),
{
    if a.len() == 0 {
        b.len() > 0
    } else if b.len() == 0 {
        false
    } else if a[0] != b[0] {
        a[0] < b[0]
    } else {
        bytes_lt(a.drop_first(), b.drop_first())
    }
}

proof fn lemma_bytes_lt_skip(a: Seq<u8>, b: Seq<u8>, i: int)
    requires
        0 <= i <= a.len(),
        i <= b.len(),
        forall|j: int| 0 <= j < i ==> a[j] == b[j],
    ensures
        bytes_lt(a, b) == bytes_lt(a.skip(i), b.skip(i)),
    decreases i,
{
    if i > 0 {
        lemma_bytes_lt_skip(a.drop_first(), b.drop_first(), i - 1);
        assert(a.drop_first().skip(i - 1) =~= a.skip(i));
        assert(b.drop_first().skip(i - 1) =~= b.skip(i));
        assert(a[0] == b[0]);
    } else {
        assert(a.skip(0) =~= a);
        assert(b.skip(0) =~= b);
    }
}

/// Whether `a` orders before `b`.
pub fn less_than(a: &[u8], b: &[u8]) -> (r: bool)
    ensures
        r == bytes_lt(a@, b@),
{
    let mut i: usize = 0;
    while i < a.len() && i < b.len()
        invariant
            0 <= i <= a.len(),
            i <= b.len(),
            forall|j: int| 0 <= j < i ==> a@[j] == b@[j],
        decreases a.len() - i,
    {
        if a[i] != b[i] {
            proof {
                lemma_bytes_lt_skip(a@, b@, i as int);
                assert(a@.skip(i as int)[0] == a@[i as int]);
                assert(b@.skip(i as int)[0] == b@[i as int]);
            }
            return a[i] < b[i];
        }
        i = i + 1;
    }
    proof {
        lemma_bytes_lt_skip(a@, b@, i as int);
    }
    i < b.len()
}

/// Byte-string equality.
pub fn bytes_equal(a: &[u8], b: &[u8]) -> (r: bool)
    ensures
        r == (a@ == b@),
{
    if a.len() != b.len() {
        return false;
    }
    let mut i: usize = 0;
    while i < a.len()
        invariant
            a.len() == b.len(),
            0 <= i <= a.len(),
            forall|j: int| 0 <= j < i ==> a@[j] == b@[j],
        decreases a.len() - i,
    {
        if a[i] != b[i] {
            return false;
        }
        i = i + 1;
    }
    assert(a@ =~= b@);
    true
}

/// One level up the tree: the hash of the pair, smaller operand first.
pub open spec fn merkle_step(h: Seq<u8>, p: Seq<u8>) -> Seq<u8> {
    if bytes_lt(h, p) {
        sha256_digest(h + p)
    } else {
        sha256_digest(p + h)
    }
}

/// The root that `proof` leads to from `leaf`.
pub open spec fn merkle_fold(leaf: Seq<u8>, proof: Seq<Seq<u8>>) -> Seq<u8>
    decreases proof.len(),
{
    if proof.len() == 0 {
        leaf
    } else {
        merkle_step(merkle_fold(leaf, proof.drop_last()), proof.last())
    }
}

/// The proof elements as byte strings.
pub open spec fn proof_view(proof: Seq<Vec<u8>>) -> Seq<Seq<u8>> {
    proof.map_values(|v: Vec<u8>| v@)
}

fn concat(a: &[u8], b: &[u8]) -> (r: Vec<u8>)
    ensures
        r@ == a@ + b@,
{
    let mut out: Vec<u8> = Vec::new();
    let mut i: usize = 0;
    while i < a.len()
        invariant
            0 <= i <= a.len(),
            out@ == a@.take(i as int),
        decreases a.len() - i,
    {
        out.push(a[i]);
        assert(a@.take(i + 1) =~= a@.take(i as int).push(a@[i as int]));
        i = i + 1;
    }
    let mut j: usize = 0;
    while j < b.len()
        invariant
            0 <= j <= b.len(),
            out@ == a@ + b@.take(j as int),
        decreases b.len() - j,
    {
        out.push(b[j]);
        assert(b@.take(j + 1) =~= b@.take(j as int).push(b@[j as int]));
        j = j + 1;
    }
    assert(a@.take(a.len() as int) =~= a@);
    assert(b@.take(b.len() as int) =~= b@);
    out
}

/// Whether `proof` leads from `leaf` to `root`.
pub fn verify(proof: &Vec<Vec<u8>>, root: &[u8], leaf: &[u8]) -> (r: bool)
    ensures
        r == (merkle_fold(leaf@, proof_view(proof@)) == root@),
{
    let mut computed: Vec<u8> = concat(leaf, &[]);
    assert(computed@ =~= leaf@);
    let ghost pv = proof_view(proof@);
    let mut i: usize = 0;
    assert(pv.take(0) =~= Seq::<Seq<u8>>::empty());
    while i < proof.len()
        invariant
            0 <= i <= proof.len(),
            pv == proof_view(proof@),
            computed@ == merkle_fold(leaf@, pv.take(i as int)),
        decreases proof.len() - i,
    {
        let element = &proof[i];
        assert(pv.take(i + 1).drop_last() =~= pv.take(i as int));
        assert(pv.take(i + 1).last() == element@);
        let buffer = if less_than(&computed, element) {
            concat(&computed, element)
        } else {
            concat(element, &computed)
        };
        computed = sha256(&buffer);
        i = i + 1;
    }
    assert(pv.take(proof.len() as int) =~= pv);
    bytes_equal(&computed, root)
}

/// Big-endian bytes of a 128-bit value.
pub open spec fn be_bytes_u128(u: u128) -> Seq<u8> {
    Seq::new(16, |k: int| (u >> ((8 * (15 - k)) as u128)) as u8)
}

/// Ledger-value encoding of a signed 128-bit amount: the type tag `10`
/// as four big-endian bytes, then the two's-complement value big-endian.
pub open spec fn i128_value_bytes(amount: i128) -> Seq<u8> {
    seq![0u8, 0u8, 0u8, 10u8] + be_bytes_u128(amount as u128)
}

/// The leaf of an allocation: SHA-256 of the encoded address followed by
/// the encoded amount.
pub open spec fn spec_leaf(address_bytes: Seq<u8>, amount: i128) -> Seq<u8> {
    sha256_digest(address_bytes + i128_value_bytes(amount))
}

/// Compute the leaf of `amount` for the address whose ledger encoding is
/// `address_bytes`.
pub fn compute_leaf(address_bytes: &[u8], amount: i128) -> (r: Vec<u8>)
    ensures
        r@ == spec_leaf(address_bytes@, amount),
        r@.len() == 32,
{
    let mut buffer = concat(address_bytes, &[0u8, 0u8, 0u8, 10u8]);
    let u = amount as u128;
    let mut k: u32 = 0;
    let ghost base = buffer@;
    while k < 16
        invariant
            0 <= k <= 16,
            base == address_bytes@ + seq![0u8, 0u8, 0u8, 10u8],
            buffer@ == base + be_bytes_u128(u).take(k as int),
            u == amount as u128,
        decreases 16 - k,
    {
        let shift: u128 = (8 * (15 - k)) as u128;
        buffer.push((u >> shift) as u8);
        assert(be_bytes_u128(u).take(k + 1) =~= be_bytes_u128(u).take(k as int).push(
            (u >> ((8 * (15 - k as int)) as u128)) as u8));
        k = k + 1;
    }
    assert(be_bytes_u128(u).take(16) =~= be_bytes_u128(u));
    assert(buffer@ =~= address_bytes@ + i128_value_bytes(amount));
    sha256(&buffer)
}

/// No byte string comes before itself.
pub proof fn lemma_bytes_lt_irreflexive(a: Seq<u8>)
    ensures
        !bytes_lt(a, a),
    decreases a.len(),
{
    if a.len() > 0 {
        lemma_bytes_lt_irreflexive(a.drop_first());
    }
}

/// Byte order is a strict total order: of two different byte strings,
/// exactly one comes first.
pub proof fn lemma_bytes_lt_total(a: Seq<u8>, b: Seq<u8>)
    ensures
        a != b ==> bytes_lt(a, b) != bytes_lt(b, a),
    decreases a.len(),
{
    if a.len() > 0 && b.len() > 0 {
        lemma_bytes_lt_total(a.drop_first(), b.drop_first());
        if a[0] == b[0] && a.drop_first() == b.drop_first() {
            assert(a =~= b) by {
                assert forall|i: int| 0 <= i < a.len() implies a[i] == b[i] by {
                    if i > 0 {
                        assert(a[i] == a.drop_first()[i - 1]);
                        assert(b[i] == b.drop_first()[i - 1]);
                    }
                }
            }
        }
    } else if a.len() == 0 && b.len() == 0 {
        assert(a =~= b);
    }
}

/// Each proof element hashes with the running hash smaller operand first,
/// at every level: extending a proof by `e` takes the SHA-256 of the pair
/// (running hash, `e`) in byte order.
pub proof fn lemma_fold_extend(leaf: Seq<u8>, proof: Seq<Seq<u8>>, e: Seq<u8>)
    ensures
        ({
            let h = merkle_fold(leaf, proof);
            merkle_fold(leaf, proof.push(e)) == if bytes_lt(h, e) { sha256_digest(h + e) } else { sha256_digest(e + h) }
        }),
{
    assert(proof.push(e).drop_last() =~= proof);
}

/// The order of a pair never matters: a level hashes two different
/// strings the same way whichever of them is the running hash.
pub proof fn lemma_pair_order_free(leaf: Seq<u8>, proof: Seq<Seq<u8>>, e: Seq<u8>, leaf2: Seq<u8>, proof2: Seq<Seq<u8>>)
    requires
        merkle_fold(leaf2, proof2) == e,
        merkle_fold(leaf, proof) != e,
    ensures
        merkle_fold(leaf, proof.push(e)) == merkle_fold(leaf2, proof2.push(merkle_fold(leaf, proof))),
{
    let h = merkle_fold(leaf, proof);
    lemma_fold_extend(leaf, proof, e);
    lemma_fold_extend(leaf2, proof2, h);
    lemma_bytes_lt_total(h, e);
}

} // verus!
