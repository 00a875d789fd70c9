//! Fixed-size byte values of the Ethereum ABI, and conversions between them.
use vstd::prelude::*;

verus! {

broadcast use vstd::array::group_array_axioms;

/// A 32-byte ABI word.
pub type Word = [u8; 32];

/// The key that identifies an entity in Arkiv: a 32-byte hash.
pub type EntityKey = [u8; 32];

/// A 20-byte Ethereum address.
pub type Address = [u8; 20];

/// An unsigned 256-bit integer, as 32 big-endian bytes.
pub type Uint256 = [u8; 32];

/// `256` to the power `n`.
pub open spec fn pow256(n: nat) -> nat
    decreases n,
{
    if n == 0 {
        1
    } else {
        256 * pow256((n - 1) as nat)
    }
}

proof fn lemma_pow256_succ(n: nat)
    ensures
        pow256(n + 1) == pow256(n) * 256,
{
    assert(pow256(n + 1) == 256 * pow256(n));
}

proof fn lemma_pow256_mono(a: nat, b: nat)
    requires
        a <= b,
    ensures
        0 < pow256(a) <= pow256(b),
    decreases b,
{
    if a < b {
        lemma_pow256_mono(a, (b - 1) as nat);
        lemma_pow256_succ((b - 1) as nat);
    } else {
        lemma_pow256_pos(a);
    }
}

proof fn lemma_pow256_pos(n: nat)
    ensures
        pow256(n) > 0,
    decreases n,
{
    if n > 0 {
        lemma_pow256_pos((n - 1) as nat);
    }
}

proof fn lemma_pow256_8()
    ensures
        pow256(8) == 0x1_0000_0000_0000_0000,
{
    reveal_with_fuel(pow256, 9);
}

/// The number that big-endian bytes stand for.
pub open spec fn be_value(s: Seq<u8>) -> nat
    decreases s.len(),
{
    if s.len() == 0 {
        0
    } else {
        be_value(s.drop_last()) * 256 + s.last() as nat
    }
}

/// A 256-bit number as a `u64` where it fits, else zero (`try_into().unwrap_or_default()`).
pub open spec fn u64_or_zero(w: Seq<u8>) -> u64 {
    if be_value(w) <= u64::MAX {
        be_value(w) as u64
    } else {
        0
    }
}

/// The address that an ABI word holds: its last 20 bytes.
pub open spec fn address_of_word(w: Seq<u8>) -> Seq<u8> {
    w.subrange(12, 32)
}

proof fn lemma_be_value_split(a: Seq<u8>, b: Seq<u8>)
    ensures
        be_value(a + b) == be_value(a) * pow256(b.len()) + be_value(b),
    decreases b.len(),
{
    if b.len() == 0 {
        assert(a + b =~= a);
        assert(pow256(0) == 1);
        assert(be_value(a) * 1 == be_value(a));
    } else {
        assert((a + b).drop_last() =~= a + b.drop_last());
        lemma_be_value_split(a, b.drop_last());
        lemma_pow256_succ(b.drop_last().len());
        let p = pow256(b.drop_last().len());
        let x = be_value(a);
        let y = be_value(b.drop_last());
        assert((a + b).last() == b.last());
        assert(be_value(a + b) == (x * p + y) * 256 + b.last() as nat);
        assert(be_value(b) == y * 256 + b.last() as nat);
        assert((x * p + y) * 256 == x * (p * 256) + y * 256) by (nonlinear_arith);
        assert(pow256(b.len()) == p * 256);
    }
}

proof fn lemma_be_value_bound(s: Seq<u8>)
    ensures
        be_value(s) < pow256(s.len()),
    decreases s.len(),
{
    if s.len() > 0 {
        lemma_be_value_bound(s.drop_last());
        lemma_pow256_succ(s.drop_last().len());
        let p = pow256(s.drop_last().len());
        let v = be_value(s.drop_last());
        let l = s.last() as nat;
        assert(v * 256 + l < p * 256) by (nonlinear_arith)
            requires
                v < p,
                l < 256,
        ;
    }
}

proof fn lemma_be_value_zero(s: Seq<u8>)
    requires
        forall|i: int| 0 <= i < s.len() ==> s[i] == 0,
    ensures
        be_value(s) == 0,
    decreases s.len(),
{
    if s.len() > 0 {
        lemma_be_value_zero(s.drop_last());
    }
}

proof fn lemma_be_value_nonzero(s: Seq<u8>, i: int)
    requires
        0 <= i < s.len(),
        s[i] != 0,
    ensures
        be_value(s) >= 1,
    decreases s.len(),
{
    if i < s.len() - 1 {
        lemma_be_value_nonzero(s.drop_last(), i);
    }
}

/// `w` as a `u64` where it fits, else zero.
pub fn u64_or_zero_of(w: &Word) -> (r: u64)
    ensures
        r == u64_or_zero(w@),
{
    let mut i: usize = 0;
    while i < 24
        invariant
            i <= 24,
            forall|j: int| 0 <= j < i ==> w@[j] == 0,
        decreases 24 - i,
    {
        if w[i] != 0 {
            proof {
                let hi = w@.subrange(0, 24);
                let lo = w@.subrange(24, 32);
                assert(hi + lo =~= w@);
                lemma_be_value_split(hi, lo);
                lemma_be_value_nonzero(hi, i as int);
                lemma_pow256_8();
                let p = pow256(8);
                let bh = be_value(hi);
                assert(bh * p >= p) by (nonlinear_arith)
                    requires
                        bh >= 1,
                        p > 0,
                ;
            }
            return 0;
        }
        i += 1;
    }
    proof {
        lemma_pow256_8();
        lemma_pow256_mono(0, 8);
        assert(w@.subrange(24, 24) =~= Seq::<u8>::empty());
    }
    let mut acc: u64 = 0;
    let mut k: usize = 24;
    while k < 32
        invariant
            24 <= k <= 32,
            forall|j: int| 0 <= j < 24 ==> w@[j] == 0,
            acc as nat == be_value(w@.subrange(24, k as int)),
            (acc as nat) < pow256((k - 24) as nat),
            pow256((k - 24) as nat) <= pow256(8),
            pow256(8) == 0x1_0000_0000_0000_0000,
        decreases 32 - k,
    {
        proof {
            assert(w@.subrange(24, k + 1).drop_last() =~= w@.subrange(24, k as int));
            lemma_pow256_succ((k - 24) as nat);
            lemma_pow256_mono((k + 1 - 24) as nat, 8);
            let p = pow256((k - 24) as nat);
            let a = acc as nat;
            let b = w@[k as int] as nat;
            assert(a * 256 + b < p * 256) by (nonlinear_arith)
                requires
                    a < p,
                    b < 256,
            ;
        }
        acc = acc * 256 + w[k] as u64;
        k += 1;
    }
    proof {
        let hi = w@.subrange(0, 24);
        let lo = w@.subrange(24, 32);
        assert(hi + lo =~= w@);
        lemma_be_value_split(hi, lo);
        lemma_be_value_zero(hi);
    }
    acc
}

/// The address that an ABI word holds.
pub fn address_from_word(w: &Word) -> (r: Address)
    ensures
        r@ == address_of_word(w@),
{
    let mut a: Address = [0u8; 20];
    let mut i: usize = 0;
    while i < 20
        invariant
            i <= 20,
            forall|j: int| 0 <= j < i ==> a@[j] == w@[12 + j],
        decreases 20 - i,
    {
        a[i] = w[12 + i];
        i += 1;
    }
    assert(a@ =~= address_of_word(w@));
    a
}

/// The ABI word at `index` (counted in words) of `data`.
pub fn word_at(data: &[u8], index: usize) -> (r: Word)
    requires
        32 * index + 32 <= data@.len(),
    ensures
        r@ == data@.subrange(32 * index, 32 * index + 32),
{
    let n = data.len();
    let start = 32 * index;
    let mut w: Word = [0u8; 32];
    let mut i: usize = 0;
    while i < 32
        invariant
            start == 32 * index,
            start + 32 <= data@.len(),
            i <= 32,
            forall|j: int| 0 <= j < i ==> w@[j] == data@[start + j],
        decreases 32 - i,
    {
        w[i] = data[start + i];
        i += 1;
    }
    assert(w@ =~= data@.subrange(32 * index, 32 * index + 32));
    w
}

/// Whether two words are equal.
pub fn word_eq(a: &Word, b: &Word) -> (r: bool)
    ensures
        r == (a@ == b@),
{
    let mut i: usize = 0;
    while i < 32
        invariant
            i <= 32,
            forall|j: int| 0 <= j < i ==> a@[j] == b@[j],
        decreases 32 - i,
    {
        if a[i] != b[i] {
            return false;
        }
        i += 1;
    }
    assert(a@ =~= b@);
    true
}

} // verus!
