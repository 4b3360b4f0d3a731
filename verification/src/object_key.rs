//! Object ids as the library holds them: the twelve bytes of a BSON `ObjectId`,
//! with the big-endian number they spell, by which ids are ordered and found
//! again in maps.

use vstd::prelude::*;

verus! {

/// The number of bytes in an object id.
pub const OBJECT_ID_LEN: usize = 12;

/// 256 to the power `n`.
pub open spec fn radix_pow(n: nat) -> nat
    decreases n,
{
    if n == 0 {
        1
    } else {
        256 * radix_pow((n - 1) as nat)
    }
}

/// The number that the bytes `s` spell, most significant byte first.
pub open spec fn ordinal_of(s: Seq<u8>) -> nat
    decreases s.len(),
{
    if s.len() == 0 {
        0
    } else {
        ordinal_of(s.drop_last()) * 256 + s.last() as nat
    }
}

/// The number spelt by `n` bytes is below `256^n`.
pub proof fn lemma_ordinal_bound(s: Seq<u8>)
    ensures
        ordinal_of(s) < radix_pow(s.len()),
    decreases s.len(),
{
    if s.len() > 0 {
        lemma_ordinal_bound(s.drop_last());
        let x = ordinal_of(s.drop_last());
        let p = radix_pow(s.drop_last().len());
        let b = s.last() as nat;
        assert(x * 256 + b < 256 * p) by (nonlinear_arith)
            requires
                x < p,
                b < 256,
        ;
    }
}

/// Two byte strings of one length that spell the same number are equal.
pub proof fn lemma_ordinal_injective(a: Seq<u8>, b: Seq<u8>)
    requires
        a.len() == b.len(),
        ordinal_of(a) == ordinal_of(b),
    ensures
        a == b,
    decreases a.len(),
{
    if a.len() > 0 {
        let x = ordinal_of(a.drop_last());
        let y = ordinal_of(b.drop_last());
        let la = a.last() as int;
        let lb = b.last() as int;
        assert(x == y && la == lb) by (nonlinear_arith)
            requires
                x * 256 + la == y * 256 + lb,
                0 <= la < 256,
                0 <= lb < 256,
                x >= 0,
                y >= 0,
        ;
        lemma_ordinal_injective(a.drop_last(), b.drop_last());
        assert(a =~= a.drop_last().push(a.last()));
        assert(b =~= b.drop_last().push(b.last()));
    }
}

/// The id of a stored record.
#[derive(Clone, Copy, Debug)]
pub struct ObjectKey {
    bytes: [u8; 12],
}

impl View for ObjectKey {
    type V = Seq<u8>;

    closed spec fn view(&self) -> Seq<u8> {
        self.bytes@
    }
}

impl ObjectKey {
    /// The id made of these twelve bytes.
    pub fn from_bytes(bytes: [u8; 12]) -> (k: ObjectKey)
        ensures
            k@ == bytes@,
    {
        ObjectKey { bytes }
    }

    /// The twelve bytes of the id.
    pub fn to_bytes(&self) -> (b: [u8; 12])
        ensures
            b@ == self@,
    {
        self.bytes
    }

    /// Every id has twelve bytes.
    pub proof fn lemma_len(self)
        ensures
            self@.len() == OBJECT_ID_LEN,
    {
    }

    /// The number the id spells, most significant byte first; ids are ordered
    /// by it as by their bytes, and two ids with one number are one id.
    pub fn ordinal(&self) -> (r: u128)
        ensures
            r == ordinal_of(self@),
    {
        let mut acc: u128 = 0;
        let mut i: usize = 0;
        assert(radix_pow(12) == 0x1_0000_0000_0000_0000_0000_0000) by {
            reveal_with_fuel(radix_pow, 13);
        }
        while i < OBJECT_ID_LEN
            invariant
                i <= OBJECT_ID_LEN,
                acc == ordinal_of(self@.take(i as int)),
                self@.len() == OBJECT_ID_LEN,
                radix_pow(12) == 0x1_0000_0000_0000_0000_0000_0000,
            decreases OBJECT_ID_LEN - i,
        {
            let ghost prefix = self@.take(i as int + 1);
            assert(prefix.drop_last() =~= self@.take(i as int));
            assert(prefix.last() == self.bytes[i as int]);
            proof {
                lemma_ordinal_bound(prefix);
                lemma_radix_pow_monotone(prefix.len(), 12);
            }
            acc = acc * 256 + self.bytes[i] as u128;
            i = i + 1;
        }
        assert(self@.take(12) =~= self@);
        acc
    }
}

/// `256^n` grows with `n`.
pub proof fn lemma_radix_pow_monotone(m: nat, n: nat)
    requires
        m <= n,
    ensures
        radix_pow(m) <= radix_pow(n),
    decreases n,
{
    if m < n {
        lemma_radix_pow_monotone(m, (n - 1) as nat);
    }
}

/// The number an id spells fits in 96 bits.
pub proof fn lemma_ordinal_fits(b: Seq<u8>)
    requires
        b.len() == OBJECT_ID_LEN,
    ensures
        ordinal_of(b) < 0x1_0000_0000_0000_0000_0000_0000,
{
    lemma_ordinal_bound(b);
    assert(radix_pow(12) == 0x1_0000_0000_0000_0000_0000_0000) by {
        reveal_with_fuel(radix_pow, 13);
    }
}

/// Ids with the same number are the same id.
pub proof fn lemma_ordinal_identifies(a: ObjectKey, b: ObjectKey)
    requires
        ordinal_of(a@) == ordinal_of(b@),
    ensures
        a@ == b@,
{
    lemma_ordinal_injective(a@, b@);
}

} // verus!
