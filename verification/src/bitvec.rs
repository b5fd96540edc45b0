//! Concrete bit-vector values: a width in bits and the value as
//! little-endian 64-bit words.

use vstd::prelude::*;
use vstd::arithmetic::power2::{pow2, lemma_pow2_adds, lemma_pow2_pos, lemma_pow2_strictly_increases, lemma2_to64};
use vstd::arithmetic::mul::{lemma_mul_basics, lemma_mul_inequality, lemma_mul_is_distributive_add, lemma_mul_is_associative, lemma_mul_nonnegative, lemma_mul_is_distributive_sub};
use vstd::bits::lemma_u64_shl_is_mul;

verus! {

/// The number that a little-endian sequence of 64-bit digits denotes.
pub open spec fn digits_value(ds: Seq<u64>) -> nat
    decreases ds.len(),
{
    if ds.len() == 0 {
        0
    } else {
        ds[0] as nat + pow2(64) * digits_value(ds.drop_first())
    }
}

/// The number that a little-endian sequence of bytes denotes.
pub open spec fn bytes_le_value(bs: Seq<u8>) -> nat
    decreases bs.len(),
{
    if bs.len() == 0 {
        0
    } else {
        bs[0] as nat + 256 * bytes_le_value(bs.drop_first())
    }
}

/// Number of 64-bit words that hold `length` bits.
pub open spec fn word_count(length: nat) -> nat {
    (length + 63) / 64
}

/// Why a bit-vector could not be built.
#[derive(Debug, Clone, Copy, PartialEq, Eq)]
pub enum BitVecError {
    /// The value needs more bits than the requested width.
    BitVectorTooShort { length: u32 },
}

/// A bit-vector value of a fixed width.
#[derive(Debug, PartialEq, Eq, Hash)]
pub struct BitVec {
    words: Vec<u64>,
    length: u32,
}

proof fn lemma_digits_split(ds: Seq<u64>, k: nat)
    requires
        k <= ds.len(),
    ensures
        digits_value(ds) == digits_value(ds.take(k as int)) + pow2(64 * k) * digits_value(ds.skip(k as int)),
    decreases k,
{
    if k == 0 {
        assert(ds.take(0) =~= Seq::<u64>::empty());
        assert(ds.skip(0) =~= ds);
        lemma2_to64();
    } else {
        let t = ds.drop_first();
        lemma_digits_split(t, (k - 1) as nat);
        assert(t.take(k - 1) =~= ds.take(k as int).drop_first());
        assert(t.skip(k - 1) =~= ds.skip(k as int));
        let a = digits_value(ds.take(k as int).drop_first());
        let b = digits_value(ds.skip(k as int));
        let p = pow2(64 * (k - 1) as nat);
        lemma_pow2_adds(64, 64 * (k - 1) as nat);
        assert(64 + 64 * (k - 1) as nat == 64 * k) by (nonlinear_arith)
            requires k >= 1;
        lemma_mul_is_distributive_add(pow2(64) as int, a as int, (p * b) as int);
        lemma_mul_is_associative(pow2(64) as int, p as int, b as int);
    }
}

proof fn lemma_digits_bound(ds: Seq<u64>)
    ensures
        digits_value(ds) < pow2(64 * ds.len()),
    decreases ds.len(),
{
    if ds.len() == 0 {
        lemma2_to64();
    } else {
        let t = ds.drop_first();
        lemma_digits_bound(t);
        lemma2_to64();
        let p = pow2(64 * t.len());
        lemma_pow2_adds(64, 64 * t.len());
        assert(64 + 64 * t.len() == 64 * ds.len());
        lemma_mul_inequality(digits_value(t) as int, p - 1, pow2(64) as int);
        lemma_mul_is_distributive_sub(pow2(64) as int, p as int, 1);
        lemma_mul_is_commutative_nat(pow2(64), p);
    }
}

proof fn lemma_mul_is_commutative_nat(a: nat, b: nat)
    ensures
        a * b == b * a,
{
}

proof fn lemma_digits_zero(ds: Seq<u64>)
    ensures
        (forall|i: int| 0 <= i < ds.len() ==> ds[i] == 0) <==> digits_value(ds) == 0,
    decreases ds.len(),
{
    if ds.len() > 0 {
        let t = ds.drop_first();
        lemma_digits_zero(t);
        lemma_pow2_pos(64);
        lemma_mul_basics(pow2(64) as int);
        lemma_mul_nonnegative(pow2(64) as int, digits_value(t) as int);
        if digits_value(t) > 0 {
            lemma_mul_inequality(1, digits_value(t) as int, pow2(64) as int);
        }
        if forall|i: int| 0 <= i < ds.len() ==> ds[i] == 0 {
            assert(ds[0] == 0);
            assert forall|i: int| 0 <= i < t.len() implies t[i] == 0 by {
                assert(t[i] == ds[i + 1]);
            }
        }
        if digits_value(ds) == 0 {
            assert forall|i: int| 0 <= i < ds.len() implies ds[i] == 0 by {
                if i > 0 {
                    assert(t[i - 1] == ds[i]);
                }
            }
        }
    }
}

proof fn lemma_digits_last(ds: Seq<u64>)
    requires
        ds.len() > 0,
    ensures
        digits_value(ds) == digits_value(ds.take(ds.len() - 1)) + pow2(64 * (ds.len() - 1) as nat) * ds[ds.len() - 1],
{
    let k = (ds.len() - 1) as nat;
    lemma_digits_split(ds, k);
    let s = ds.skip(k as int);
    assert(s.len() == 1);
    assert(s.drop_first() =~= Seq::<u64>::empty());
    assert(digits_value(s.drop_first()) == 0);
    lemma_mul_basics(pow2(64) as int);
    assert(digits_value(s) == s[0] as nat + pow2(64) * digits_value(s.drop_first()));
    assert(s[0] == ds[ds.len() - 1]);
}

/// The test that `from_digits` runs decides whether the value fits the width.
pub open spec fn digits_fit_test(ds: Seq<u64>, length: nat) -> bool {
    let w = word_count(length);
    &&& forall|i: int| w <= i < ds.len() ==> ds[i] == 0
    &&& (w == 0 || ds.len() < w || (ds[w - 1] as nat) < pow2((length - 64 * (w - 1)) as nat))
}

proof fn lemma_fits_iff(ds: Seq<u64>, length: nat)
    ensures
        digits_value(ds) < pow2(length) <==> digits_fit_test(ds, length),
{
    let w = word_count(length);
    let n = ds.len();
    lemma2_to64();
    if w == 0 {
        assert(length == 0);
        lemma_digits_zero(ds);
    } else if n < w {
        lemma_digits_bound(ds);
        assert(64 * n <= 64 * (w - 1)) by (nonlinear_arith)
            requires n < w;
        assert(64 * (w - 1) < length);
        lemma_pow2_strictly_increases(64 * n, length);
        assert(digits_value(ds) < pow2(length));
        assert(digits_fit_test(ds, length));
    } else {
        lemma_fits_iff_full(ds, length);
    }
}

proof fn lemma_fits_iff_full(ds: Seq<u64>, length: nat)
    requires
        word_count(length) >= 1,
        ds.len() >= word_count(length),
    ensures
        digits_value(ds) < pow2(length) <==> digits_fit_test(ds, length),
{
    let w = word_count(length);
    let n = ds.len();
    lemma2_to64();
    let r = (length - 64 * (w - 1)) as nat;
    assert(1 <= r <= 64);
    lemma_digits_split(ds, w);
    let hi = ds.skip(w as int);
    let lo = ds.take(w as int);
    lemma_digits_zero(hi);
    lemma_digits_last(lo);
    assert(lo.take(w - 1) =~= ds.take(w - 1));
    let a = digits_value(ds.take(w - 1));
    let p = pow2(64 * (w - 1) as nat);
    assert(ds.take(w - 1).len() == w - 1);
    lemma_digits_bound(ds.take(w - 1));
    assert(a < p);
    lemma_pow2_adds(64 * (w - 1) as nat, r);
    assert(64 * (w - 1) as nat + r == length);
    assert(p * pow2(r) == pow2(length));
    let top = ds[w - 1] as nat;
    assert(lo[w - 1] == ds[w - 1]);
    assert(digits_value(lo) == a + p * top);
    let h = digits_value(hi);
    let ph = pow2(64 * w);
    assert(digits_value(ds) == a + p * top + ph * h);
    lemma_pow2_pos(64 * w);
    lemma_pow2_pos(r);
    if length < 64 * w {
        lemma_pow2_strictly_increases(length, 64 * w);
    }
    assert(pow2(length) <= ph);
    lemma_mul_nonnegative(ph as int, h as int);
    lemma_mul_nonnegative(p as int, top as int);
    let zeros_ok = forall|i: int| w <= i < ds.len() ==> ds[i] == 0;
    if h > 0 {
        lemma_mul_inequality(1, h as int, ph as int);
        assert(digits_value(ds) >= pow2(length));
        assert(!(forall|i: int| 0 <= i < hi.len() ==> hi[i] == 0));
        let i = choose|i: int| 0 <= i < hi.len() && hi[i] != 0;
        assert(ds[w + i] == hi[i]);
        assert(!zeros_ok);
    } else {
        assert forall|i: int| w <= i < ds.len() implies ds[i] == 0 by {
            assert(hi[i - w] == ds[i]);
        }
        assert(zeros_ok);
        lemma_mul_basics(ph as int);
        assert(digits_value(ds) == a + p * top);
        if top < pow2(r) {
            lemma_mul_inequality(top as int, pow2(r) - 1, p as int);
            lemma_mul_is_distributive_sub(p as int, pow2(r) as int, 1);
            lemma_mul_is_commutative_nat(p, pow2(r));
            lemma_mul_is_commutative_nat(p, top);
            assert(p * top <= p * pow2(r) - p);
            assert(digits_value(ds) < pow2(length));
        } else {
            lemma_mul_inequality(pow2(r) as int, top as int, p as int);
            lemma_mul_is_commutative_nat(p, pow2(r));
            lemma_mul_is_commutative_nat(p, top);
            assert(p * top >= pow2(length));
            assert(digits_value(ds) >= pow2(length));
        }
    }
}

/// Little-endian bytes denote a number below 2 to the power of eight times their count.
pub proof fn lemma_bytes_le_bound(bs: Seq<u8>)
    ensures
        bytes_le_value(bs) < pow2(8 * bs.len()),
    decreases bs.len(),
{
    lemma2_to64();
    if bs.len() > 0 {
        let t = bs.drop_first();
        lemma_bytes_le_bound(t);
        let p = pow2(8 * t.len());
        lemma_pow2_adds(8, 8 * t.len());
        assert(8 + 8 * t.len() == 8 * bs.len());
        lemma_mul_inequality(bytes_le_value(t) as int, p - 1, 256);
        lemma_mul_is_distributive_sub(256, p as int, 1);
        lemma_mul_is_commutative_nat(256, p);
    }
}

impl Clone for BitVec {
    fn clone(&self) -> (r: Self)
        ensures
            r.spec_words() == self.spec_words(),
            r.spec_len() == self.spec_len(),
            r.spec_value() == self.spec_value(),
    {
        proof {
            use_type_invariant(self);
        }
        let mut words: Vec<u64> = Vec::new();
        let n = self.words.len();
        let mut i: usize = 0;
        while i < n
            invariant
                i <= n,
                n == self.words@.len(),
                words@ =~= self.words@.take(i as int),
            decreases n - i,
        {
            words.push(self.words[i]);
            i += 1;
        }
        proof {
            assert(words@ =~= self.words@);
        }
        BitVec { words, length: self.length }
    }
}

impl BitVec {
    /// Words hold exactly the bits of the width, and the value fits it.
    #[verifier::type_invariant]
    pub closed spec fn well_formed(self) -> bool {
        &&& self.words@.len() == word_count(self.length as nat)
        &&& digits_value(self.words@) < pow2(self.length as nat)
    }

    /// The width in bits.
    pub closed spec fn spec_len(self) -> nat {
        self.length as nat
    }

    /// A well-formed bit-vector has one word for each 64 bits of its width, rounded up.
    pub proof fn lemma_words_len(self)
        requires
            self.well_formed(),
        ensures
            self.spec_words().len() == word_count(self.spec_len()),
    {
    }

    /// A width fits a `u32`.
    pub proof fn lemma_len_fits(self)
        ensures
            self.spec_len() <= u32::MAX,
    {
    }

    /// The number held.
    pub closed spec fn spec_value(self) -> nat {
        digits_value(self.words@)
    }

    /// The little-endian words that hold the number.
    pub closed spec fn spec_words(self) -> Seq<u64> {
        self.words@
    }

    /// The width in bits.
    pub fn len(&self) -> (r: u32)
        ensures
            r as nat == self.spec_len(),
    {
        self.length
    }

    /// The little-endian 64-bit words of the value; there are as many as the width needs.
    pub fn words(&self) -> (r: &Vec<u64>)
        ensures
            r@ == self.spec_words(),
            r@.len() == word_count(self.spec_len()),
            digits_value(r@) == self.spec_value(),
    {
        proof {
            use_type_invariant(self);
        }
        &self.words
    }

    /// Builds the bit-vector of width `length` holding the number that the
    /// little-endian `digits` denote; refuses a number that needs more bits.
    pub fn from_digits(digits: &[u64], length: u32) -> (r: Result<BitVec, BitVecError>)
        ensures
            r is Ok <==> digits_value(digits@) < pow2(length as nat),
            r matches Ok(bv) ==> bv.spec_value() == digits_value(digits@) && bv.spec_len() == length as nat,
            r matches Err(e) ==> e == (BitVecError::BitVectorTooShort { length }),
    {
        let n = digits.len();
        let w: usize = ((length as u64 + 63) / 64) as usize;
        assert(w as nat == word_count(length as nat));
        proof {
            lemma_fits_iff(digits@, length as nat);
        }
        let mut i = w;
        while i < n
            invariant
                w <= i,
                i <= n || i == w,
                n == digits@.len(),
                w as nat == word_count(length as nat),
                forall|j: int| w <= j < i ==> digits@[j] == 0,
            decreases n - i,
        {
            if digits[i] != 0 {
                proof {
                    lemma_fits_iff(digits@, length as nat);
                }
                return Err(BitVecError::BitVectorTooShort { length });
            }
            i += 1;
        }
        if w >= 1 && w <= n {
            let r: u32 = length - 64 * ((w - 1) as u32);
            if r < 64 {
                proof {
                    vstd::bits::lemma_u64_pow2_no_overflow(r as nat);
                    lemma_u64_shl_is_mul(1, r as u64);
                }
                if digits[w - 1] >= (1u64 << r) {
                    return Err(BitVecError::BitVectorTooShort { length });
                }
            } else {
                proof {
                    lemma2_to64();
                }
            }
        }
        let mut words: Vec<u64> = Vec::new();
        let mut j: usize = 0;
        while j < w
            invariant
                j <= w,
                n == digits@.len(),
                words@ =~= Seq::new(j as nat, |k: int| if k < n { digits@[k] } else { 0u64 }),
            decreases w - j,
        {
            if j < n {
                words.push(digits[j]);
            } else {
                words.push(0);
            }
            j += 1;
        }
        proof {
            if n >= w {
                assert(words@ =~= digits@.take(w as int));
                lemma_digits_split(digits@, w as nat);
                lemma_digits_zero(digits@.skip(w as int));
                assert forall|k: int| 0 <= k < digits@.skip(w as int).len() implies digits@.skip(w as int)[k] == 0 by {
                    assert(digits@.skip(w as int)[k] == digits@[w + k]);
                }
            } else {
                lemma_digits_split(words@, n as nat);
                assert(words@.take(n as int) =~= digits@);
                let z = words@.skip(n as int);
                assert forall|k: int| 0 <= k < z.len() implies z[k] == 0 by {
                    assert(z[k] == words@[n + k]);
                }
                lemma_digits_zero(z);
            }
        }
        Ok(BitVec { words, length })
    }
}

} // verus!
