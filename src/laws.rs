//! What holds of the dot products across calls: the truncation to the shared prefix,
//! and, where `T` computes exactly as a commutative ring does, agreement with the
//! uncorrected sum and linearity in each argument.
use std::ops::Add;
use std::ops::Mul;
use std::ops::Sub;
use vstd::prelude::*;
use vstd::std_specs::ops::AddSpec;
use vstd::std_specs::ops::MulSpec;
use vstd::std_specs::ops::SubSpec;
use crate::dot_spec;
use crate::compensated_prefix;
use crate::exact_ops;
use crate::naive_dot_spec;
use crate::naive_prefix;
use crate::paired_len;
use crate::zero;

verus! {

/// `T`'s operations are exact and obey the laws of a commutative ring, with
/// subtraction undoing addition and `zero` as the additive identity.
pub open spec fn commutative_ring<T>() -> bool
    where T: Add<Output = T> + Sub<Output = T> + Mul<Output = T> + From<u8>,
{
    &&& exact_ops::<T>()
    &&& forall|a: T, b: T, c: T|
        #[trigger] a.add_spec(b).add_spec(c) == a.add_spec(b.add_spec(c))
    &&& forall|a: T, b: T| #[trigger] a.add_spec(b) == b.add_spec(a)
    &&& forall|a: T| #[trigger] zero::<T>().add_spec(a) == a
    &&& forall|a: T, b: T| #[trigger] a.add_spec(b).sub_spec(b) == a
    &&& forall|a: T, b: T| #[trigger] a.sub_spec(b).add_spec(b) == a
    &&& forall|a: T, b: T, c: T|
        #[trigger] a.mul_spec(b).mul_spec(c) == a.mul_spec(b.mul_spec(c))
    &&& forall|a: T, b: T| #[trigger] a.mul_spec(b) == b.mul_spec(a)
    &&& forall|a: T, b: T, c: T|
        #[trigger] a.mul_spec(b.add_spec(c)) == a.mul_spec(b).add_spec(a.mul_spec(c))
}

/// `u64` arithmetic, as its operator specifications state it (results wrap modulo
/// 2^64), meets `commutative_ring`: the laws below apply to it.
pub proof fn lemma_u64_is_commutative_ring()
    ensures
        commutative_ring::<u64>(),
{
    assert forall|a: u64, b: u64, c: u64|
        #[trigger] a.add_spec(b).add_spec(c) == a.add_spec(b.add_spec(c)) by {
        assert(((a + b) as u64 + c) as u64 == (a + (b + c) as u64) as u64) by (bit_vector);
    }
    assert forall|a: u64, b: u64| #[trigger] a.add_spec(b) == b.add_spec(a) by {
        assert((a + b) as u64 == (b + a) as u64) by (bit_vector);
    }
    assert forall|a: u64| #[trigger] zero::<u64>().add_spec(a) == a by {
        assert((0u64 + a) as u64 == a) by (bit_vector);
    }
    assert forall|a: u64, b: u64| #[trigger] a.add_spec(b).sub_spec(b) == a by {
        assert(((a + b) as u64 - b) as u64 == a) by (bit_vector);
    }
    assert forall|a: u64, b: u64| #[trigger] a.sub_spec(b).add_spec(b) == a by {
        assert(((a - b) as u64 + b) as u64 == a) by (bit_vector);
    }
    assert forall|a: u64, b: u64, c: u64|
        #[trigger] a.mul_spec(b).mul_spec(c) == a.mul_spec(b.mul_spec(c)) by {
        assert(((a * b) as u64 * c) as u64 == (a * (b * c) as u64) as u64) by (bit_vector);
    }
    assert forall|a: u64, b: u64| #[trigger] a.mul_spec(b) == b.mul_spec(a) by {
        assert((a * b) as u64 == (b * a) as u64) by (bit_vector);
    }
    assert forall|a: u64, b: u64, c: u64|
        #[trigger] a.mul_spec(b.add_spec(c)) == a.mul_spec(b).add_spec(a.mul_spec(c)) by {
        assert((a * (b + c) as u64) as u64 == ((a * b) as u64 + (a * c) as u64) as u64)
            by (bit_vector);
    }
}

/// Elementwise sum of two vectors of one length.
pub open spec fn vec_add<T>(y: Seq<T>, z: Seq<T>) -> Seq<T>
    where T: Add<Output = T>,
{
    Seq::new(y.len(), |i: int| y[i].add_spec(z[i]))
}

/// Each element of `x` multiplied by `a`.
pub open spec fn vec_scale<T>(a: T, x: Seq<T>) -> Seq<T>
    where T: Mul<Output = T>,
{
    Seq::new(x.len(), |i: int| a.mul_spec(x[i]))
}

/// The recurrence reads only the first `n` pairs: inputs that agree there give the same
/// (sum, compensation).
pub proof fn lemma_prefix_reads_first_pairs<T>(x1: Seq<T>, y1: Seq<T>, x2: Seq<T>, y2: Seq<T>, n: nat)
    where T: Add<Output = T> + Sub<Output = T> + Mul<Output = T> + From<u8>,
    requires
        n <= x1.len(),
        n <= y1.len(),
        n <= x2.len(),
        n <= y2.len(),
        forall|i: int| 0 <= i < n ==> x1[i] == x2[i] && y1[i] == y2[i],
    ensures
        compensated_prefix(x1, y1, n) == compensated_prefix(x2, y2, n),
    decreases n,
{
    if n > 0 {
        lemma_prefix_reads_first_pairs(x1, y1, x2, y2, (n - 1) as nat);
    }
}

/// Vectors of different lengths are paired up to the shorter length: the dot product
/// equals that of the two prefixes of that length.
pub proof fn lemma_dot_truncates<T>(x: Seq<T>, y: Seq<T>)
    where T: Add<Output = T> + Sub<Output = T> + Mul<Output = T> + From<u8>,
    ensures
        dot_spec(x, y) == dot_spec(
            x.take(paired_len(x, y) as int),
            y.take(paired_len(x, y) as int),
        ),
{
    let k = paired_len(x, y);
    let xs = x.take(k as int);
    let ys = y.take(k as int);
    assert(paired_len(xs, ys) == k);
    lemma_prefix_reads_first_pairs(x, y, xs, ys, k);
}

/// In a commutative ring `zero` is absorbing for multiplication.
proof fn lemma_mul_zero<T>(a: T)
    where T: Add<Output = T> + Sub<Output = T> + Mul<Output = T> + From<u8>,
    requires
        commutative_ring::<T>(),
    ensures
        a.mul_spec(zero::<T>()) == zero::<T>(),
{
    let z = zero::<T>();
    let p = a.mul_spec(z);
    assert(z.add_spec(z) == z);
    assert(a.mul_spec(z.add_spec(z)) == p.add_spec(p));
    assert(p.add_spec(p).sub_spec(p) == p);
    assert(z.add_spec(p).sub_spec(p) == z);
    assert(z.add_spec(p) == p);
}

/// In a commutative ring the compensation term stays `zero` and the running sum is the
/// uncorrected sum of products.
pub proof fn lemma_compensation_vanishes<T>(x: Seq<T>, y: Seq<T>, n: nat)
    where T: Add<Output = T> + Sub<Output = T> + Mul<Output = T> + From<u8>,
    requires
        commutative_ring::<T>(),
        n <= x.len(),
        n <= y.len(),
    ensures
        compensated_prefix(x, y, n) == (naive_prefix(x, y, n), zero::<T>()),
    decreases n,
{
    if n > 0 {
        lemma_compensation_vanishes(x, y, (n - 1) as nat);
        let z = zero::<T>();
        let s = naive_prefix(x, y, (n - 1) as nat);
        let p = x[n - 1].mul_spec(y[n - 1]);
        assert(p.sub_spec(z).add_spec(z) == p);
        assert(z.add_spec(p.sub_spec(z)) == p.sub_spec(z));
        assert(p.sub_spec(z) == p);
        assert(s.add_spec(p) == p.add_spec(s));
        assert(p.add_spec(s).sub_spec(s) == p);
        assert(z.add_spec(p).sub_spec(p) == z);
        assert(z.add_spec(p) == p);
    }
}

/// Where `T` is a commutative ring, the compensated and the uncorrected dot products
/// agree.
pub proof fn lemma_dot_equals_naive<T>(x: Seq<T>, y: Seq<T>)
    where T: Add<Output = T> + Sub<Output = T> + Mul<Output = T> + From<u8>,
    requires
        commutative_ring::<T>(),
    ensures
        dot_spec(x, y) == naive_dot_spec(x, y),
{
    lemma_compensation_vanishes(x, y, paired_len(x, y));
}

/// In a commutative ring, `(a + b) + (c + d) == (a + c) + (b + d)`.
proof fn lemma_add_exchange<T>(a: T, b: T, c: T, d: T)
    where T: Add<Output = T> + Sub<Output = T> + Mul<Output = T> + From<u8>,
    requires
        commutative_ring::<T>(),
    ensures
        a.add_spec(b).add_spec(c.add_spec(d)) == a.add_spec(c).add_spec(b.add_spec(d)),
{
    assert(a.add_spec(b).add_spec(c.add_spec(d)) == a.add_spec(b.add_spec(c.add_spec(d))));
    assert(b.add_spec(c.add_spec(d)) == b.add_spec(c).add_spec(d));
    assert(b.add_spec(c) == c.add_spec(b));
    assert(c.add_spec(b).add_spec(d) == c.add_spec(b.add_spec(d)));
    assert(a.add_spec(c.add_spec(b.add_spec(d))) == a.add_spec(c).add_spec(b.add_spec(d)));
}

/// The uncorrected sum over the first `n` pairs is additive in its second argument.
proof fn lemma_naive_right_additive<T>(x: Seq<T>, y: Seq<T>, z: Seq<T>, n: nat)
    where T: Add<Output = T> + Sub<Output = T> + Mul<Output = T> + From<u8>,
    requires
        commutative_ring::<T>(),
        y.len() == z.len(),
        n <= x.len(),
        n <= y.len(),
    ensures
        naive_prefix(x, vec_add(y, z), n) == naive_prefix(x, y, n).add_spec(naive_prefix(x, z, n)),
    decreases n,
{
    let s = vec_add(y, z);
    if n == 0 {
        assert(zero::<T>().add_spec(zero::<T>()) == zero::<T>());
    } else {
        let m = (n - 1) as nat;
        lemma_naive_right_additive(x, y, z, m);
        let a = naive_prefix(x, y, m);
        let b = naive_prefix(x, z, m);
        let c = x[n - 1].mul_spec(y[n - 1]);
        let d = x[n - 1].mul_spec(z[n - 1]);
        assert(s[n - 1] == y[n - 1].add_spec(z[n - 1]));
        assert(x[n - 1].mul_spec(s[n - 1]) == c.add_spec(d));
        lemma_add_exchange(a, b, c, d);
    }
}

/// Where `T` is a commutative ring, the dot product is additive in its second argument:
/// `dot(x, y + z) == dot(x, y) + dot(x, z)`.
pub proof fn lemma_dot_right_additive<T>(x: Seq<T>, y: Seq<T>, z: Seq<T>)
    where T: Add<Output = T> + Sub<Output = T> + Mul<Output = T> + From<u8>,
    requires
        commutative_ring::<T>(),
        x.len() == y.len(),
        y.len() == z.len(),
    ensures
        dot_spec(x, vec_add(y, z)) == dot_spec(x, y).add_spec(dot_spec(x, z)),
{
    let n = x.len();
    lemma_compensation_vanishes(x, vec_add(y, z), n);
    lemma_compensation_vanishes(x, y, n);
    lemma_compensation_vanishes(x, z, n);
    lemma_naive_right_additive(x, y, z, n);
}

/// A factor on the first argument comes out of the uncorrected sum over the first `n` pairs.
proof fn lemma_naive_left_scalar<T>(a: T, x: Seq<T>, y: Seq<T>, n: nat)
    where T: Add<Output = T> + Sub<Output = T> + Mul<Output = T> + From<u8>,
    requires
        commutative_ring::<T>(),
        n <= x.len(),
        n <= y.len(),
    ensures
        naive_prefix(vec_scale(a, x), y, n) == a.mul_spec(naive_prefix(x, y, n)),
    decreases n,
{
    if n == 0 {
        lemma_mul_zero(a);
    } else {
        let m = (n - 1) as nat;
        lemma_naive_left_scalar(a, x, y, m);
        let ax = vec_scale(a, x);
        assert(ax[n - 1] == a.mul_spec(x[n - 1]));
        assert(a.mul_spec(x[n - 1]).mul_spec(y[n - 1]) == a.mul_spec(x[n - 1].mul_spec(y[n - 1])));
        assert(a.mul_spec(naive_prefix(x, y, m).add_spec(x[n - 1].mul_spec(y[n - 1])))
            == a.mul_spec(naive_prefix(x, y, m)).add_spec(a.mul_spec(x[n - 1].mul_spec(y[n - 1]))));
    }
}

/// Where `T` is a commutative ring, a scalar factor on the first argument comes out:
/// `dot(a * x, y) == a * dot(x, y)`.
pub proof fn lemma_dot_left_scalar<T>(a: T, x: Seq<T>, y: Seq<T>)
    where T: Add<Output = T> + Sub<Output = T> + Mul<Output = T> + From<u8>,
    requires
        commutative_ring::<T>(),
    ensures
        dot_spec(vec_scale(a, x), y) == a.mul_spec(dot_spec(x, y)),
{
    let n = paired_len(x, y);
    assert(paired_len(vec_scale(a, x), y) == n);
    lemma_compensation_vanishes(vec_scale(a, x), y, n);
    lemma_compensation_vanishes(x, y, n);
    lemma_naive_left_scalar(a, x, y, n);
}

/// A factor on the second argument comes out of the uncorrected sum over the first `n`
/// pairs.
proof fn lemma_naive_right_scalar<T>(a: T, y: Seq<T>, x: Seq<T>, n: nat)
    where T: Add<Output = T> + Sub<Output = T> + Mul<Output = T> + From<u8>,
    requires
        commutative_ring::<T>(),
        n <= y.len(),
        n <= x.len(),
    ensures
        naive_prefix(y, vec_scale(a, x), n) == a.mul_spec(naive_prefix(y, x, n)),
    decreases n,
{
    if n == 0 {
        lemma_mul_zero(a);
    } else {
        let m = (n - 1) as nat;
        lemma_naive_right_scalar(a, y, x, m);
        let ax = vec_scale(a, x);
        let u = y[n - 1];
        let v = x[n - 1];
        assert(ax[n - 1] == a.mul_spec(v));
        assert(u.mul_spec(a.mul_spec(v)) == u.mul_spec(a).mul_spec(v));
        assert(u.mul_spec(a) == a.mul_spec(u));
        assert(a.mul_spec(u).mul_spec(v) == a.mul_spec(u.mul_spec(v)));
        assert(a.mul_spec(naive_prefix(y, x, m).add_spec(u.mul_spec(v)))
            == a.mul_spec(naive_prefix(y, x, m)).add_spec(a.mul_spec(u.mul_spec(v))));
    }
}

/// Where `T` is a commutative ring, a scalar factor on the second argument comes out:
/// `dot(y, a * x) == a * dot(y, x)`.
pub proof fn lemma_dot_right_scalar<T>(a: T, y: Seq<T>, x: Seq<T>)
    where T: Add<Output = T> + Sub<Output = T> + Mul<Output = T> + From<u8>,
    requires
        commutative_ring::<T>(),
    ensures
        dot_spec(y, vec_scale(a, x)) == a.mul_spec(dot_spec(y, x)),
{
    let n = paired_len(y, x);
    assert(paired_len(y, vec_scale(a, x)) == n);
    lemma_compensation_vanishes(y, vec_scale(a, x), n);
    lemma_compensation_vanishes(y, x, n);
    lemma_naive_right_scalar(a, y, x, n);
}

} // verus!
