//! Dot products with compensated summation.
//!
//! `dot` carries, beside the running sum, the part of each addition that rounding
//! dropped, and subtracts it from the next product; `naive_dot` is the plain
//! multiply-accumulate. Both are generic over any copyable `T` with `+`, `-`, `*` and a
//! zero made by `T::from(0u8)`, and pair the inputs up to the shorter length.
//!
//! The contracts state the result over the operator specifications of `T`. Where those
//! determine the result (as for the integer types), the result is exactly the
//! recurrence `dot_spec`; floating-point operators have no such specification, so for
//! them only the order of operations is fixed by the code.
use std::ops::Add;
use std::ops::Mul;
use std::ops::Sub;
use vstd::prelude::*;
use vstd::std_specs::convert::FromSpec;
use vstd::std_specs::ops::AddSpec;
use vstd::std_specs::ops::MulSpec;
use vstd::std_specs::ops::SubSpec;

pub mod laws;

verus! {

/// The value that accumulators start from: zero, converted into `T`.
pub open spec fn zero<T: From<u8>>() -> T {
    T::from_spec(0u8)
}

/// Number of index pairs that a dot product reads: the shorter length.
pub open spec fn paired_len<T>(x: Seq<T>, y: Seq<T>) -> nat {
    if x.len() <= y.len() {
        x.len()
    } else {
        y.len()
    }
}

/// Sum of the first `n` pairwise products, added from left to right with no correction.
pub open spec fn naive_prefix<T>(x: Seq<T>, y: Seq<T>, n: nat) -> T
    where T: Add<Output = T> + Mul<Output = T> + From<u8>,
    decreases n,
{
    if n == 0 {
        zero::<T>()
    } else {
        naive_prefix(x, y, (n - 1) as nat).add_spec(x[n - 1].mul_spec(y[n - 1]))
    }
}

/// The uncorrected dot product over the shared prefix of `x` and `y`.
pub open spec fn naive_dot_spec<T>(x: Seq<T>, y: Seq<T>) -> T
    where T: Add<Output = T> + Mul<Output = T> + From<u8>,
{
    naive_prefix(x, y, paired_len(x, y))
}

/// One step of the compensated recurrence: from the pair (sum, compensation)
/// and the next product, the next pair.
pub open spec fn compensated_step<T>(acc: (T, T), product: T) -> (T, T)
    where T: Add<Output = T> + Sub<Output = T>,
{
    let adjusted = product.sub_spec(acc.1);
    let new_sum = acc.0.add_spec(adjusted);
    (new_sum, new_sum.sub_spec(acc.0).sub_spec(adjusted))
}

/// The pair (sum, compensation) after the first `n` index pairs.
pub open spec fn compensated_prefix<T>(x: Seq<T>, y: Seq<T>, n: nat) -> (T, T)
    where T: Add<Output = T> + Sub<Output = T> + Mul<Output = T> + From<u8>,
    decreases n,
{
    if n == 0 {
        (zero::<T>(), zero::<T>())
    } else {
        compensated_step(compensated_prefix(x, y, (n - 1) as nat), x[n - 1].mul_spec(y[n - 1]))
    }
}

/// The compensated dot product over the shared prefix of `x` and `y`: the running sum
/// once every pair has been taken in.
pub open spec fn dot_spec<T>(x: Seq<T>, y: Seq<T>) -> T
    where T: Add<Output = T> + Sub<Output = T> + Mul<Output = T> + From<u8>,
{
    compensated_prefix(x, y, paired_len(x, y)).0
}

/// The operations that `T` performs are those of its spec functions: the results are
/// determined by the operands.
pub open spec fn exact_ops<T>() -> bool
    where T: Add<Output = T> + Sub<Output = T> + Mul<Output = T> + From<u8>,
{
    &&& <T as AddSpec>::obeys_add_spec()
    &&& <T as SubSpec>::obeys_sub_spec()
    &&& <T as MulSpec>::obeys_mul_spec()
    &&& <T as FromSpec<u8>>::obeys_from_spec()
}

/// Each multiplication and addition of the uncorrected sum over the first `n` pairs
/// is one that `T` accepts.
pub open spec fn naive_ops_allowed<T>(x: Seq<T>, y: Seq<T>, n: nat) -> bool
    where T: Add<Output = T> + Mul<Output = T> + From<u8>,
{
    forall|i: nat|
        #![trigger naive_prefix(x, y, i)]
        i < n ==> {
            &&& x[i as int].mul_req(y[i as int])
            &&& naive_prefix(x, y, i).add_req(x[i as int].mul_spec(y[i as int]))
        }
}

/// Each operation of the compensated recurrence over the first `n` pairs is one that
/// `T` accepts.
pub open spec fn compensated_ops_allowed<T>(x: Seq<T>, y: Seq<T>, n: nat) -> bool
    where T: Add<Output = T> + Sub<Output = T> + Mul<Output = T> + From<u8>,
{
    forall|i: nat|
        #![trigger compensated_prefix(x, y, i)]
        i < n ==> {
            let acc = compensated_prefix(x, y, i);
            let product = x[i as int].mul_spec(y[i as int]);
            let adjusted = product.sub_spec(acc.1);
            let new_sum = acc.0.add_spec(adjusted);
            &&& x[i as int].mul_req(y[i as int])
            &&& product.sub_req(acc.1)
            &&& acc.0.add_req(adjusted)
            &&& new_sum.sub_req(acc.0)
            &&& new_sum.sub_spec(acc.0).sub_req(adjusted)
        }
}

/// Every multiplication, addition and subtraction on `T` is accepted, whatever the operands.
pub open spec fn total_ops<T>() -> bool
    where T: Add<Output = T> + Sub<Output = T> + Mul<Output = T>,
{
    forall|a: T, b: T|
        #![trigger a.add_req(b)]
        #![trigger a.sub_req(b)]
        #![trigger a.mul_req(b)]
        a.add_req(b) && a.sub_req(b) && a.mul_req(b)
}

/// `naive_dot` may run on `x` and `y`: either `T` accepts every operation, or its
/// operations are exact and accept each operand pair that the sum meets.
pub open spec fn naive_dot_defined<T>(x: Seq<T>, y: Seq<T>) -> bool
    where T: Add<Output = T> + Sub<Output = T> + Mul<Output = T> + From<u8>,
{
    total_ops::<T>() || (exact_ops::<T>() && naive_ops_allowed(x, y, paired_len(x, y)))
}

/// `dot` may run on `x` and `y`: either `T` accepts every operation, or its operations
/// are exact and accept each operand pair that the recurrence meets.
pub open spec fn dot_defined<T>(x: Seq<T>, y: Seq<T>) -> bool
    where T: Add<Output = T> + Sub<Output = T> + Mul<Output = T> + From<u8>,
{
    total_ops::<T>() || (exact_ops::<T>() && compensated_ops_allowed(x, y, paired_len(x, y)))
}

/// Dot product of `x0` and `x1` by plain multiply-accumulate, over the first
/// `min(x0.len(), x1.len())` pairs.
pub fn naive_dot<T>(x0: &[T], x1: &[T]) -> (out: T)
    where T: Add<Output = T> + Mul<Output = T> + Sub<Output = T> + From<u8> + Copy,
    requires
        naive_dot_defined(x0@, x1@),
    ensures
        exact_ops::<T>() ==> out == naive_dot_spec(x0@, x1@),
{
    let n: usize = if x0.len() <= x1.len() { x0.len() } else { x1.len() };
    let mut acc: T = T::from(0u8);
    let mut i: usize = 0;
    while i < n
        invariant
            n as nat == paired_len(x0@, x1@),
            i <= n,
            naive_dot_defined(x0@, x1@),
            exact_ops::<T>() ==> acc == naive_prefix(x0@, x1@, i as nat),
        decreases n - i,
    {
        let product = x0[i] * x1[i];
        acc = acc + product;
        i = i + 1;
    }
    acc
}

/// Dot product of `x0` and `x1` by compensated summation, over the first
/// `min(x0.len(), x1.len())` pairs: each product, less the compensation carried so far,
/// is added to the running sum, and the part of it that the addition lost becomes the
/// new compensation.
pub fn dot<T>(x0: &[T], x1: &[T]) -> (out: T)
    where T: Add<Output = T> + Mul<Output = T> + Sub<Output = T> + From<u8> + Copy,
    requires
        dot_defined(x0@, x1@),
    ensures
        exact_ops::<T>() ==> out == dot_spec(x0@, x1@),
{
    let n: usize = if x0.len() <= x1.len() { x0.len() } else { x1.len() };
    let zero_value: T = T::from(0u8);
    let mut sum: T = zero_value;
    let mut compensation: T = zero_value;
    let mut i: usize = 0;
    while i < n
        invariant
            n as nat == paired_len(x0@, x1@),
            i <= n,
            dot_defined(x0@, x1@),
            exact_ops::<T>() ==> (sum, compensation) == compensated_prefix(x0@, x1@, i as nat),
        decreases n - i,
    {
        let product = x0[i] * x1[i];
        let adjusted = product - compensation;
        let new_sum = sum + adjusted;
        compensation = (new_sum - sum) - adjusted;
        sum = new_sum;
        i = i + 1;
    }
    sum
}

} // verus!
