//! The summation variants: eight routines that each compute the wrapping
//! sum of a vector record's elements, differing only in how they access
//! the record (checked accessors, hoisted length and buffer pointer,
//! two-way loop unrolling with various remainder handling).

use crate::vec_rec::VecRec;
use vstd::prelude::*;

verus! {

/// The sum of a sequence of 64-bit integers under wrapping
/// (two's-complement) addition, accumulated left to right.
/// Every summation variant returns exactly this value.
pub open spec fn sum_wrap(s: Seq<i64>) -> i64
    decreases s.len(),
{
    if s.len() == 0 {
        0i64
    } else {
        vstd::wrapping::i64_specs::wrapping_add(sum_wrap(s.drop_last()), s.last())
    }
}

/// Extending a prefix by one element extends the wrapping sum by one
/// wrapping addition.
proof fn lemma_sum_wrap_take_step(s: Seq<i64>, i: int)
    requires
        0 <= i < s.len(),
    ensures
        sum_wrap(s.take(i + 1)) == vstd::wrapping::i64_specs::wrapping_add(
            sum_wrap(s.take(i)),
            s[i],
        ),
{
    assert(s.take(i + 1).drop_last() =~= s.take(i));
}

/// Wrapping addition is associative: folding a pair into the sum in one
/// expression gives the same result as folding its elements one by one.
proof fn lemma_wrap_add_assoc(a: i64, x: i64, y: i64)
    ensures
        vstd::wrapping::i64_specs::wrapping_add(a, vstd::wrapping::i64_specs::wrapping_add(x, y))
            == vstd::wrapping::i64_specs::wrapping_add(
            vstd::wrapping::i64_specs::wrapping_add(a, x),
            y,
        ),
{
}

/// Wrapping addition commutes past a later addend: adding `x` into `a`
/// before combining with `b` equals combining first and then adding `x`.
proof fn lemma_wrap_add_right_comm(a: i64, b: i64, x: i64)
    ensures
        vstd::wrapping::i64_specs::wrapping_add(vstd::wrapping::i64_specs::wrapping_add(a, x), b)
            == vstd::wrapping::i64_specs::wrapping_add(
            vstd::wrapping::i64_specs::wrapping_add(a, b),
            x,
        ),
{
}

/// Two independent accumulators may each take one element of a pair:
/// combining them afterwards equals adding both elements to the combined
/// sum.
proof fn lemma_wrap_add_shuffle(a: i64, b: i64, x: i64, y: i64)
    ensures
        vstd::wrapping::i64_specs::wrapping_add(
            vstd::wrapping::i64_specs::wrapping_add(a, x),
            vstd::wrapping::i64_specs::wrapping_add(b, y),
        ) == vstd::wrapping::i64_specs::wrapping_add(
            vstd::wrapping::i64_specs::wrapping_add(
                vstd::wrapping::i64_specs::wrapping_add(a, b),
                x,
            ),
            y,
        ),
{
}

/// Sum all elements: the length is re-queried through the checked
/// accessor on every iteration, each element is read through the checked
/// accessor, and the running sum is accumulated directly through the
/// output reference.
pub fn combine1(v: &VecRec, dest: &mut i64)
    ensures
        *final(dest) == sum_wrap(v@),
{
    *dest = 0;
    let mut i: i64 = 0;
    while i < v.vec_length()
        invariant
            0 <= i <= v@.len(),
            *dest == sum_wrap(v@.take(i as int)),
        decreases v@.len() - i,
    {
        let mut val: i64 = 0;
        v.get_vec_element(i, &mut val);
        proof {
            lemma_sum_wrap_take_step(v@, i as int);
        }
        *dest = (*dest).wrapping_add(val);
        i = i + 1;
    }
    proof {
        assert(v@.take(v@.len() as int) =~= v@);
    }
}

/// Sum all elements: the length query is hoisted out of the loop, but
/// each element is still read through the checked accessor and the sum
/// still accumulated through the output reference.
pub fn combine2(v: &VecRec, dest: &mut i64)
    ensures
        *final(dest) == sum_wrap(v@),
{
    *dest = 0;
    let length = v.vec_length();
    let mut i: i64 = 0;
    while i < length
        invariant
            0 <= i <= length,
            length as int == v@.len(),
            *dest == sum_wrap(v@.take(i as int)),
        decreases length - i,
    {
        let mut val: i64 = 0;
        v.get_vec_element(i, &mut val);
        proof {
            lemma_sum_wrap_take_step(v@, i as int);
        }
        *dest = (*dest).wrapping_add(val);
        i = i + 1;
    }
    proof {
        assert(v@.take(v@.len() as int) =~= v@);
    }
}

/// Sum all elements: both the length and the buffer view are hoisted out
/// of the loop, and each element is read by direct unchecked indexing
/// into the buffer view.
pub fn combine3(v: &VecRec, dest: &mut i64)
    ensures
        *final(dest) == sum_wrap(v@),
{
    *dest = 0;
    let length = v.vec_length();
    let data = v.get_vec_start();
    let mut i: i64 = 0;
    while i < length
        invariant
            0 <= i <= length,
            length as int == v@.len(),
            data@ == v@,
            *dest == sum_wrap(v@.take(i as int)),
        decreases length - i,
    {
        proof {
            lemma_sum_wrap_take_step(v@, i as int);
        }
        *dest = (*dest).wrapping_add(data[i as usize]);
        i = i + 1;
    }
    proof {
        assert(v@.take(v@.len() as int) =~= v@);
    }
}

/// Sum all elements: `combine3`'s access pattern, but the sum is
/// accumulated in a local variable and written through the output
/// reference only once at the end.
pub fn combine4(v: &VecRec, dest: &mut i64)
    ensures
        *final(dest) == sum_wrap(v@),
{
    let length = v.vec_length();
    let data = v.get_vec_start();
    let mut acc: i64 = 0;
    let mut i: i64 = 0;
    while i < length
        invariant
            0 <= i <= length,
            length as int == v@.len(),
            data@ == v@,
            acc == sum_wrap(v@.take(i as int)),
        decreases length - i,
    {
        proof {
            lemma_sum_wrap_take_step(v@, i as int);
        }
        acc = acc.wrapping_add(data[i as usize]);
        i = i + 1;
    }
    proof {
        assert(v@.take(v@.len() as int) =~= v@);
    }
    *dest = acc;
}

/// Sum all elements: `combine4`'s access pattern, but each index is
/// redundantly re-validated against the record's length inside the loop
/// before it is accumulated (a defensive check kept for contrast).
pub fn combine4b(v: &VecRec, dest: &mut i64)
    ensures
        *final(dest) == sum_wrap(v@),
{
    let length = v.vec_length();
    let data = v.get_vec_start();
    let mut acc: i64 = 0;
    let mut i: i64 = 0;
    while i < length
        invariant
            0 <= i <= length,
            length as int == v@.len(),
            data@ == v@,
            acc == sum_wrap(v@.take(i as int)),
        decreases length - i,
    {
        if i >= 0 && i < v.vec_length() {
            proof {
                lemma_sum_wrap_take_step(v@, i as int);
            }
            acc = acc.wrapping_add(data[i as usize]);
        }
        i = i + 1;
    }
    proof {
        assert(v@.take(v@.len() as int) =~= v@);
    }
    *dest = acc;
}

/// Sum all elements with two-way loop unrolling: pairs of elements are
/// folded into a single accumulator, two reads per iteration; a residual
/// loop picks up the final element of an odd-length vector (it reads the
/// last valid slot, which is exactly the one leftover element).
pub fn combine5(v: &VecRec, dest: &mut i64)
    ensures
        *final(dest) == sum_wrap(v@),
{
    let length = v.vec_length();
    let limit = length - 1;
    let data = v.get_vec_start();
    let mut acc: i64 = 0;

    // Combine 2 elements at a time.
    let mut i: i64 = 0;
    while i < limit
        invariant
            0 <= i <= length,
            limit == length - 1,
            length as int == v@.len(),
            data@ == v@,
            acc == sum_wrap(v@.take(i as int)),
        decreases length - i,
    {
        proof {
            lemma_sum_wrap_take_step(v@, i as int);
            lemma_sum_wrap_take_step(v@, i as int + 1);
        }
        acc = acc.wrapping_add(data[i as usize]).wrapping_add(data[(i + 1) as usize]);
        i = i + 2;
    }

    // Handle the last element if need be.
    let mut j: i64 = i;
    while j < length
        invariant
            limit <= j <= length,
            0 <= j,
            limit == length - 1,
            length as int == v@.len(),
            data@ == v@,
            acc == sum_wrap(v@.take(j as int)),
        decreases length - j,
    {
        proof {
            lemma_sum_wrap_take_step(v@, j as int);
        }
        acc = acc.wrapping_add(data[limit as usize]);
        j = j + 1;
    }
    proof {
        assert(v@.take(v@.len() as int) =~= v@);
    }
    *dest = acc;
}

/// Sum all elements with two-way loop unrolling and two independent
/// accumulators, one per unrolled slot, combined once at the end; the
/// residual handling has the same shape as `combine5`'s.
pub fn combine6(v: &VecRec, dest: &mut i64)
    ensures
        *final(dest) == sum_wrap(v@),
{
    let length = v.vec_length();
    let limit = length - 1;
    let data = v.get_vec_start();
    let mut acc0: i64 = 0;
    let mut acc1: i64 = 0;

    // Combine 2 elements at a time.
    let mut i: i64 = 0;
    while i < limit
        invariant
            0 <= i <= length,
            limit == length - 1,
            length as int == v@.len(),
            data@ == v@,
            vstd::wrapping::i64_specs::wrapping_add(acc0, acc1) == sum_wrap(v@.take(i as int)),
        decreases length - i,
    {
        proof {
            lemma_sum_wrap_take_step(v@, i as int);
            lemma_sum_wrap_take_step(v@, i as int + 1);
            lemma_wrap_add_shuffle(acc0, acc1, v@[i as int], v@[i as int + 1]);
        }
        acc0 = acc0.wrapping_add(data[i as usize]);
        acc1 = acc1.wrapping_add(data[(i + 1) as usize]);
        i = i + 2;
    }

    // Handle the last element if need be.
    let mut j: i64 = i;
    while j < length
        invariant
            limit <= j <= length,
            0 <= j,
            limit == length - 1,
            length as int == v@.len(),
            data@ == v@,
            vstd::wrapping::i64_specs::wrapping_add(acc0, acc1) == sum_wrap(v@.take(j as int)),
        decreases length - j,
    {
        proof {
            lemma_sum_wrap_take_step(v@, j as int);
            lemma_wrap_add_right_comm(acc0, acc1, v@[j as int]);
        }
        acc0 = acc0.wrapping_add(data[limit as usize]);
        j = j + 1;
    }
    proof {
        assert(v@.take(v@.len() as int) =~= v@);
    }
    *dest = acc0.wrapping_add(acc1);
}

/// Sum all elements with two-way loop unrolling and a single accumulator
/// that folds both slot values in one expression per iteration; the
/// remainder is handled by an exact equality test against the last index
/// rather than a residual loop.
pub fn combine7(v: &VecRec, dest: &mut i64)
    ensures
        *final(dest) == sum_wrap(v@),
{
    let length = v.vec_length();
    let limit = length - 1;
    let data = v.get_vec_start();
    let mut acc: i64 = 0;

    // Combine 2 elements at a time.
    let mut i: i64 = 0;
    while i < limit
        invariant
            0 <= i <= length,
            limit == length - 1,
            length as int == v@.len(),
            data@ == v@,
            acc == sum_wrap(v@.take(i as int)),
        decreases length - i,
    {
        proof {
            lemma_sum_wrap_take_step(v@, i as int);
            lemma_sum_wrap_take_step(v@, i as int + 1);
            lemma_wrap_add_assoc(acc, v@[i as int], v@[i as int + 1]);
        }
        acc = acc.wrapping_add(data[i as usize].wrapping_add(data[(i + 1) as usize]));
        i = i + 2;
    }

    // Handle the last element if need be.
    if i == limit {
        proof {
            lemma_sum_wrap_take_step(v@, i as int);
        }
        acc = acc.wrapping_add(data[limit as usize]);
    }
    proof {
        assert(v@.take(v@.len() as int) =~= v@);
    }
    *dest = acc;
}

/// Sum-equivalence law: every summation variant promises that its output
/// equals `sum_wrap` of the record's contents, so the results of any two
/// variants run on the same contents are identical.
pub proof fn lemma_variants_agree(s: Seq<i64>, r1: i64, r2: i64)
    requires
        r1 == sum_wrap(s),
        r2 == sum_wrap(s),
    ensures
        r1 == r2,
{
}

} // verus!
