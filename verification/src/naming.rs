//! Partition namer: the storage-partition identifier of a registered type.
//!
//! Each registered attribute-set type supplies a 64-bit type key (the host
//! derives it from the type's runtime identity). Its partition is named by the
//! decimal rendering of that key, so the name is deterministic and two
//! distinct keys always name distinct partitions.

use vstd::prelude::*;

verus! {

/// The decimal digit characters of `n`, most significant first, no leading
/// zeros (the single digit `0` for zero).
pub open spec fn decimal_digits(n: u64) -> Seq<u8>
    decreases n,
{
    if n < 10 {
        seq![(48 + n) as u8]
    } else {
        decimal_digits(n / 10).push((48 + n % 10) as u8)
    }
}

/// The number a digit sequence denotes, read most significant first.
pub open spec fn decimal_value(s: Seq<u8>) -> int
    decreases s.len(),
{
    if s.len() == 0 {
        0
    } else {
        decimal_value(s.drop_last()) * 10 + (s.last() - 48)
    }
}

/// Reading back the decimal rendering of `n` yields `n`: rendering loses
/// nothing.
pub proof fn lemma_decimal_value_of_digits(n: u64)
    ensures
        decimal_value(decimal_digits(n)) == n,
    decreases n,
{
    if n < 10 {
        let s = decimal_digits(n);
        assert(s.drop_last() =~= Seq::<u8>::empty());
        assert(decimal_value(s) == decimal_value(s.drop_last()) * 10 + (s.last() - 48));
    } else {
        lemma_decimal_value_of_digits(n / 10);
        let s = decimal_digits(n);
        assert(s.drop_last() =~= decimal_digits(n / 10));
        assert(decimal_value(s) == decimal_value(s.drop_last()) * 10 + (s.last() - 48));
        assert(n / 10 * 10 + n % 10 == n) by (nonlinear_arith);
    }
}

/// Distinct type keys render to distinct partition names.
pub proof fn lemma_decimal_digits_injective(a: u64, b: u64)
    requires
        a != b,
    ensures
        decimal_digits(a) != decimal_digits(b),
{
    if decimal_digits(a) == decimal_digits(b) {
        lemma_decimal_value_of_digits(a);
        lemma_decimal_value_of_digits(b);
    }
}

/// Render a type key as its partition name: the key's decimal digits as ASCII
/// bytes.
pub fn partition_name(type_key: u64) -> (r: Vec<u8>)
    ensures
        r@ == decimal_digits(type_key),
    decreases type_key,
{
    if type_key < 10 {
        let mut r: Vec<u8> = Vec::new();
        r.push(48 + (type_key as u8));
        assert(r@ =~= decimal_digits(type_key));
        r
    } else {
        let mut r = partition_name(type_key / 10);
        r.push(48 + ((type_key % 10) as u8));
        r
    }
}

} // verus!
