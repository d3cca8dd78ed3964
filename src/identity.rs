use vstd::prelude::*;
use std::cmp::Ordering;

verus! {

/// What the emitted `eq` decides for two values stored at addresses `a` and
/// `b`: whether they are one and the same value.
pub open spec fn same_address(a: usize, b: usize) -> bool {
    a == b
}

/// What the emitted `cmp` returns for two values stored at addresses `a` and
/// `b`: the order of the addresses as numbers.
pub open spec fn address_order(a: usize, b: usize) -> Ordering {
    if a < b {
        Ordering::Less
    } else if a == b {
        Ordering::Equal
    } else {
        Ordering::Greater
    }
}

/// Every value equals itself, and is neither less nor greater than itself.
pub proof fn lemma_reflexive(a: usize)
    ensures
        same_address(a, a),
        address_order(a, a) == Ordering::Equal,
{
}

/// Two values that live at the same time occupy different addresses, so they
/// are unequal and ordered one way or the other, whatever their fields hold.
pub proof fn lemma_distinct_values(a: usize, b: usize)
    requires
        a != b,
    ensures
        !same_address(a, b),
        address_order(a, b) == Ordering::Less || address_order(a, b) == Ordering::Greater,
        address_order(a, b) == Ordering::Less <==> address_order(b, a) == Ordering::Greater,
{
}

/// Equality by address is symmetric and transitive.
pub proof fn lemma_equivalence(a: usize, b: usize, c: usize)
    ensures
        same_address(a, b) == same_address(b, a),
        same_address(a, b) && same_address(b, c) ==> same_address(a, c),
{
}

/// The order by address is total and agrees with equality by address: of
/// `a < b`, `a == b` and `a > b` exactly one holds, the order reverses when the
/// arguments are swapped, and `<` is transitive.
pub proof fn lemma_total_order(a: usize, b: usize, c: usize)
    ensures
        (address_order(a, b) == Ordering::Less) as int + same_address(a, b) as int + (
        address_order(a, b) == Ordering::Greater) as int == 1,
        address_order(a, b) == Ordering::Equal <==> same_address(a, b),
        address_order(a, b) == Ordering::Less <==> address_order(b, a) == Ordering::Greater,
        address_order(a, b) == Ordering::Less && address_order(b, c) == Ordering::Less
            ==> address_order(a, c) == Ordering::Less,
{
}

} // verus!
