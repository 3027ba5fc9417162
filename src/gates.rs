use vstd::prelude::*;

verus! {

pub open spec fn is_bit(i: i32) -> bool {
    i == 0 || i == 1
}

pub fn xor(i: i32, j: i32) -> (r: i32)
    requires
        is_bit(i),
        is_bit(j),
    ensures
        r == (if i != j { 1i32 } else { 0i32 }),
{
    assert(is_bit(i) && is_bit(j) ==> (i ^ j) == (if i != j { 1i32 } else { 0i32 })) by (bit_vector);
    i ^ j
}

pub fn xnor(i: i32, j: i32) -> (r: i32)
    requires
        is_bit(i),
        is_bit(j),
    ensures
        r == (if i == j { 1i32 } else { 0i32 }),
{
    1 - xor(i, j)
}

pub fn and(i: i32, j: i32) -> (r: i32)
    requires
        is_bit(i),
        is_bit(j),
    ensures
        r == (if i == 1 && j == 1 { 1i32 } else { 0i32 }),
{
    assert(is_bit(i) && is_bit(j) ==> (i & j) == (if i == 1 && j == 1 { 1i32 } else { 0i32 })) by (bit_vector);
    i & j
}

pub fn nand(i: i32, j: i32) -> (r: i32)
    requires
        is_bit(i),
        is_bit(j),
    ensures
        r == (if i == 1 && j == 1 { 0i32 } else { 1i32 }),
{
    1 - and(i, j)
}

pub fn or(i: i32, j: i32) -> (r: i32)
    requires
        is_bit(i),
        is_bit(j),
    ensures
        r == (if i == 1 || j == 1 { 1i32 } else { 0i32 }),
{
    assert(is_bit(i) && is_bit(j) ==> (i | j) == (if i == 1 || j == 1 { 1i32 } else { 0i32 })) by (bit_vector);
    i | j
}

pub fn nor(i: i32, j: i32) -> (r: i32)
    requires
        is_bit(i),
        is_bit(j),
    ensures
        r == (if i == 1 || j == 1 { 0i32 } else { 1i32 }),
{
    1 - or(i, j)
}

} // verus!
