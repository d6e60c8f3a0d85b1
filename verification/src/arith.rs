use vstd::prelude::*;

verus! {

/// Sum of two 8-bit signed integers; the caller rules out overflow.
pub fn add_i8(a: i8, b: i8) -> (r: i8)
    requires
        i8::MIN <= a + b <= i8::MAX,
    ensures
        r == a + b,
{
    a + b
}

/// Sum of two 32-bit signed integers; the caller rules out overflow.
pub fn add_i32(a: i32, b: i32) -> (r: i32)
    requires
        i32::MIN <= a + b <= i32::MAX,
    ensures
        r == a + b,
{
    a + b
}

/// What `add_with_extra` computes: both arguments are first bumped by a
/// fixed amount, and the bumped first argument picks between a difference
/// and a sum.
pub open spec fn add_with_extra_spec(x: int, y: int) -> int {
    if x + 1 > 1000 {
        (x + 1) - (y + 15)
    } else {
        (x + 1) + (y + 15)
    }
}

/// Adds two numbers after giving each a fixed head start, switching to a
/// difference once the first runs large; the caller rules out overflow of
/// every intermediate step.
pub fn add_with_extra(x: i32, y: i32) -> (r: i32)
    requires
        x + 1 <= i32::MAX,
        y + 15 <= i32::MAX,
        i32::MIN <= add_with_extra_spec(x as int, y as int) <= i32::MAX,
    ensures
        r == add_with_extra_spec(x as int, y as int),
{
    let x = x + 1;
    let y = y + 15;
    if x > 1000 {
        return x - y;
    }
    let _whatever = x + y;
    x + y
}

/// Bumps the number inside an option by one and leaves an empty option
/// empty; the caller rules out overflow.
pub fn plus_one(x: Option<i32>) -> (r: Option<i32>)
    requires
        x matches Some(v) ==> v < i32::MAX,
    ensures
        match x {
            None => r is None,
            Some(v) => r == Some((v + 1) as i32),
        },
{
    match x {
        None => None,
        Some(x) => Some(x + 1),
    }
}

/// The largest element of a non-empty list: no element exceeds it, and it
/// occurs in the list.
pub fn largest(list: &[i32]) -> (r: i32)
    requires
        list@.len() > 0,
    ensures
        forall|i: int| 0 <= i < list@.len() ==> list@[i] <= r,
        list@.contains(r),
{
    let mut largest: i32 = list[0];
    let mut idx: usize = 1;
    while idx < list.len()
        invariant
            1 <= idx <= list@.len(),
            forall|i: int| 0 <= i < idx ==> list@[i] <= largest,
            list@.contains(largest),
        decreases list@.len() - idx,
    {
        if list[idx] > largest {
            largest = list[idx];
            assert(list@.contains(largest));
        }
        idx = idx + 1;
    }
    largest
}

} // verus!
