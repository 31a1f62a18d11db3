//! Routines that return references, with an explicit lifetime parameter
//! tying the returned reference's validity to the inputs it may borrow
//! from. The checker does not relate two independent input lifetimes to
//! an output lifetime without the annotation.
use vstd::prelude::*;

verus! {

/// Returns whichever of two shared references points to the larger value.
/// The result borrows from both inputs, so it lives no longer than the
/// shorter-lived of the two.
pub fn find_max<'l>(a: &'l i32, b: &'l i32) -> (r: &'l i32)
    ensures
        *r == if *a > *b {
            *a
        } else {
            *b
        },
{
    if *a > *b {
        a
    } else {
        b
    }
}

/// Adds the value behind the shared reference `b` into the value behind
/// the exclusive reference `a`, then returns a reference to the updated
/// value. The returned reference keeps `a`'s lifetime.
pub fn only_mutate_a<'l>(a: &'l mut i32, b: &i32) -> (r: &'l i32)
    requires
        i32::MIN <= *old(a) + *b <= i32::MAX,
    ensures
        *final(a) == *old(a) + *b,
        *r == *final(a),
{
    *a += *b;
    a
}

/// Lifetime demonstration: given 5 and -58, the larger-of-two routine
/// picks 5; given a mutable 45 and a read-only -58, the
/// add-through-exclusive-reference routine leaves the mutable value at
/// 45 + (-58) = -13 and returns that value. Reports both results.
pub fn demo_lifetime_annotations() -> (r: (i32, i32))
    ensures
        r == (5i32, -13i32),
{
    let x: i32 = 5;
    let y: i32 = -58;

    let larger: i32 = *find_max(&x, &y);

    let mut z: i32 = 45;
    let mutated: i32 = *only_mutate_a(&mut z, &y);

    (larger, mutated)
}

} // verus!
