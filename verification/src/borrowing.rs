//! Shared and exclusive references to a record. Any number of shared
//! references may coexist; an exclusive reference may be created only
//! once every earlier reference has no further use in the remaining
//! control flow — the scope of a reference ends with its last use, not
//! with the enclosing block.
use vstd::prelude::*;
use crate::point::Point;
use crate::point::mutably_borrow_point;

verus! {

/// Reads a record through two simultaneous shared references, returning
/// one coordinate through each and the third through the owner itself.
pub fn observe_point(first: &Point, second: &Point) -> (r: (i32, i32))
    ensures
        r == (first.x, second.y),
{
    (first.x, second.y)
}

/// Borrowing demonstration: a record starts at (12, -4, 8); two shared
/// references observe it, then — only after their last use — an exclusive
/// reference increments the third coordinate by one, and a second
/// exclusive reference increments the first by two. Reports the
/// coordinates seen through the shared references and the final state,
/// which is exactly (14, -4, 9).
pub fn demo_references() -> (r: ((i32, i32, i32), (i32, i32, i32)))
    ensures
        r == ((12i32, -4i32, 8i32), (14i32, -4i32, 9i32)),
{
    let mut point = Point { x: 12, y: -4, z: 8 };

    let borrowed_point = &point;
    let other_borrowed_point = &point;

    // An exclusive reference cannot be created here: the two shared
    // references are still used below.

    let (seen_x, seen_y) = observe_point(borrowed_point, other_borrowed_point);
    let before = (seen_x, seen_y, point.z);

    // The shared references have no further use, so exclusive borrows
    // are allowed now: first through a function ...
    mutably_borrow_point(&mut point);

    // ... then through an exclusive reference in this scope.
    let mutable_borrowed_point = &mut point;
    mutable_borrowed_point.x += 2;

    // No other borrow may be created while the exclusive reference is
    // still used below.

    let after = (
        mutable_borrowed_point.x,
        mutable_borrowed_point.y,
        mutable_borrowed_point.z,
    );

    (before, after)
}

} // verus!
