//! A three-field coordinate record, used to show consumption by transfer
//! and mutation through an exclusive reference.
use vstd::prelude::*;

verus! {

/// A coordinate record. It is deliberately not `Copy`: passing a `Point`
/// by value transfers ownership, and any later use of the moved-from
/// binding is rejected at compile time.
pub struct Point {
    pub x: i32,
    pub y: i32,
    pub z: i32,
}

/// Consuming sink: takes ownership of the record and hands back the field
/// values it observed. The caller's binding is unusable afterwards.
pub fn consume_value(s: Point) -> (r: (i32, i32, i32))
    ensures
        r == (s.x, s.y, s.z),
{
    (s.x, s.y, s.z)
}

/// Mutates the third coordinate through an exclusive reference,
/// leaving the other fields untouched.
pub fn mutably_borrow_point(point: &mut Point)
    requires
        old(point).z < i32::MAX,
    ensures
        final(point).x == old(point).x,
        final(point).y == old(point).y,
        final(point).z == old(point).z + 1,
{
    point.z += 1;
}

} // verus!
