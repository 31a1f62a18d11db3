//! Copy semantics for primitives, move semantics for heap values and
//! records, and scope-based release of heap allocations.
use vstd::prelude::*;
use crate::point::Point;
use crate::point::consume_value;

verus! {

/// By-value sink for a primitive: the argument is copied in, so the
/// caller's binding stays usable. Hands the observed value back.
pub fn primitives_by_value(x: u32) -> (r: u32)
    ensures
        r == x,
{
    x
}

/// Consuming sink for a heap allocation: takes ownership of the box and
/// hands back the value it held. The allocation is released when the box
/// goes out of scope at the end of this function.
pub fn consume_box(c: Box<i32>) -> (r: i32)
    ensures
        r == *c,
{
    *c
}

/// Copy-semantics demonstration: duplicates a primitive binding, passes
/// the original and the duplicate through a by-value sink, and reports
/// what each binding still holds afterwards. Both read the value first
/// assigned.
pub fn demo_by_value_for_primitives() -> (r: (u32, u32))
    ensures
        r == (5u32, 5u32),
{
    let x: u32 = 5;
    // Copy `x` into `y`: no resource is moved, both bindings stay usable.
    let y: u32 = x;

    let seen_x = primitives_by_value(x);
    let seen_y = primitives_by_value(y);

    (seen_x, seen_y)
}

/// Move-semantics demonstration: a record is transferred to a consuming
/// sink, and a heap allocation is read, renamed by a move, then consumed.
/// Reports the record fields seen at consumption, the heap value read
/// before the move, and the heap value seen at consumption. Any use of a
/// moved-from binding would be rejected at compile time.
pub fn demo_moved_ownership() -> (r: ((i32, i32, i32), i32, i32))
    ensures
        r == ((1i32, 2i32, -4i32), 5i32, 5i32),
{
    let simple_struct = Point { x: 1, y: 2, z: -4 };

    let fields = consume_value(simple_struct);
    // `simple_struct` has been moved: reading it here would not build.

    // `a` owns a heap-allocated integer.
    let a = Box::new(5_i32);
    let before_move: i32 = *a;

    // Move `a` into `b`: `a` is unusable from here on.
    let b = a;

    let consumed = consume_box(b);
    // `b` has been moved into the sink: reading it here would not build.

    (fields, before_move, consumed)
}

/// Scoped-release demonstration: two heap allocations in nested scopes.
/// The inner box is released when its block ends, before the outer one;
/// each value is read while its allocation is still live.
pub fn demo_raii_is_enforced() -> (r: (i32, i32))
    ensures
        r == (52i32, 53i32),
{
    let box_1 = Box::new(52_i32);

    let inner: i32 = {
        let box_2 = Box::new(53_i32);
        // `box_2` is released at the end of this block, before `box_1`.
        *box_2
    };

    (*box_1, inner)
}

} // verus!
