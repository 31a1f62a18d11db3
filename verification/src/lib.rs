//! Small, self-contained demonstrations of ownership, borrowing, and
//! lifetime rules, each backed by a verified contract.
//!
//! - Heap allocations are reclaimed when their owning binding leaves scope.
//! - Ownership moves by default; a moved-from binding is unusable.
//! - Shared and exclusive references obey the aliasing discipline.
//! - Lifetimes tie a returned reference to the inputs it borrows from.
pub mod borrowing;
pub mod lifetimes;
pub mod ownership;
pub mod point;
