use ownership_demos::borrowing::demo_references;
use ownership_demos::borrowing::observe_point;
use ownership_demos::lifetimes::demo_lifetime_annotations;
use ownership_demos::lifetimes::find_max;
use ownership_demos::lifetimes::only_mutate_a;
use ownership_demos::ownership::consume_box;
use ownership_demos::ownership::demo_by_value_for_primitives;
use ownership_demos::ownership::demo_moved_ownership;
use ownership_demos::ownership::demo_raii_is_enforced;
use ownership_demos::ownership::primitives_by_value;
use ownership_demos::point::consume_value;
use ownership_demos::point::mutably_borrow_point;
use ownership_demos::point::Point;

#[test]
fn copy_demo_both_bindings_keep_the_value() {
    let x: u32 = 5;
    let y: u32 = x;
    assert_eq!(primitives_by_value(x), 5);
    assert_eq!(primitives_by_value(y), 5);
    assert_eq!(x, 5);
    assert_eq!(y, 5);
    assert_eq!(demo_by_value_for_primitives(), (5, 5));
}

#[test]
fn move_demo_record_fields_survive_the_transfer() {
    let record = Point { x: 1, y: 2, z: -4 };
    assert_eq!(consume_value(record), (1, 2, -4));
}

#[test]
fn move_demo_heap_value_survives_rename_then_consume() {
    let a = Box::new(5_i32);
    let b = a;
    assert_eq!(consume_box(b), 5);
    assert_eq!(demo_moved_ownership(), ((1, 2, -4), 5, 5));
}

#[test]
fn raii_demo_reads_both_allocations_while_live() {
    assert_eq!(demo_raii_is_enforced(), (52, 53));
}

#[test]
fn reference_demo_observes_initial_then_mutated_state() {
    assert_eq!(demo_references(), ((12, -4, 8), (14, -4, 9)));
}

#[test]
fn shared_references_read_without_interference() {
    let point = Point { x: 12, y: -4, z: 8 };
    let first = &point;
    let second = &point;
    assert_eq!(observe_point(first, second), (12, -4));
    assert_eq!(point.z, 8);
}

#[test]
fn exclusive_reference_increments_third_coordinate() {
    let mut point = Point { x: 12, y: -4, z: 8 };
    mutably_borrow_point(&mut point);
    assert_eq!((point.x, point.y, point.z), (12, -4, 9));
}

#[test]
fn find_max_picks_the_larger_value() {
    let x: i32 = 5;
    let y: i32 = -58;
    assert_eq!(*find_max(&x, &y), 5);
    assert_eq!(*find_max(&y, &x), 5);
}

#[test]
fn find_max_on_equal_values_returns_that_value() {
    let x: i32 = 7;
    let y: i32 = 7;
    assert_eq!(*find_max(&x, &y), 7);
}

#[test]
fn only_mutate_a_adds_through_the_exclusive_reference() {
    let mut z: i32 = 45;
    let y: i32 = -58;
    assert_eq!(*only_mutate_a(&mut z, &y), -13);
    assert_eq!(z, -13);
}

#[test]
fn only_mutate_a_with_positive_addend() {
    let mut z: i32 = 10;
    let y: i32 = 32;
    assert_eq!(*only_mutate_a(&mut z, &y), 42);
    assert_eq!(z, 42);
}

#[test]
fn lifetime_demo_reports_larger_then_mutated() {
    assert_eq!(demo_lifetime_annotations(), (5, -13));
}
