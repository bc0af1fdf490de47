use winomove::geometry::Rect;
use winomove::topology::{adjacent, sort_monitors_by_left, Direction, Monitor};

fn rect(left: i32, top: i32, right: i32, bottom: i32) -> Rect {
    Rect { left, top, right, bottom }
}

fn monitor(handle: u64, left: i32, right: i32) -> Monitor {
    Monitor { handle, rect: rect(left, 0, right, 1080) }
}

#[test]
fn single_display_left_is_noop() {
    let only = monitor(1, 0, 1920);
    let all = vec![only];
    assert_eq!(adjacent(&only, Direction::Left, &all), only);
}

#[test]
fn single_display_right_is_noop() {
    let only = monitor(1, 0, 1920);
    let all = vec![only];
    assert_eq!(adjacent(&only, Direction::Right, &all), only);
}

#[test]
fn sorted_walk_right_steps_to_successor() {
    let a = monitor(1, 0, 1920);
    let b = monitor(2, 1920, 3840);
    let c = monitor(3, 3840, 5760);
    let all = vec![a, b, c];
    assert_eq!(adjacent(&a, Direction::Right, &all), b);
    assert_eq!(adjacent(&b, Direction::Right, &all), c);
}

#[test]
fn sorted_walk_right_clamps_at_last() {
    let a = monitor(1, 0, 1920);
    let b = monitor(2, 1920, 3840);
    let c = monitor(3, 3840, 5760);
    let all = vec![a, b, c];
    assert_eq!(adjacent(&c, Direction::Right, &all), c);
}

#[test]
fn sorted_walk_left_steps_to_predecessor() {
    let a = monitor(1, 0, 1920);
    let b = monitor(2, 1920, 3840);
    let c = monitor(3, 3840, 5760);
    let all = vec![a, b, c];
    assert_eq!(adjacent(&c, Direction::Left, &all), b);
    assert_eq!(adjacent(&b, Direction::Left, &all), a);
}

#[test]
fn sorted_walk_left_clamps_at_first() {
    let a = monitor(1, 0, 1920);
    let b = monitor(2, 1920, 3840);
    let all = vec![a, b];
    assert_eq!(adjacent(&a, Direction::Left, &all), a);
}

#[test]
fn walk_orders_displays_before_stepping() {
    // The live enumeration arrives in discovery order, not spatial order.
    let left_most = monitor(7, -1920, 0);
    let middle = monitor(8, 0, 1920);
    let right_most = monitor(9, 1920, 3840);
    let all = vec![right_most, left_most, middle];
    assert_eq!(adjacent(&middle, Direction::Left, &all), left_most);
    assert_eq!(adjacent(&middle, Direction::Right, &all), right_most);
}

#[test]
fn unplugged_current_falls_back_to_itself() {
    // The captured display is gone from the live topology: no match, no move.
    let stale = monitor(5, 0, 1920);
    let other = monitor(6, 1920, 3840);
    let all = vec![other];
    assert_eq!(adjacent(&stale, Direction::Right, &all), stale);
    assert_eq!(adjacent(&stale, Direction::Left, &all), stale);
}

#[test]
fn empty_topology_falls_back_to_current() {
    let current = monitor(1, 0, 1920);
    let all: Vec<Monitor> = Vec::new();
    assert_eq!(adjacent(&current, Direction::Right, &all), current);
}

#[test]
fn sort_orders_monitors_by_left_edge() {
    let a = monitor(1, 300, 400);
    let b = monitor(2, -100, 0);
    let c = monitor(3, 0, 300);
    let sorted = sort_monitors_by_left(&vec![a, b, c]);
    assert_eq!(sorted, vec![b, c, a]);
}
