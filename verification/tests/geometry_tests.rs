use winomove::geometry::{plan_relocation, relative_offset, Placement, Rect};

fn rect(left: i32, top: i32, right: i32, bottom: i32) -> Rect {
    Rect { left, top, right, bottom }
}

#[test]
fn relative_offset_is_window_minus_display_origin() {
    let window = rect(100, 150, 900, 700);
    let display = rect(0, 50, 1920, 1130);
    let offset = relative_offset(&window, &display);
    assert_eq!(offset.dx, 100);
    assert_eq!(offset.dy, 100);
}

#[test]
fn offset_round_trip_restores_top_left() {
    let window = rect(-300, 475, 500, 900);
    let display = rect(-1920, 0, 0, 1080);
    let offset = relative_offset(&window, &display);
    assert_eq!(display.left + offset.dx, window.left);
    assert_eq!(display.top + offset.dy, window.top);
}

#[test]
fn plan_translates_offset_and_keeps_size() {
    let window = rect(100, 100, 900, 700);
    let source = rect(0, 0, 1920, 1080);
    let target = rect(1920, 0, 3840, 1080);
    let plan = plan_relocation(&window, &source, &target);
    assert_eq!(plan, Some(Placement { x: 2020, y: 100, width: 800, height: 600 }));
}

#[test]
fn plan_handles_negative_coordinates() {
    let window = rect(50, 200, 850, 800);
    let source = rect(0, 0, 1920, 1080);
    let target = rect(-1920, -400, 0, 680);
    let plan = plan_relocation(&window, &source, &target);
    assert_eq!(plan, Some(Placement { x: -1870, y: -200, width: 800, height: 600 }));
}

#[test]
fn identical_display_rectangles_mean_no_plan() {
    let window = rect(100, 100, 900, 700);
    let display = rect(0, 0, 1920, 1080);
    assert_eq!(plan_relocation(&window, &display, &display), None);
}

#[test]
fn relocating_there_and_back_restores_rectangle() {
    let window = rect(123, 456, 1000, 900);
    let a = rect(0, 0, 1920, 1080);
    let b = rect(1920, -120, 4480, 1320);
    let there = plan_relocation(&window, &a, &b).unwrap();
    let moved = rect(there.x, there.y, there.x + there.width, there.y + there.height);
    let back = plan_relocation(&moved, &b, &a).unwrap();
    let restored = rect(back.x, back.y, back.x + back.width, back.y + back.height);
    assert_eq!(restored, window);
}
