use superuser::manual::{Manual, ManualBoard};

fn page(x: i32, y: i32) -> Manual {
    let mut m = Manual::new((0, 0), (50, 50), String::from("page"), (1, 2, 3));
    m.pos = (x, y);
    m
}

fn board_with_pages() -> ManualBoard {
    ManualBoard {
        pos: (0, 0),
        size: (400, 400),
        manuals: vec![page(10, 10), page(100, 100), page(200, 200)],
        manual_printing: vec![],
    }
}

#[test]
fn manual_new_centers_the_page() {
    let m = Manual::new((100, 100), (50, 30), String::from("m"), (0, 0, 0));
    assert_eq!(m.pos, (75, 85));
    assert_eq!(m.size, (50, 30));
}

#[test]
fn set_center_moves_the_page() {
    let mut m = Manual::new((0, 0), (40, 20), String::from("m"), (0, 0, 0));
    m.set_center((200, 50));
    assert_eq!(m.pos, (180, 40));
}

#[test]
fn duplicate_is_independent() {
    let original = Manual::new((100, 100), (50, 30), String::from("body"), (7, 8, 9));
    let mut copy = original.duplicate();
    copy.pos = (0, 0);
    copy.text.push('!');
    assert_eq!(original.pos, (75, 85));
    assert_eq!(original.text, "body");
}

#[test]
fn board_new_takes_lower_right_region() {
    let b = ManualBoard::new(1280, 720);
    assert_eq!(b.pos, (640, 180));
    assert_eq!(b.size, (640, 540));
    assert!(b.manuals.is_empty());
    assert!(b.manual_printing.is_empty());
}

#[test]
fn print_manual_starts_below_the_board() {
    let mut b = ManualBoard::new(800, 400);
    b.print_manual(Manual::new((0, 0), (100, 50), String::from("m"), (0, 0, 0)));
    assert_eq!(b.manual_printing.len(), 1);
    let pa = &b.manual_printing[0];
    // board pos (400, 100), size (400, 300): centered at x = 600 - 50, y = bottom
    assert_eq!(pa.manual.pos, (550, 400));
    assert_eq!(pa.moving_timer, 300);
    assert_eq!(pa.pause_timer, 150);
    assert!(pa.is_moving);
}

#[test]
fn tick_moves_then_pauses() {
    let mut b = ManualBoard::new(800, 400);
    b.print_manual(Manual::new((0, 0), (100, 50), String::from("m"), (0, 0, 0)));
    b.update_printer(100);
    assert_eq!(b.manual_printing[0].manual.pos.1, 398);
    assert_eq!(b.manual_printing[0].moving_timer, 200);
    assert!(b.manual_printing[0].is_moving);
    b.update_printer(250);
    // timer crossed below zero: paused, timer reset for the next slide
    assert!(!b.manual_printing[0].is_moving);
    assert_eq!(b.manual_printing[0].moving_timer, 300);
    assert_eq!(b.manual_printing[0].manual.pos.1, 396);
    let y = b.manual_printing[0].manual.pos.1;
    b.update_printer(100);
    // paused: no movement, pause timer runs down
    assert_eq!(b.manual_printing[0].manual.pos.1, y);
    assert_eq!(b.manual_printing[0].pause_timer, 50);
    b.update_printer(100);
    assert!(b.manual_printing[0].is_moving);
    assert_eq!(b.manual_printing[0].pause_timer, 150);
}

#[test]
fn repeated_ticks_eventually_place_the_page_on_top() {
    let mut b = ManualBoard::new(800, 400);
    b.manuals.push(page(10, 10));
    b.print_manual(Manual::new((0, 0), (100, 50), String::from("fresh"), (0, 0, 0)));
    let mut steps = 0;
    while !b.manual_printing.is_empty() {
        b.update_printer(100);
        steps += 1;
        assert!(steps < 1000, "animation must finish in finitely many steps");
    }
    assert_eq!(b.manuals.len(), 2);
    assert_eq!(b.manuals[0].text, "fresh");
    assert_eq!(b.manuals[1].text, "page");
}

#[test]
fn only_the_front_animation_advances() {
    let mut b = ManualBoard::new(800, 400);
    b.print_manual(Manual::new((0, 0), (100, 50), String::from("first"), (0, 0, 0)));
    b.print_manual(Manual::new((0, 0), (100, 50), String::from("second"), (0, 0, 0)));
    b.update_printer(100);
    assert_eq!(b.manual_printing[0].manual.pos.1, 398);
    assert_eq!(b.manual_printing[1].manual.pos.1, 400);
    assert_eq!(b.manual_printing[1].moving_timer, 300);
}

#[test]
fn drag_outside_board_changes_nothing() {
    let mut b = board_with_pages();
    b.mouse_drag((500, 500), (120, 120));
    assert_eq!(b.manuals[0].pos, (10, 10));
    assert_eq!(b.manuals[1].pos, (100, 100));
    assert_eq!(b.manuals[2].pos, (200, 200));
}

#[test]
fn drag_over_no_page_changes_nothing() {
    let mut b = board_with_pages();
    b.mouse_drag((390, 390), (70, 70));
    assert_eq!(b.manuals[0].pos, (10, 10));
    assert_eq!(b.manuals[1].pos, (100, 100));
    assert_eq!(b.manuals[2].pos, (200, 200));
}

#[test]
fn page_edge_does_not_count_as_inside() {
    let mut b = board_with_pages();
    // (10, 10) is exactly the corner of the first page: strict test misses it
    b.mouse_drag((50, 50), (10, 10));
    assert_eq!(b.manuals[0].pos, (10, 10));
    assert_eq!(b.manuals[1].pos, (100, 100));
    assert_eq!(b.manuals[2].pos, (200, 200));
}

#[test]
fn drag_brings_hit_page_to_front_and_translates_it() {
    let mut b = board_with_pages();
    b.mouse_drag((150, 160), (120, 120));
    // the page that was at render-index 1 is now in front, shifted by the delta
    assert_eq!(b.manuals[0].pos, (130, 140));
    assert_eq!(b.manuals[0].size, (50, 50));
    // the others keep their positions and relative order
    assert_eq!(b.manuals[1].pos, (10, 10));
    assert_eq!(b.manuals[2].pos, (200, 200));
}

#[test]
fn point_aabb_is_strict() {
    assert!(superuser::manual::point_aabb((5, 5), (0, 0), (10, 10)));
    assert!(!superuser::manual::point_aabb((0, 5), (0, 0), (10, 10)));
    assert!(!superuser::manual::point_aabb((10, 5), (0, 0), (10, 10)));
    assert!(!superuser::manual::point_aabb((5, 0), (0, 0), (10, 10)));
    assert!(!superuser::manual::point_aabb((5, 10), (0, 0), (10, 10)));
}
