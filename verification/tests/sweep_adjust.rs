use urd::anti_poison::{divergence_number, AntiPoison};
use urd::button::Button;
use urd::nixies::Nixies;
use urd::time_adjust::TimeAdjust;

#[test]
fn divergence_table_entries() {
    assert_eq!(divergence_number(0), "0.337187");
    assert_eq!(divergence_number(9), "0.571082");
    assert_eq!(divergence_number(10), "1.053649");
    assert_eq!(divergence_number(20), "1.382733");
    for i in 0..21 {
        assert_eq!(divergence_number(i).len(), 8);
    }
}

#[test]
fn sweep_schedule() {
    let mut ap = AntiPoison::new();
    assert_eq!(ap.activate_cycle, 0);
    assert_eq!(ap.divergence_index, 0);

    ap.start(1_000);
    // 15 s at 72 MHz.
    assert_eq!(ap.deactivate_cycle, 1_000 + 1_080_000_000);
    assert!(ap.divergence_index < 21);
    assert_eq!(ap.current_indices, [3, 1, 4, 0, 6, 2, 7, 5]);
    assert_eq!(ap.increasing, [true; 8]);

    ap.finish(2_000_000_000);
    // 10 min at 72 MHz.
    assert_eq!(ap.activate_cycle, 2_000_000_000 + 43_200_000_000);
}

#[test]
fn sweep_advance_steps_every_tube() {
    let mut ap = AntiPoison::new();
    ap.start(0);
    ap.advance();
    assert_eq!(ap.current_indices, [4, 2, 5, 1, 7, 3, 8, 6]);
    assert_eq!(ap.increasing, [true; 8]);
}

#[test]
fn sweep_grazes_top_boundary_then_turns() {
    let mut ap = AntiPoison::new();
    ap.start(0);
    ap.current_indices = [9, 9, 9, 9, 9, 9, 9, 9];

    // One step lands on the boundary itself...
    ap.advance();
    assert_eq!(ap.current_indices, [10; 8]);
    assert_eq!(ap.increasing, [true; 8]);

    // ...and the step past it is clamped one inside, direction flipped.
    ap.advance();
    assert_eq!(ap.current_indices, [9; 8]);
    assert_eq!(ap.increasing, [false; 8]);
}

#[test]
fn sweep_grazes_bottom_boundary_then_turns() {
    let mut ap = AntiPoison::new();
    ap.start(0);
    ap.current_indices = [1; 8];
    ap.increasing = [false; 8];

    ap.advance();
    assert_eq!(ap.current_indices, [0; 8]);
    assert_eq!(ap.increasing, [false; 8]);

    ap.advance();
    assert_eq!(ap.current_indices, [1; 8]);
    assert_eq!(ap.increasing, [true; 8]);
}

#[test]
fn sweep_stays_inside_character_set() {
    let mut ap = AntiPoison::new();
    ap.start(0);
    for _ in 0..100 {
        ap.advance();
        for i in 0..8 {
            assert!(ap.current_indices[i] < 11);
        }
    }
}

#[test]
fn sweep_frame_lights_current_cathodes() {
    let characters = ['1', '2', '6', '7', '5', '0', '4', '9', '8', '3', '.'];
    let mut ap = AntiPoison::new();
    ap.start(0);

    let mut n = Nixies::new();
    ap.write_frame(&mut n);
    assert_eq!(n.frames.len(), 8);

    let mut expected = Nixies::new();
    for (i, idx) in [3usize, 1, 4, 0, 6, 2, 7, 5].iter().enumerate() {
        expected.write_char(characters[*idx], i);
    }
    assert_eq!(n.frames, expected.frames);
}

fn held_buttons(long: bool) -> (Button, Button, Button) {
    let mut b0 = Button::new();
    let mut b1 = Button::new();
    let mut b2 = Button::new();
    for b in [&mut b0, &mut b1, &mut b2] {
        b.press_raw = true;
        b.long_press = long;
    }
    (b0, b1, b2)
}

fn released_buttons() -> (Button, Button, Button) {
    (Button::new(), Button::new(), Button::new())
}

#[test]
fn triple_long_press_toggles_with_release_discipline() {
    let mut t = TimeAdjust::new();
    assert!(!t.active);

    // A triple long press with the latch clear enters adjust mode.
    let (b0, b1, b2) = held_buttons(true);
    t.normal_step(&b0, &b1, &b2);
    assert!(t.active);
    assert!(!t.can_exit);

    // The same continuous hold never toggles back out, however long.
    for _ in 0..5 {
        let (b0, b1, b2) = held_buttons(true);
        t.adjust_step(&b0, &b1, &b2, false, false, false);
        assert!(t.active);
        assert!(!t.can_exit);
    }

    // Releasing the buttons arms the exit latch.
    let (b0, b1, b2) = released_buttons();
    t.adjust_step(&b0, &b1, &b2, false, false, false);
    assert!(t.active);
    assert!(t.can_exit);

    // Re-holding the triple long press exits adjust mode.
    let (b0, b1, b2) = held_buttons(true);
    t.adjust_step(&b0, &b1, &b2, false, false, false);
    assert!(!t.active);

    // Holding continuously after the exit never re-enters...
    for _ in 0..5 {
        let (b0, b1, b2) = held_buttons(true);
        t.normal_step(&b0, &b1, &b2);
        assert!(!t.active);
    }

    // ...until a release clears the latch and a fresh hold re-enters.
    let (b0, b1, b2) = released_buttons();
    t.normal_step(&b0, &b1, &b2);
    assert!(!t.can_exit);
    let (b0, b1, b2) = held_buttons(true);
    t.normal_step(&b0, &b1, &b2);
    assert!(t.active);
}

#[test]
fn adjust_increments_hour_with_rollover() {
    let mut t = TimeAdjust::new();
    t.set_time(23, 10, 20);
    t.active = true;

    let (mut b0, b1, b2) = released_buttons();
    b0.press_raw = true;
    let write = t.adjust_step(&b0, &b1, &b2, true, false, false);
    assert!(write);
    // Incrementing the top of the hour range wraps to its bottom.
    assert_eq!(t.hour, 0);
    assert_eq!(t.minute, 10);
    assert_eq!(t.second, 20);
}

#[test]
fn adjust_press_ignored_while_other_buttons_held() {
    let mut t = TimeAdjust::new();
    t.set_time(10, 10, 10);
    t.active = true;

    let (mut b0, mut b1, b2) = released_buttons();
    b0.press_raw = true;
    b1.press_raw = true;
    let write = t.adjust_step(&b0, &b1, &b2, true, false, false);
    assert!(write);
    assert_eq!(t.hour, 10);

    let (mut b0, b1, b2) = released_buttons();
    b0.press_raw = true;
    let write = t.adjust_step(&b0, &b1, &b2, true, false, false);
    assert!(write);
    assert_eq!(t.hour, 11);
}

#[test]
fn adjust_minute_and_second_rollover() {
    let mut t = TimeAdjust::new();
    t.set_time(0, 59, 59);
    t.active = true;

    let (b0, mut b1, b2) = released_buttons();
    b1.press_raw = true;
    t.adjust_step(&b0, &b1, &b2, false, true, false);
    assert_eq!(t.minute, 0);

    let (b0, b1, mut b2) = released_buttons();
    b2.press_raw = true;
    t.adjust_step(&b0, &b1, &b2, false, false, true);
    assert_eq!(t.second, 0);
}

#[test]
fn no_press_no_rtc_write() {
    let mut t = TimeAdjust::new();
    t.active = true;
    let (b0, b1, b2) = held_buttons(false);
    let write = t.adjust_step(&b0, &b1, &b2, false, false, false);
    assert!(!write);
}
