use urd::nixies::{format_time, word_to_bytes, Nixies};

fn word(character: char, nixie: usize) -> u32 {
    let mut n = Nixies::new();
    n.write_char(character, nixie);
    n.frames[0]
}

#[test]
fn write_char_five_on_tube_three() {
    let w = word('5', 3);
    assert_eq!(w, (1u32 << 22) | (1u32 << 8));
    assert_eq!(w.count_ones(), 2);
}

#[test]
fn write_char_sets_one_character_and_one_select_bit() {
    let digits = ['0', '1', '2', '3', '4', '5', '6', '7', '8', '9', '.'];
    let shifts = [7u32, 18, 19, 20, 21, 22, 3, 4, 5, 6, 17];
    let selects = [11u32, 10, 9, 8, 15, 14, 13, 12];
    for (c, shift) in digits.iter().zip(shifts.iter()) {
        for (nixie, select) in selects.iter().enumerate() {
            let w = word(*c, nixie);
            assert_eq!(w, (1u32 << shift) | (1u32 << select));
            assert_eq!(w.count_ones(), 2);
        }
    }
}

#[test]
fn unrecognized_character_lights_no_segment() {
    // Offset 0 is no segment: only bit 0 and the select bit are set.
    let w = word('x', 0);
    assert_eq!(w, (1u32 << 0) | (1u32 << 11));
}

#[test]
fn turn_off_queues_all_zero_word() {
    let mut n = Nixies::new();
    n.turn_off();
    assert_eq!(n.frames, vec![0]);
}

#[test]
fn display_str_writes_eight_tubes_in_order() {
    let mut n = Nixies::new();
    n.display_str("12.34.56");
    assert_eq!(n.frames.len(), 8);
    let expected: Vec<u32> = "12.34.56"
        .chars()
        .enumerate()
        .map(|(i, c)| word(c, i))
        .collect();
    assert_eq!(n.frames, expected);
}

#[test]
fn display_str_appends_after_existing_frames() {
    let mut n = Nixies::new();
    n.turn_off();
    n.display_str("00");
    assert_eq!(n.frames.len(), 3);
    assert_eq!(n.frames[0], 0);
    assert_eq!(n.frames[1], word('0', 0));
    assert_eq!(n.frames[2], word('0', 1));
}

#[test]
fn words_go_on_the_wire_most_significant_first() {
    assert_eq!(word_to_bytes((1u32 << 22) | (1u32 << 8)), (0x40, 0x01, 0x00));
    assert_eq!(word_to_bytes(0), (0, 0, 0));
    assert_eq!(word_to_bytes(0x00AB_CDEF), (0xAB, 0xCD, 0xEF));
}

#[test]
fn format_time_dotted() {
    let s = format_time(12, 34, 56, true);
    assert_eq!(s, "12.34.56");
    let s = format_time(0, 0, 0, true);
    assert_eq!(s, "00.00.00");
}

#[test]
fn format_time_spaced_for_adjust_mode() {
    let s = format_time(23, 59, 7, false);
    assert_eq!(s, "23 59 07");
}
