//! Bit encoding for the nixie-tube shift registers.
//!
//! Each write lights one character on one tube: a 24-bit word with exactly
//! one character bit and one tube-select bit set, transmitted as three
//! bytes most-significant first. This module computes the words; the
//! surrounding program owns the SPI bus and latch pin and transmits the
//! queued frames in order, pulsing the latch after each one.

use vstd::prelude::*;

verus! {

/// Number of physical tube positions.
pub const TUBE_COUNT: usize = 8;

/// Number of characters a tube can display.
pub const NIXIE_CHARACTER_COUNT: usize = 11;

/// Bit offset of the character's segment in the shift-register word.
/// Characters outside the closed set `'0'..='9'` and `'.'` map to offset 0,
/// which lights no segment.
pub open spec fn char_shift(c: char) -> u32 {
    if c == '0' {
        7
    } else if c == '1' {
        18
    } else if c == '2' {
        19
    } else if c == '3' {
        20
    } else if c == '4' {
        21
    } else if c == '5' {
        22
    } else if c == '6' {
        3
    } else if c == '7' {
        4
    } else if c == '8' {
        5
    } else if c == '9' {
        6
    } else if c == '.' {
        17
    } else {
        0
    }
}

/// Bit offset that selects tube position `nixie`.
pub open spec fn select_bit(nixie: int) -> u32 {
    if nixie == 0 {
        11
    } else if nixie == 1 {
        10
    } else if nixie == 2 {
        9
    } else if nixie == 3 {
        8
    } else if nixie == 4 {
        15
    } else if nixie == 5 {
        14
    } else if nixie == 6 {
        13
    } else {
        12
    }
}

/// The 24-bit shift-register word that displays `c` on tube `nixie`: only
/// the character bit and the tube-select bit are set.
pub open spec fn encode_word(c: char, nixie: int) -> u32 {
    (1u32 << char_shift(c)) | (1u32 << select_bit(nixie))
}

/// A transmitted word always sets exactly one character bit and one
/// tube-select bit: the character offsets and the select offsets are
/// disjoint, so the two set bits never coincide.
pub proof fn lemma_word_bits_distinct(c: char, nixie: int)
    requires
        0 <= nixie < TUBE_COUNT,
    ensures
        char_shift(c) != select_bit(nixie),
        char_shift(c) < 24,
        select_bit(nixie) < 24,
{
}

/// The character at position `i` of the tube's cathode stack, in the order
/// the digits sit inside the tube.
pub open spec fn nixie_character(i: int) -> char {
    if i == 0 {
        '1'
    } else if i == 1 {
        '2'
    } else if i == 2 {
        '6'
    } else if i == 3 {
        '7'
    } else if i == 4 {
        '5'
    } else if i == 5 {
        '0'
    } else if i == 6 {
        '4'
    } else if i == 7 {
        '9'
    } else if i == 8 {
        '8'
    } else if i == 9 {
        '3'
    } else {
        '.'
    }
}

/// Looks up [`nixie_character`] for a cathode-stack position.
pub fn nixie_character_at(i: usize) -> (c: char)
    requires
        i < NIXIE_CHARACTER_COUNT,
    ensures
        c == nixie_character(i as int),
{
    match i {
        0 => '1',
        1 => '2',
        2 => '6',
        3 => '7',
        4 => '5',
        5 => '0',
        6 => '4',
        7 => '9',
        8 => '8',
        9 => '3',
        _ => '.',
    }
}

/// Computes [`encode_word`] for a character and tube position.
pub fn write_word(character: char, nixie: usize) -> (w: u32)
    requires
        nixie < TUBE_COUNT,
    ensures
        w == encode_word(character, nixie as int),
{
    let shift: u32 = match character {
        '0' => 7,
        '1' => 18,
        '2' => 19,
        '3' => 20,
        '4' => 21,
        '5' => 22,
        '6' => 3,
        '7' => 4,
        '8' => 5,
        '9' => 6,
        '.' => 17,
        _ => 0,
    };
    let select: u32 = match nixie {
        0 => 11,
        1 => 10,
        2 => 9,
        3 => 8,
        4 => 15,
        5 => 14,
        6 => 13,
        _ => 12,
    };
    (1u32 << shift) | (1u32 << select)
}

/// Splits a shift-register word into the three bytes that go on the wire,
/// most-significant byte first.
pub fn word_to_bytes(w: u32) -> (b: (u8, u8, u8))
    ensures
        b.0 == (w >> 16) as u8,
        b.1 == (w >> 8) as u8,
        b.2 == w as u8,
{
    (#[verifier::truncate] ((w >> 16) as u8), #[verifier::truncate] ((w >> 8) as u8),
    #[verifier::truncate] (w as u8))
}

/// The character for a single decimal digit.
pub open spec fn digit_char(d: int) -> char {
    if d == 0 {
        '0'
    } else if d == 1 {
        '1'
    } else if d == 2 {
        '2'
    } else if d == 3 {
        '3'
    } else if d == 4 {
        '4'
    } else if d == 5 {
        '5'
    } else if d == 6 {
        '6'
    } else if d == 7 {
        '7'
    } else if d == 8 {
        '8'
    } else {
        '9'
    }
}

/// The eight characters that display a time of day: two digits each for
/// hour, minute and second, the last two pairs preceded by `sep`.
pub open spec fn time_chars(hour: int, minute: int, second: int, sep: char) -> Seq<char> {
    seq![
        digit_char(hour / 10),
        digit_char(hour % 10),
        sep,
        digit_char(minute / 10),
        digit_char(minute % 10),
        sep,
        digit_char(second / 10),
        digit_char(second % 10),
    ]
}

fn digit_str(d: u32) -> (s: &'static str)
    requires
        d < 10,
    ensures
        s@.len() == 1,
        s@[0] == digit_char(d as int),
{
    proof {
        reveal_strlit("0");
        reveal_strlit("1");
        reveal_strlit("2");
        reveal_strlit("3");
        reveal_strlit("4");
        reveal_strlit("5");
        reveal_strlit("6");
        reveal_strlit("7");
        reveal_strlit("8");
        reveal_strlit("9");
    }
    match d {
        0 => "0",
        1 => "1",
        2 => "2",
        3 => "3",
        4 => "4",
        5 => "5",
        6 => "6",
        7 => "7",
        8 => "8",
        _ => "9",
    }
}

/// Formats a time of day for the eight tubes: `HH.MM.SS` with dots, or
/// `HH MM SS` with spaces between the pairs (a space lights no segment).
pub fn format_time(hour: u32, minute: u32, second: u32, dotted: bool) -> (r: String)
    requires
        hour < 100,
        minute < 100,
        second < 100,
    ensures
        r@ == time_chars(
            hour as int,
            minute as int,
            second as int,
            if dotted {
                '.'
            } else {
                ' '
            },
        ),
        r@.len() == TUBE_COUNT,
{
    let sep: &'static str = if dotted {
        "."
    } else {
        " "
    };
    proof {
        reveal_strlit(".");
        reveal_strlit(" ");
    }
    let mut r = String::new();
    r.append(digit_str(hour / 10));
    r.append(digit_str(hour % 10));
    r.append(sep);
    r.append(digit_str(minute / 10));
    r.append(digit_str(minute % 10));
    r.append(sep);
    r.append(digit_str(second / 10));
    r.append(digit_str(second % 10));
    proof {
        assert(r@ =~= time_chars(
            hour as int,
            minute as int,
            second as int,
            if dotted {
                '.'
            } else {
                ' '
            },
        ));
    }
    r
}

/// Driver front-end for the tubes: it queues the exact 24-bit words to
/// transmit, oldest first. The surrounding program drains the queue onto
/// the SPI bus, latching after each word.
pub struct Nixies {
    pub frames: Vec<u32>,
}

impl Nixies {
    pub fn new() -> (r: Nixies)
        ensures
            r.frames@ == Seq::<u32>::empty(),
    {
        Nixies { frames: Vec::new() }
    }

    /// Queues the word that displays `character` on tube `nixie`. Each
    /// write replaces the register contents; nothing here is idempotent.
    pub fn write_char(&mut self, character: char, nixie: usize)
        requires
            nixie < TUBE_COUNT,
        ensures
            final(self).frames@ == old(self).frames@.push(
                encode_word(character, nixie as int),
            ),
    {
        let w = write_word(character, nixie);
        self.frames.push(w);
    }

    /// Queues an all-zero word: no character bit, no tube selected, so
    /// every tube goes dark.
    pub fn turn_off(&mut self)
        ensures
            final(self).frames@ == old(self).frames@.push(0u32),
    {
        self.frames.push(0);
    }

    /// Queues one word per character of `string_slice`, at tube positions
    /// 0, 1, ... left to right. The driver itself checks no bounds beyond
    /// the tube count: longer strings are for the caller to reject.
    pub fn display_str(&mut self, string_slice: &str)
        requires
            string_slice@.len() <= TUBE_COUNT,
        ensures
            final(self).frames@.len() == old(self).frames@.len() + string_slice@.len(),
            forall|i: int|
                0 <= i < string_slice@.len() ==> final(self).frames@[old(
                    self,
                ).frames@.len() + i] == encode_word(string_slice@[i], i),
            forall|i: int|
                0 <= i < old(self).frames@.len() ==> final(self).frames@[i] == old(
                    self,
                ).frames@[i],
    {
        let ghost orig = self.frames@;
        let n = string_slice.unicode_len();
        let mut i: usize = 0;
        while i < n
            invariant
                n == string_slice@.len() <= TUBE_COUNT,
                i <= n,
                self.frames@.len() == orig.len() + i,
                forall|j: int|
                    0 <= j < i ==> self.frames@[orig.len() + j] == encode_word(
                        string_slice@[j],
                        j,
                    ),
                forall|j: int| 0 <= j < orig.len() ==> self.frames@[j] == orig[j],
            decreases n - i,
        {
            let c = string_slice.get_char(i);
            self.write_char(c, i);
            i = i + 1;
        }
    }
}

} // verus!
