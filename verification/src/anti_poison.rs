//! Anti-cathode-poisoning sweep: a periodic ping-pong animation that
//! exercises every cathode of every tube so that none wears unevenly.
//!
//! The sweep is triggered once the cycle count passes `activate_cycle`,
//! runs until `deactivate_cycle`, and on each trigger draws a random index
//! into the table of decorative numbers shown afterwards, seeded from the
//! current cycle count.

use crate::helpers::ms_to_cycles;
use crate::nixies::{
    encode_word, nixie_character, nixie_character_at, Nixies, NIXIE_CHARACTER_COUNT, TUBE_COUNT,
};
use crate::CLOCK_MHZ;
use rand::Rng;
use rand::SeedableRng;
use vstd::prelude::*;

verus! {

/// Milliseconds between two sweeps.
pub const ANTI_POISON_INTERVAL_MS: u64 = 10 * 60 * 1000;

/// Milliseconds a sweep lasts.
pub const ANTI_POISON_DURATION_MS: u64 = 15 * 1000;

/// Number of decorative numeric strings.
pub const DIVERGENCE_COUNT: usize = 21;

/// Cathode-stack index each tube starts the sweep at: a diagonal
/// permutation, so the tubes begin out of phase.
pub open spec fn start_pattern(i: int) -> usize {
    if i == 0 {
        3
    } else if i == 1 {
        1
    } else if i == 2 {
        4
    } else if i == 3 {
        0
    } else if i == 4 {
        6
    } else if i == 5 {
        2
    } else if i == 6 {
        7
    } else {
        5
    }
}

/// The decorative numeric string at index `i` of the table.
pub open spec fn divergence_str(i: int) -> Seq<char> {
    if i == 0 {
        "0.337187"@
    } else if i == 1 {
        "0.409420"@
    } else if i == 2 {
        "0.409431"@
    } else if i == 3 {
        "0.456903"@
    } else if i == 4 {
        "0.456914"@
    } else if i == 5 {
        "0.523299"@
    } else if i == 6 {
        "0.523307"@
    } else if i == 7 {
        "0.571015"@
    } else if i == 8 {
        "0.571046"@
    } else if i == 9 {
        "0.571082"@
    } else if i == 10 {
        "1.053649"@
    } else if i == 11 {
        "1.055821"@
    } else if i == 12 {
        "1.064750"@
    } else if i == 13 {
        "1.064756"@
    } else if i == 14 {
        "1.129848"@
    } else if i == 15 {
        "1.129954"@
    } else if i == 16 {
        "1.130205"@
    } else if i == 17 {
        "1.130238"@
    } else if i == 18 {
        "1.130426"@
    } else if i == 19 {
        "1.143688"@
    } else {
        "1.382733"@
    }
}

/// Looks up the decorative numeric string for a table index. Every entry
/// is eight characters long, one per tube.
pub fn divergence_number(i: usize) -> (s: &'static str)
    requires
        i < DIVERGENCE_COUNT,
    ensures
        s@ == divergence_str(i as int),
        s@.len() == TUBE_COUNT,
{
    proof {
        reveal_strlit("0.337187");
        reveal_strlit("0.409420");
        reveal_strlit("0.409431");
        reveal_strlit("0.456903");
        reveal_strlit("0.456914");
        reveal_strlit("0.523299");
        reveal_strlit("0.523307");
        reveal_strlit("0.571015");
        reveal_strlit("0.571046");
        reveal_strlit("0.571082");
        reveal_strlit("1.053649");
        reveal_strlit("1.055821");
        reveal_strlit("1.064750");
        reveal_strlit("1.064756");
        reveal_strlit("1.129848");
        reveal_strlit("1.129954");
        reveal_strlit("1.130205");
        reveal_strlit("1.130238");
        reveal_strlit("1.130426");
        reveal_strlit("1.143688");
        reveal_strlit("1.382733");
    }
    match i {
        0 => "0.337187",
        1 => "0.409420",
        2 => "0.409431",
        3 => "0.456903",
        4 => "0.456914",
        5 => "0.523299",
        6 => "0.523307",
        7 => "0.571015",
        8 => "0.571046",
        9 => "0.571082",
        10 => "1.053649",
        11 => "1.055821",
        12 => "1.064750",
        13 => "1.064756",
        14 => "1.129848",
        15 => "1.129954",
        16 => "1.130205",
        17 => "1.130238",
        18 => "1.130426",
        19 => "1.143688",
        _ => "1.382733",
    }
}

/// Relies on `rand::Rng::gen_range` over `rand::rngs::SmallRng`, seeded
/// with `rand::SeedableRng::seed_from_u64`: a sample from the non-empty
/// range `0..bound` lies in `[0, bound)`.
#[verifier::external_body]
fn random_below(seed: u64, bound: usize) -> (r: usize)
    requires
        bound > 0,
    ensures
        r < bound,
{
    let mut rng = rand::rngs::SmallRng::seed_from_u64(seed);
    rng.gen_range(0..bound)
}

/// The sweep index one sub-tick later: one step along the current
/// direction, clamped one step inside the cathode-stack bounds.
pub open spec fn sweep_step_index(cur: int, inc: bool) -> int {
    let raw = if inc {
        cur + 1
    } else {
        cur - 1
    };
    if raw < 0 {
        1
    } else if raw > NIXIE_CHARACTER_COUNT - 1 {
        NIXIE_CHARACTER_COUNT - 2
    } else {
        raw
    }
}

/// The sweep direction one sub-tick later: unchanged until the raw step
/// leaves the cathode-stack bounds, then flipped to point back inward.
pub open spec fn sweep_step_dir(cur: int, inc: bool) -> bool {
    let raw = if inc {
        cur + 1
    } else {
        cur - 1
    };
    if raw < 0 {
        true
    } else if raw > NIXIE_CHARACTER_COUNT - 1 {
        false
    } else {
        inc
    }
}

/// A sweep index is clamped only at the cathode-stack boundaries, and a
/// clamped value lands one step inside: it never goes below 1 or above
/// `NIXIE_CHARACTER_COUNT - 2`, and the direction flips inward. A tube
/// sitting on a boundary always moves one step inside at the next
/// sub-tick, whichever way it was going: the boundary positions are only
/// grazed, never held twice in a row.
pub proof fn lemma_sweep_clamp(cur: int, inc: bool)
    requires
        0 <= cur < NIXIE_CHARACTER_COUNT,
    ensures
        0 <= sweep_step_index(cur, inc) < NIXIE_CHARACTER_COUNT,
        ({
            let raw = if inc {
                cur + 1
            } else {
                cur - 1
            };
            raw < 0 || raw > NIXIE_CHARACTER_COUNT - 1
        }) ==> 1 <= sweep_step_index(cur, inc) <= NIXIE_CHARACTER_COUNT - 2
            && sweep_step_dir(cur, inc) != inc,
        cur == 0 ==> sweep_step_index(cur, inc) == 1,
        cur == NIXIE_CHARACTER_COUNT - 1 ==> sweep_step_index(cur, inc)
            == NIXIE_CHARACTER_COUNT - 2,
{
}

/// State of one sweep: a direction and a cathode-stack index per tube, the
/// decorative number drawn for afterwards, and the cycle counts at which
/// the running sweep ends and the next one begins.
pub struct AntiPoison {
    /// Per tube: whether its index is currently climbing the stack.
    pub increasing: [bool; 8],
    /// Per tube: the cathode-stack index it currently lights.
    pub current_indices: [usize; 8],
    /// Index into the decorative-number table, drawn at each trigger.
    pub divergence_index: usize,
    /// The running sweep ends once the cycle count reaches this.
    pub deactivate_cycle: u64,
    /// The next sweep is due once the cycle count exceeds this.
    pub activate_cycle: u64,
}

impl AntiPoison {
    /// Every tube's index stays inside the cathode stack, and the drawn
    /// table index stays inside the table.
    pub open spec fn wf(self) -> bool {
        &&& forall|j: int|
            0 <= j < TUBE_COUNT ==> self.current_indices@[j] < NIXIE_CHARACTER_COUNT
        &&& self.divergence_index < DIVERGENCE_COUNT
    }

    /// A fresh scheduler: the first sweep is due as soon as the cycle
    /// count moves, and the first decorative number is the table's first.
    pub fn new() -> (r: AntiPoison)
        ensures
            r.activate_cycle == 0,
            r.divergence_index == 0,
            r.wf(),
    {
        let r = AntiPoison {
            increasing: [true; 8],
            current_indices: [3, 1, 4, 0, 6, 2, 7, 5],
            divergence_index: 0,
            deactivate_cycle: 0,
            activate_cycle: 0,
        };
        proof {
            assert(forall|j: int|
                0 <= j < TUBE_COUNT ==> r.current_indices@[j] < NIXIE_CHARACTER_COUNT);
        }
        r
    }

    /// True once the cycle count has passed the scheduled activation.
    pub fn due(&self, cycles: u64) -> (r: bool)
        ensures
            r == (cycles > self.activate_cycle),
    {
        cycles > self.activate_cycle
    }

    /// True while a started sweep is still running.
    pub fn running(&self, cycles: u64) -> (r: bool)
        ensures
            r == (cycles < self.deactivate_cycle),
    {
        cycles < self.deactivate_cycle
    }

    /// Begins a sweep at the given cycle count: every tube starts
    /// climbing from its slot of the diagonal start pattern, the sweep is
    /// scheduled to end a fixed duration from now, and a fresh decorative
    /// number is drawn with the cycle count as seed.
    pub fn start(&mut self, cycles: u64)
        requires
            cycles + ANTI_POISON_DURATION_MS * CLOCK_MHZ * 1000 <= u64::MAX,
        ensures
            forall|j: int| 0 <= j < TUBE_COUNT ==> final(self).increasing@[j] == true,
            forall|j: int|
                0 <= j < TUBE_COUNT ==> final(self).current_indices@[j] == start_pattern(j),
            final(self).divergence_index < DIVERGENCE_COUNT,
            final(self).deactivate_cycle == cycles + ANTI_POISON_DURATION_MS * CLOCK_MHZ
                * 1000,
            final(self).activate_cycle == old(self).activate_cycle,
            final(self).wf(),
    {
        self.divergence_index = random_below(cycles, DIVERGENCE_COUNT);
        self.deactivate_cycle = cycles + ms_to_cycles(ANTI_POISON_DURATION_MS, CLOCK_MHZ);
        self.increasing = [true; 8];
        self.current_indices = [3, 1, 4, 0, 6, 2, 7, 5];
        proof {
            assert(forall|j: int|
                0 <= j < TUBE_COUNT ==> self.current_indices@[j] == start_pattern(j));
        }
    }

    /// Ends the sweep at the given cycle count and schedules the next one
    /// a fixed interval from now.
    pub fn finish(&mut self, cycles: u64)
        requires
            cycles + ANTI_POISON_INTERVAL_MS * CLOCK_MHZ * 1000 <= u64::MAX,
        ensures
            final(self).activate_cycle == cycles + ANTI_POISON_INTERVAL_MS * CLOCK_MHZ
                * 1000,
            final(self).increasing == old(self).increasing,
            final(self).current_indices == old(self).current_indices,
            final(self).divergence_index == old(self).divergence_index,
            final(self).deactivate_cycle == old(self).deactivate_cycle,
            old(self).wf() ==> final(self).wf(),
    {
        self.activate_cycle = cycles + ms_to_cycles(ANTI_POISON_INTERVAL_MS, CLOCK_MHZ);
    }

    /// One sub-tick of the sweep: every tube's index moves one step along
    /// its direction, ping-ponging one step inside the boundaries.
    pub fn advance(&mut self)
        requires
            old(self).wf(),
        ensures
            forall|j: int|
                0 <= j < TUBE_COUNT ==> final(self).current_indices@[j] == sweep_step_index(
                    old(self).current_indices@[j] as int,
                    old(self).increasing@[j],
                ),
            forall|j: int|
                0 <= j < TUBE_COUNT ==> final(self).increasing@[j] == sweep_step_dir(
                    old(self).current_indices@[j] as int,
                    old(self).increasing@[j],
                ),
            final(self).divergence_index == old(self).divergence_index,
            final(self).deactivate_cycle == old(self).deactivate_cycle,
            final(self).activate_cycle == old(self).activate_cycle,
            final(self).wf(),
    {
        let mut i: usize = 0;
        while i < TUBE_COUNT
            invariant
                i <= TUBE_COUNT,
                self.divergence_index == old(self).divergence_index,
                self.deactivate_cycle == old(self).deactivate_cycle,
                self.activate_cycle == old(self).activate_cycle,
                self.divergence_index < DIVERGENCE_COUNT,
                forall|j: int|
                    i <= j < TUBE_COUNT ==> self.current_indices@[j] == old(
                        self,
                    ).current_indices@[j] && self.increasing@[j] == old(self).increasing@[j],
                forall|j: int|
                    0 <= j < TUBE_COUNT ==> self.current_indices@[j] < NIXIE_CHARACTER_COUNT,
                forall|j: int|
                    0 <= j < i ==> self.current_indices@[j] == sweep_step_index(
                        old(self).current_indices@[j] as int,
                        old(self).increasing@[j],
                    ) && self.increasing@[j] == sweep_step_dir(
                        old(self).current_indices@[j] as int,
                        old(self).increasing@[j],
                    ),
            decreases TUBE_COUNT - i,
        {
            let mut new_index: i32 = if self.increasing[i] {
                self.current_indices[i] as i32 + 1
            } else {
                self.current_indices[i] as i32 - 1
            };

            if new_index < 0 {
                new_index = 1;
                self.increasing[i] = true;
            }

            if new_index > NIXIE_CHARACTER_COUNT as i32 - 1 {
                new_index = NIXIE_CHARACTER_COUNT as i32 - 2;
                self.increasing[i] = false;
            }

            self.current_indices[i] = new_index as usize;
            i = i + 1;
        }
    }

    /// Queues one full eight-tube frame of the sweep: tube `j` shows the
    /// character at its current cathode-stack index.
    pub fn write_frame(&self, nixies: &mut Nixies)
        requires
            self.wf(),
        ensures
            final(nixies).frames@ == old(nixies).frames@ + frame_words(*self),
    {
        let ghost orig = nixies.frames@;
        let mut i: usize = 0;
        while i < TUBE_COUNT
            invariant
                self.wf(),
                i <= TUBE_COUNT,
                nixies.frames@.len() == orig.len() + i,
                forall|j: int| 0 <= j < orig.len() ==> nixies.frames@[j] == orig[j],
                forall|j: int|
                    0 <= j < i ==> nixies.frames@[orig.len() + j] == frame_words(*self)[j],
            decreases TUBE_COUNT - i,
        {
            let c = nixie_character_at(self.current_indices[i]);
            nixies.write_char(c, i);
            i = i + 1;
        }
        proof {
            assert(nixies.frames@ =~= orig + frame_words(*self));
        }
    }
}

/// The eight shift-register words of one full sweep frame.
pub open spec fn frame_words(s: AntiPoison) -> Seq<u32> {
    Seq::new(TUBE_COUNT as nat, |j: int| encode_word(
        nixie_character(s.current_indices@[j] as int),
        j,
    ))
}

} // verus!
