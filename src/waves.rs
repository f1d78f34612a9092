//! Sampled periodic curves used by the shimmering effects.
//!
//! The curves involve trigonometry and fractional powers, so they are handed
//! to the library as tables of fixed-point samples over one period.
use vstd::prelude::*;
use crate::fixed::ONE;

verus! {

/// Number of samples per period.
pub const TABLE_LEN: usize = 1024;

/// The sample of `table` for a phase in `[0, 1)`.
pub open spec fn sample(table: Seq<u32>, phase: int) -> int {
    table[phase * (TABLE_LEN as int) / (ONE as int)] as int
}

/// The arctangent sample for a ratio in `[0, 1]`; the ratio 1 takes the last.
pub open spec fn arctan_index(ratio: int) -> int {
    if ratio >= ONE {
        TABLE_LEN - 1
    } else {
        ratio * (TABLE_LEN as int) / (ONE as int)
    }
}

/// Whether a table has one sample per slot, each in `[0, 1]`.
pub open spec fn table_ok(table: Seq<u32>) -> bool {
    table.len() == TABLE_LEN && forall|i: int| 0 <= i < table.len() ==> #[trigger] table[i] <= ONE
}

/// `wave`: `0.5 + 0.5 * sin(2 pi t)`; `twinkle`: `0.1 + 0.9 * wave(t)^2.2`, so
/// never below 0.1;
/// `arctan`: `atan(t) / (2 pi)`, the arctangent in turns; each sampled at
/// `t = i / TABLE_LEN`.
pub struct Waveforms {
    wave: Vec<u32>,
    twinkle: Vec<u32>,
    arctan: Vec<u32>,
}

impl Waveforms {
    pub closed spec fn wave_table(&self) -> Seq<u32> {
        self.wave@
    }

    pub closed spec fn twinkle_table(&self) -> Seq<u32> {
        self.twinkle@
    }

    pub closed spec fn arctan_table(&self) -> Seq<u32> {
        self.arctan@
    }

    pub open spec fn well_formed(&self) -> bool {
        table_ok(self.wave_table()) && table_floor(self.twinkle_table(), ONE / 10) && table_ok(
            self.arctan_table(),
        )
    }

    /// Takes the three tables; `None` unless each has `TABLE_LEN` samples in
    /// `[0, ONE]`.
    pub fn from_tables(wave: Vec<u32>, twinkle: Vec<u32>, arctan: Vec<u32>) -> (r: Option<Self>)
        ensures
            r is Some <==> table_ok(wave@) && table_floor(twinkle@, ONE / 10) && table_ok(arctan@),
            r matches Some(w) ==> w.wave_table() == wave@ && w.twinkle_table() == twinkle@
                && w.arctan_table() == arctan@,
    {
        if !check_table(&wave) || !check_table_floor(&twinkle, ONE / 10) || !check_table(&arctan) {
            return None;
        }
        Some(Waveforms { wave, twinkle, arctan })
    }

    /// The arctangent, in turns, of a ratio in `[0, 1]`; the last sample
    /// stands for the ratio 1 too.
    pub fn arctan(&self, ratio: u32) -> (r: u32)
        requires
            self.well_formed(),
            ratio <= ONE,
        ensures
            r == self.arctan_table()[arctan_index(ratio as int)],
            r <= ONE,
    {
        let i: usize = if ratio == ONE {
            TABLE_LEN - 1
        } else {
            (ratio / 64) as usize
        };
        self.arctan[i]
    }

    /// The wave at `phase`.
    pub fn wave(&self, phase: u32) -> (r: u32)
        requires
            self.well_formed(),
            phase < ONE,
        ensures
            r == sample(self.wave_table(), phase as int),
            r <= ONE,
    {
        let i = (phase / 64) as usize;
        assert(phase / 64 == (phase as int) * 1024 / 65536);
        self.wave[i]
    }

    /// The twinkle curve at `phase`.
    pub fn twinkle(&self, phase: u32) -> (r: u32)
        requires
            self.well_formed(),
            phase < ONE,
        ensures
            r == sample(self.twinkle_table(), phase as int),
            ONE / 10 <= r <= ONE,
    {
        let i = (phase / 64) as usize;
        assert(phase / 64 == (phase as int) * 1024 / 65536);
        self.twinkle[i]
    }
}

/// Whether a table is [`table_ok`] with every sample at least `floor`.
pub open spec fn table_floor(table: Seq<u32>, floor: u32) -> bool {
    table_ok(table) && forall|i: int| 0 <= i < table.len() ==> #[trigger] table[i] >= floor
}

fn check_table_floor(table: &Vec<u32>, floor: u32) -> (r: bool)
    ensures
        r == table_floor(table@, floor),
{
    if !check_table(table) {
        return false;
    }
    let mut i: usize = 0;
    while i < table.len()
        invariant
            i <= table@.len(),
            forall|k: int| 0 <= k < i ==> #[trigger] table@[k] >= floor,
        decreases table@.len() - i,
    {
        if table[i] < floor {
            return false;
        }
        i = i + 1;
    }
    true
}

fn check_table(table: &Vec<u32>) -> (r: bool)
    ensures
        r == table_ok(table@),
{
    if table.len() != TABLE_LEN {
        return false;
    }
    let mut i: usize = 0;
    while i < table.len()
        invariant
            i <= table@.len(),
            forall|k: int| 0 <= k < i ==> #[trigger] table@[k] <= ONE,
        decreases table@.len() - i,
    {
        if table[i] > ONE {
            return false;
        }
        i = i + 1;
    }
    true
}

} // verus!
