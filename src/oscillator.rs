//! Wavetable oscillators: which table a voice reads, and the read position
//! that advances through that table one sample at a time.
//!
//! Table values are samples, which this library does not compute with; what it
//! owns is the walk through the table: where each sample is read, how far the
//! read position moves per sample, and how many samples a sound lasts.

use vstd::prelude::*;

verus! {

/// Samples per second of every generated sound.
pub const SAMPLE_RATE: u64 = 44100;

/// Frequencies are counted in hundredths of a hertz.
pub const FREQ_SCALE: u64 = 100;

/// One table step, in the units in which the read position is kept: a read
/// position of `p` stands for the fractional table index `p / PHASE_UNIT`.
pub const PHASE_UNIT: u64 = SAMPLE_RATE * FREQ_SCALE;

/// The shape of a voice's waveform.
#[derive(Copy, Clone, Debug, PartialEq, Eq, Structural)]
pub enum Oscillator {
    Sine,
    Triangle,
    Saw,
    Square,
    Pulse,
}

/// How a sample is read at a fractional table index.
#[derive(Copy, Clone, Debug, PartialEq, Eq, Structural)]
pub enum Interpolation {
    /// The sample at the index rounded down.
    Step,
    /// The straight line between the samples on both sides of the index,
    /// where the last sample's right neighbour is the first one.
    Lerp,
}

/// A frequency in hundredths of a hertz.
pub type Frequency = u32;

/// The twelve semitones of the fourth octave.
pub struct Note;

impl Note {
    pub const C: Frequency = 26163;
    pub const CS: Frequency = 27718;
    pub const D: Frequency = 29366;
    pub const DS: Frequency = 31113;
    pub const E: Frequency = 32963;
    pub const F: Frequency = 34923;
    pub const FS: Frequency = 36999;
    pub const G: Frequency = 39200;
    pub const GS: Frequency = 41530;
    pub const A: Frequency = 44000;
    pub const AS: Frequency = 46616;
    pub const B: Frequency = 49388;
}

/// The length of the table that a waveform is read from.
pub open spec fn table_len_of(osc: Oscillator) -> nat {
    match osc {
        Oscillator::Sine => 32,
        Oscillator::Triangle => 4,
        Oscillator::Saw => 32,
        Oscillator::Square => 2,
        Oscillator::Pulse => 64,
    }
}

/// How a waveform's table is read: smooth shapes are interpolated, the
/// discontinuous ones are stepped.
pub open spec fn interpolation_of(osc: Oscillator) -> Interpolation {
    match osc {
        Oscillator::Square | Oscillator::Pulse => Interpolation::Step,
        _ => Interpolation::Lerp,
    }
}

/// The length of the table that `osc` is read from.
pub fn table_len(osc: Oscillator) -> (r: usize)
    ensures
        r == table_len_of(osc),
{
    match osc {
        Oscillator::Sine => 32,
        Oscillator::Triangle => 4,
        Oscillator::Saw => 32,
        Oscillator::Square => 2,
        Oscillator::Pulse => 64,
    }
}

/// How the table of `osc` is read.
pub fn interpolation(osc: Oscillator) -> (r: Interpolation)
    ensures
        r == interpolation_of(osc),
{
    match osc {
        Oscillator::Square | Oscillator::Pulse => Interpolation::Step,
        _ => Interpolation::Lerp,
    }
}

/// Where one sample is read: between `index` and `next` (its right neighbour,
/// wrapping to the start of the table), `frac / PHASE_UNIT` of the way.
#[derive(Copy, Clone, Debug, PartialEq, Eq, Structural)]
pub struct TableRead {
    pub index: usize,
    pub next: usize,
    pub frac: u64,
}

/// The state of an oscillator, as numbers.
pub struct OscView {
    pub shape: Oscillator,
    pub table_len: nat,
    pub interpolation: Interpolation,
    /// The read position, in units of `1 / PHASE_UNIT` table steps.
    pub phase: nat,
    /// How far the read position moves per sample, in the same units.
    pub phase_step: nat,
    /// How many samples are still to come.
    pub remaining: nat,
}

/// The read position's range: one pass through the table.
pub open spec fn period(v: OscView) -> nat {
    v.table_len * (PHASE_UNIT as nat)
}

/// The oscillator states that can occur.
pub open spec fn osc_wf(v: OscView) -> bool {
    &&& 0 < v.table_len <= usize::MAX
    &&& v.phase < period(v)
    &&& v.phase_step <= u32::MAX * v.table_len
    &&& v.remaining <= u64::MAX
}

/// The read position's step for a frequency: `freq * table_len / SAMPLE_RATE`
/// table steps, which is `freq * table_len` units of `1 / PHASE_UNIT`.
pub open spec fn step_for(freq: Frequency, table_len: nat) -> nat {
    freq as nat * table_len
}

/// The number of samples in `duration_ms` milliseconds, rounded down.
pub open spec fn samples_for(duration_ms: nat) -> nat {
    (SAMPLE_RATE as nat) * duration_ms / 1000
}

/// Where the sample at the current read position is read.
pub open spec fn read_at(v: OscView) -> TableRead {
    TableRead {
        index: (v.phase / PHASE_UNIT as nat) as usize,
        next: ((v.phase / PHASE_UNIT as nat + 1) % v.table_len) as usize,
        frac: (v.phase % PHASE_UNIT as nat) as u64,
    }
}

/// One pull of a sample: while samples remain, the read at the current
/// position, with the position moved on by one step (wrapping at the end of
/// the table) and one sample fewer to come; after that, nothing.
pub open spec fn pull(v: OscView) -> (Option<TableRead>, OscView) {
    if v.remaining > 0 {
        (
            Some(read_at(v)),
            OscView {
                phase: (v.phase + v.phase_step) % period(v),
                remaining: (v.remaining - 1) as nat,
                ..v
            },
        )
    } else {
        (None, v)
    }
}

/// The state after `k` pulls.
pub open spec fn pulls(v: OscView, k: nat) -> OscView
    decreases k,
{
    if k == 0 {
        v
    } else {
        pulls(pull(v).1, (k - 1) as nat)
    }
}

/// A fresh oscillator: at the start of the table, stepping at concert A.
pub open spec fn fresh_osc(
    shape: Oscillator,
    table_len: nat,
    interpolation: Interpolation,
    duration_ms: nat,
) -> OscView {
    OscView {
        shape,
        table_len,
        interpolation,
        phase: 0,
        phase_step: step_for(Note::A, table_len),
        remaining: samples_for(duration_ms),
    }
}

/// A finite stream of table reads, one per sample.
pub struct WaveTableOscillator {
    shape: Oscillator,
    table_len: usize,
    interpolation: Interpolation,
    phase: u128,
    phase_step: u128,
    remaining_samples: u64,
}

impl View for WaveTableOscillator {
    type V = OscView;

    closed spec fn view(&self) -> OscView {
        OscView {
            shape: self.shape,
            table_len: self.table_len as nat,
            interpolation: self.interpolation,
            phase: self.phase as nat,
            phase_step: self.phase_step as nat,
            remaining: self.remaining_samples as nat,
        }
    }
}

impl WaveTableOscillator {
    #[verifier::type_invariant]
    closed spec fn inv(self) -> bool {
        osc_wf(self@)
    }

    /// An oscillator over a table of `table_len` samples of waveform `shape`,
    /// lasting `duration_ms` milliseconds.
    pub fn new(
        shape: Oscillator,
        table_len: usize,
        interpolation: Interpolation,
        duration_ms: u32,
    ) -> (r: WaveTableOscillator)
        requires
            0 < table_len,
        ensures
            r@ == fresh_osc(shape, table_len as nat, interpolation, duration_ms as nat),
            osc_wf(r@),
    {
        let remaining_samples = SAMPLE_RATE * (duration_ms as u64) / 1000;
        proof {
            lemma_step_fits(Note::A, table_len);
        }
        let phase_step = (Note::A as u128) * (table_len as u128);
        proof {
            assert(Note::A <= u32::MAX);
            vstd::arithmetic::mul::lemma_mul_inequality(
                Note::A as int,
                u32::MAX as int,
                table_len as int,
            );
            assert(PHASE_UNIT > 0);
            vstd::arithmetic::mul::lemma_mul_strictly_positive(table_len as int, PHASE_UNIT as int);
        }
        WaveTableOscillator {
            shape,
            table_len,
            interpolation,
            phase: 0,
            phase_step,
            remaining_samples,
        }
    }

    /// Sets the pitch: the read position then moves `freq * table_len /
    /// SAMPLE_RATE` table steps per sample.
    pub fn set_frequency(&mut self, freq: Frequency)
        ensures
            final(self)@ == (OscView { phase_step: step_for(freq, old(self)@.table_len), ..old(self)@ }),
            osc_wf(final(self)@),
    {
        proof {
            use_type_invariant(&*self);
            vstd::arithmetic::mul::lemma_mul_inequality(
                freq as int,
                u32::MAX as int,
                self.table_len as int,
            );
        }
        proof {
            lemma_step_fits(freq, self.table_len);
        }
        self.phase_step = (freq as u128) * (self.table_len as u128);
    }

    /// The number of samples still to come.
    pub fn remaining(&self) -> (r: u64)
        ensures
            r == self@.remaining,
    {
        self.remaining_samples
    }

    /// The waveform this oscillator reads.
    pub fn shape(&self) -> (r: Oscillator)
        ensures
            r == self@.shape,
    {
        self.shape
    }

    /// The length of the table this oscillator reads.
    pub fn table_len(&self) -> (r: usize)
        ensures
            r == self@.table_len,
    {
        self.table_len
    }

    /// How this oscillator's table is read.
    pub fn interpolation(&self) -> (r: Interpolation)
        ensures
            r == self@.interpolation,
    {
        self.interpolation
    }

    /// The next sample's read, or `None` once the sound has ended. A read
    /// always lies inside the table.
    pub fn next_read(&mut self) -> (r: Option<TableRead>)
        ensures
            (r, final(self)@) == pull(old(self)@),
            osc_wf(final(self)@),
            r is Some ==> r->0.index < old(self)@.table_len && r->0.next < old(self)@.table_len,
    {
        proof {
            use_type_invariant(&*self);
        }
        if self.remaining_samples == 0 {
            return None;
        }
        let ghost v = self@;
        proof {
            lemma_read_in_table(v);
            lemma_phase_fits(v);
        }
        let unit = PHASE_UNIT as u128;
        let period = (self.table_len as u128) * unit;
        let index = self.phase / unit;
        let next = if index + 1 == self.table_len as u128 { 0 } else { index + 1 };
        proof {
            if index + 1 == v.table_len {
                vstd::arithmetic::div_mod::lemma_mod_self_0(v.table_len as int);
            } else {
                vstd::arithmetic::div_mod::lemma_small_mod((index + 1) as nat, v.table_len);
            }
            vstd::arithmetic::div_mod::lemma_mod_bound(v.phase as int, PHASE_UNIT as int);
        }
        let read = TableRead {
            index: index as usize,
            next: next as usize,
            frac: (self.phase % unit) as u64,
        };
        self.phase = (self.phase + self.phase_step) % period;
        self.remaining_samples = self.remaining_samples - 1;
        proof {
            vstd::arithmetic::div_mod::lemma_mod_bound((v.phase + v.phase_step) as int, period as int);
        }
        Some(read)
    }
}

/// A frequency's step over a table that fits in memory fits in 128 bits.
proof fn lemma_step_fits(freq: Frequency, table_len: usize)
    ensures
        freq as nat * table_len as nat <= u32::MAX * table_len as nat,
        u32::MAX * table_len as nat <= u64::MAX * u64::MAX,
{
    vstd::arithmetic::mul::lemma_mul_inequality(freq as int, u32::MAX as int, table_len as int);
    assert(u32::MAX * table_len as nat <= u64::MAX * u64::MAX) by (nonlinear_arith)
        requires
            table_len <= usize::MAX,
            usize::MAX <= u64::MAX,
    ;
}

/// In a valid state the read position, one pass through the table, and the
/// position moved on by a step all fit in 128 bits.
proof fn lemma_phase_fits(v: OscView)
    requires
        osc_wf(v),
    ensures
        period(v) > 0,
        period(v) <= u128::MAX,
        v.phase + v.phase_step <= u128::MAX,
{
    assert(period(v) > 0 && period(v) <= 0x1_0000_0000_0000_0000 * 0x100_0000) by (nonlinear_arith)
        requires
            0 < v.table_len <= usize::MAX,
            usize::MAX < 0x1_0000_0000_0000_0000,
            period(v) == v.table_len * (PHASE_UNIT as nat),
            PHASE_UNIT < 0x100_0000,
    ;
    assert(v.phase_step <= 0x1_0000_0000 * 0x1_0000_0000_0000_0000) by (nonlinear_arith)
        requires
            v.phase_step <= u32::MAX * v.table_len,
            v.table_len <= usize::MAX,
            usize::MAX < 0x1_0000_0000_0000_0000,
    ;
}

/// How a sound ends: pulled from a valid state, an oscillator gives exactly as
/// many reads as it has samples remaining, then signals the end. Every read
/// stays inside the table, however many times the read position has wrapped.
pub proof fn lemma_oscillator_finite(v: OscView, k: nat)
    requires
        osc_wf(v),
        k <= v.remaining,
    ensures
        osc_wf(pulls(v, k)),
        pulls(v, k).remaining == v.remaining - k,
        k < v.remaining ==> pull(pulls(v, k)).0 is Some,
        k < v.remaining ==> pull(pulls(v, k)).0->0.index < v.table_len,
        k < v.remaining ==> pull(pulls(v, k)).0->0.next < v.table_len,
        k == v.remaining ==> pull(pulls(v, k)).0 is None,
    decreases k,
{
    if k > 0 {
        let w = pull(v).1;
        vstd::arithmetic::div_mod::lemma_mod_bound((v.phase + v.phase_step) as int, period(v) as int);
        lemma_oscillator_finite(w, (k - 1) as nat);
    }
    let u = pulls(v, k);
    if k < v.remaining {
        lemma_read_in_table(u);
    }
}

/// A read taken in a valid state lies inside the table.
proof fn lemma_read_in_table(v: OscView)
    requires
        osc_wf(v),
    ensures
        read_at(v).index < v.table_len,
        read_at(v).next < v.table_len,
{
    let q = v.phase / PHASE_UNIT as nat;
    vstd::arithmetic::div_mod::lemma_fundamental_div_mod(v.phase as int, PHASE_UNIT as int);
    vstd::arithmetic::div_mod::lemma_mod_bound(v.phase as int, PHASE_UNIT as int);
    if q >= v.table_len {
        vstd::arithmetic::mul::lemma_mul_inequality(v.table_len as int, q as int, PHASE_UNIT as int);
        vstd::arithmetic::mul::lemma_mul_is_commutative(q as int, PHASE_UNIT as int);
    }
    vstd::arithmetic::div_mod::lemma_mod_bound((q + 1) as int, v.table_len as int);
}

/// A fresh oscillator gives `floor(SAMPLE_RATE * duration)` samples: one per
/// sample period of the sound's duration, rounded down.
pub proof fn lemma_fresh_sample_count(
    shape: Oscillator,
    table_len: nat,
    interpolation: Interpolation,
    duration_ms: nat,
)
    requires
        0 < table_len <= usize::MAX,
        duration_ms <= u32::MAX,
    ensures
        osc_wf(fresh_osc(shape, table_len, interpolation, duration_ms)),
        fresh_osc(shape, table_len, interpolation, duration_ms).remaining
            == (SAMPLE_RATE * duration_ms) / 1000,
        pull(pulls(fresh_osc(shape, table_len, interpolation, duration_ms), samples_for(duration_ms))).0 is None,
        forall|k: nat| k < samples_for(duration_ms) ==>
            (#[trigger] pull(pulls(fresh_osc(shape, table_len, interpolation, duration_ms), k))).0 is Some,
{
    let v = fresh_osc(shape, table_len, interpolation, duration_ms);
    vstd::arithmetic::mul::lemma_mul_inequality(Note::A as int, u32::MAX as int, table_len as int);
    vstd::arithmetic::mul::lemma_mul_strictly_positive(table_len as int, PHASE_UNIT as int);
    assert(SAMPLE_RATE * duration_ms / 1000 <= u64::MAX) by (nonlinear_arith)
        requires duration_ms <= u32::MAX;
    lemma_oscillator_finite(v, v.remaining);
    assert forall|k: nat| k < samples_for(duration_ms) implies (#[trigger] pull(pulls(v, k))).0 is Some by {
        lemma_oscillator_finite(v, k);
    }
}

} // verus!
