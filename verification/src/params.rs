use vstd::prelude::*;

verus! {

/// Number of addressable automation slots: master amplitude plus sixteen
/// partial gains.
pub const PARAM_COUNT: usize = 17;

/// Default master amplitude, 0.75 as an IEEE-754 single-precision bit
/// pattern.
pub const DEFAULT_AMPLITUDE_BITS: u32 = 0x3F40_0000;

/// The fixed set of scalar automation controls: slot 0 is the master
/// amplitude, slots 1 through 16 the gains of partials 1 through 16.
///
/// The store routes and holds the values but never does arithmetic on
/// them, so each slot is kept as the raw 32-bit pattern of the
/// single-precision value it carries; the host glue converts at the
/// boundary and owns the atomic cells that share these slots with the
/// automation thread.
pub struct Parameters {
    /// Master amplitude of oscillator A (slot 0).
    pub osc_a_amplitude: u32,
    /// Gains of partials 1 through 16 (slots 1 through 16).
    pub osc_a_partials: Vec<u32>,
}

impl Parameters {
    /// Exactly one word per partial slot.
    pub open spec fn wf(&self) -> bool {
        self.osc_a_partials@.len() == PARAM_COUNT - 1
    }

    /// The word held by slot `index` (meaningful for 0 <= index <= 16).
    pub open spec fn slot(&self, index: int) -> u32 {
        if index == 0 {
            self.osc_a_amplitude
        } else {
            self.osc_a_partials@[index - 1]
        }
    }

    /// What a read returns: the slot's word in range, zero outside.
    pub open spec fn read_spec(&self, index: int) -> u32 {
        if 0 <= index < PARAM_COUNT {
            self.slot(index)
        } else {
            0
        }
    }

    /// Reads the value of a parameter; an out-of-range index reads as
    /// zero rather than failing.
    pub fn get_parameter(&self, index: i32) -> (r: u32)
        requires
            self.wf(),
        ensures
            r == self.read_spec(index as int),
    {
        if index == 0 {
            self.osc_a_amplitude
        } else if 1 <= index && index <= 16 {
            self.osc_a_partials[(index - 1) as usize]
        } else {
            0
        }
    }

    /// Sets the value of a parameter; an out-of-range index is a silent
    /// no-op, and no other slot ever moves.
    pub fn set_parameter(&mut self, index: i32, val: u32)
        requires
            old(self).wf(),
        ensures
            final(self).wf(),
            0 <= index < PARAM_COUNT ==> forall|j: int|
                0 <= j < PARAM_COUNT ==> final(self).slot(j) == (if j == index {
                    val
                } else {
                    old(self).slot(j)
                }),
            !(0 <= index < PARAM_COUNT) ==> final(self).osc_a_amplitude == old(
                self,
            ).osc_a_amplitude && final(self).osc_a_partials@ == old(self).osc_a_partials@,
    {
        if index == 0 {
            self.osc_a_amplitude = val;
        } else if 1 <= index && index <= 16 {
            self.osc_a_partials[(index - 1) as usize] = val;
        }
    }

    /// The control's name: slot 0 is the amplitude, slots 1 through 16
    /// the partials; an out-of-range index has the empty label.
    pub fn get_parameter_name(&self, index: i32) -> (r: String)
        ensures
            index == 0 ==> r@ == "Oscillator A Amplitude"@,
            index == 1 ==> r@ == "Oscillator A Partial 1"@,
            index == 2 ==> r@ == "Oscillator A Partial 2"@,
            index == 3 ==> r@ == "Oscillator A Partial 3"@,
            index == 4 ==> r@ == "Oscillator A Partial 4"@,
            index == 5 ==> r@ == "Oscillator A Partial 5"@,
            index == 6 ==> r@ == "Oscillator A Partial 6"@,
            index == 7 ==> r@ == "Oscillator A Partial 7"@,
            index == 8 ==> r@ == "Oscillator A Partial 8"@,
            index == 9 ==> r@ == "Oscillator A Partial 9"@,
            index == 10 ==> r@ == "Oscillator A Partial 10"@,
            index == 11 ==> r@ == "Oscillator A Partial 11"@,
            index == 12 ==> r@ == "Oscillator A Partial 12"@,
            index == 13 ==> r@ == "Oscillator A Partial 13"@,
            index == 14 ==> r@ == "Oscillator A Partial 14"@,
            index == 15 ==> r@ == "Oscillator A Partial 15"@,
            index == 16 ==> r@ == "Oscillator A Partial 16"@,
            index < 0 || index > 16 ==> r@ == ""@,
    {
        match index {
            0 => "Oscillator A Amplitude".to_string(),
            1 => "Oscillator A Partial 1".to_string(),
            2 => "Oscillator A Partial 2".to_string(),
            3 => "Oscillator A Partial 3".to_string(),
            4 => "Oscillator A Partial 4".to_string(),
            5 => "Oscillator A Partial 5".to_string(),
            6 => "Oscillator A Partial 6".to_string(),
            7 => "Oscillator A Partial 7".to_string(),
            8 => "Oscillator A Partial 8".to_string(),
            9 => "Oscillator A Partial 9".to_string(),
            10 => "Oscillator A Partial 10".to_string(),
            11 => "Oscillator A Partial 11".to_string(),
            12 => "Oscillator A Partial 12".to_string(),
            13 => "Oscillator A Partial 13".to_string(),
            14 => "Oscillator A Partial 14".to_string(),
            15 => "Oscillator A Partial 15".to_string(),
            16 => "Oscillator A Partial 16".to_string(),
            _ => "".to_string(),
        }
    }
}

impl Default for Parameters {
    /// The store as built at startup: amplitude at three quarters, every
    /// partial gain at zero.
    fn default() -> (p: Parameters)
        ensures
            p.wf(),
            p.slot(0) == DEFAULT_AMPLITUDE_BITS,
            forall|j: int| 1 <= j < PARAM_COUNT ==> p.slot(j) == 0,
    {
        let mut partials: Vec<u32> = Vec::with_capacity(PARAM_COUNT - 1);
        let mut i: usize = 0;
        while i < PARAM_COUNT - 1
            invariant
                i <= PARAM_COUNT - 1,
                partials@.len() == i,
                forall|j: int| 0 <= j < i ==> partials@[j] == 0,
            decreases PARAM_COUNT - 1 - i,
        {
            partials.push(0);
            i = i + 1;
        }
        Parameters { osc_a_amplitude: DEFAULT_AMPLITUDE_BITS, osc_a_partials: partials }
    }
}

/// Parameter round-trip: after a write of `val` to an in-range slot
/// `index` — the relation `set_parameter` establishes between `before`
/// and `after` — a read of `index` returns `val` and a read of any other
/// in-range slot returns what it held before.
pub proof fn lemma_param_round_trip(before: Parameters, after: Parameters, index: int, val: u32)
    requires
        before.wf(),
        after.wf(),
        0 <= index < PARAM_COUNT,
        forall|j: int| 0 <= j < PARAM_COUNT ==> after.slot(j) == (if j == index {
            val
        } else {
            before.slot(j)
        }),
    ensures
        after.read_spec(index) == val,
        forall|j: int| 0 <= j < PARAM_COUNT && j != index ==> after.read_spec(j)
            == before.read_spec(j),
{
}

} // verus!
