use vstd::prelude::*;

verus! {

/// One currently-sounding note instance.
///
/// `note` and `velocity` follow the MIDI convention and stay inside
/// `[0, 127]` for every voice the pool holds; values outside that range
/// are rejected before a voice is ever created.
#[derive(Clone, Copy, Debug, PartialEq, Eq, Structural)]
pub struct Voice {
    /// The intensity of the note. Ranges from 0 to 127.
    pub velocity: u8,
    /// The pitch of the note. Ranges from 0 to 127.
    pub note: u8,
    /// Lifetime in samples: ticks up by the block length for every block
    /// rendered while the voice is live, and never decreases.
    pub t: u32,
    /// Set once a release event has matched this voice; read by the
    /// envelope stage.
    pub released: bool,
}

impl Voice {
    /// Both MIDI bytes are inside their legal range.
    pub open spec fn wf(self) -> bool {
        self.note <= 127 && self.velocity <= 127
    }

    /// The voice as it exists right after creation: age zero, not released.
    pub open spec fn fresh(note: u8, velocity: u8) -> Voice {
        Voice { velocity, note, t: 0u32, released: false }
    }

    /// The same voice, aged by `n` samples.
    pub open spec fn aged(self, n: u32) -> Voice {
        Voice { velocity: self.velocity, note: self.note, t: (self.t + n) as u32, released: self.released }
    }

    /// Initializes a `Voice` with its velocity set to default (100).
    pub fn new(note: u8) -> (v: Voice)
        requires
            note <= 127,
        ensures
            v == Self::fresh(note, 100u8),
            v.wf(),
    {
        Self::new_with_velocity(note, 100u8)
    }

    pub fn new_with_velocity(note: u8, velocity: u8) -> (v: Voice)
        requires
            note <= 127,
            velocity <= 127,
        ensures
            v == Self::fresh(note, velocity),
            v.wf(),
    {
        Voice { note, velocity, t: 0u32, released: false }
    }

    /// Advances the voice's age by `n` samples; nothing else changes.
    pub fn tick(&mut self, n: u32)
        requires
            old(self).t + n <= u32::MAX,
        ensures
            *final(self) == old(self).aged(n),
    {
        self.t = self.t + n;
    }
}

} // verus!
