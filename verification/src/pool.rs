use vstd::prelude::*;

verus! {

use crate::voice::Voice;

/// Upper bound on simultaneous voices.
pub const MAX_VOICE_COUNT: usize = 16;

/// Why a note event was rejected. Rejected events never mutate the pool.
#[derive(Clone, Copy, Debug, PartialEq, Eq, Structural)]
pub enum ValidationError {
    /// The note number was above 127.
    NoteOutOfRange,
    /// The velocity was above 127.
    VelocityOutOfRange,
}

/// Bounded, insertion-ordered collection of the live voices, oldest
/// first. Capacity is reserved up front so a note-on never allocates.
pub struct VoicePool {
    voices: Vec<Voice>,
}

/// The pool a note-on leaves behind: the new voice is appended, and if
/// that exceeds the capacity, the oldest (front) voice is evicted.
pub open spec fn note_on_spec(s: Seq<Voice>, note: u8, velocity: u8) -> Seq<Voice> {
    let grown = s.push(Voice::fresh(note, velocity));
    if grown.len() > MAX_VOICE_COUNT { grown.drop_first() } else { grown }
}

/// Some live voice plays `note`.
pub open spec fn has_note(s: Seq<Voice>, note: u8) -> bool {
    exists|i: int| 0 <= i < s.len() && s[i].note == note
}

/// Index of the earliest-inserted voice playing `note`; equals `s.len()`
/// when no voice matches.
pub open spec fn first_match(s: Seq<Voice>, note: u8) -> int
    decreases s.len(),
{
    if s.len() == 0 {
        0
    } else if s[0].note == note {
        0
    } else {
        1 + first_match(s.drop_first(), note)
    }
}

/// The pool a note-off leaves behind: the earliest-inserted voice playing
/// `note` is removed; with no match the pool is untouched.
pub open spec fn note_off_spec(s: Seq<Voice>, note: u8) -> Seq<Voice> {
    if has_note(s, note) {
        s.remove(first_match(s, note))
    } else {
        s
    }
}

/// `first_match` points at a match, every earlier voice plays another
/// note, and the index is in bounds exactly when a match exists.
pub proof fn lemma_first_match(s: Seq<Voice>, note: u8)
    ensures
        has_note(s, note) ==> {
            let i = first_match(s, note);
            0 <= i < s.len() && s[i].note == note && (forall|j: int| 0 <= j < i ==> s[j].note != note)
        },
        !has_note(s, note) ==> first_match(s, note) == s.len(),
    decreases s.len(),
{
    if s.len() == 0 {
    } else if s[0].note == note {
    } else {
        let tail = s.drop_first();
        lemma_first_match(tail, note);
        if has_note(s, note) {
            let w = choose|w: int| 0 <= w < s.len() && s[w].note == note;
            assert(tail[w - 1] == s[w]);
            assert(has_note(tail, note));
            let it = first_match(tail, note);
            assert(s[1 + it] == tail[it]);
            assert forall|j: int| 0 <= j < 1 + it implies s[j].note != note by {
                if j > 0 {
                    assert(tail[j - 1] == s[j]);
                }
            }
        } else {
            if has_note(tail, note) {
                let k = choose|k: int| 0 <= k < tail.len() && tail[k].note == note;
                assert(s[k + 1] == tail[k]);
                assert(false);
            }
        }
    }
}

impl View for VoicePool {
    type V = Seq<Voice>;

    closed spec fn view(&self) -> Seq<Voice> {
        self.voices@
    }
}

impl VoicePool {
    /// The bound holds and every live voice carries legal MIDI bytes.
    pub open spec fn wf(&self) -> bool {
        self@.len() <= MAX_VOICE_COUNT && forall|i: int|
            0 <= i < self@.len() ==> (#[trigger] self@[i]).wf()
    }

    /// An empty pool, with room for `MAX_VOICE_COUNT` voices reserved.
    pub fn new() -> (p: VoicePool)
        ensures
            p@ == Seq::<Voice>::empty(),
            p.wf(),
    {
        VoicePool { voices: Vec::with_capacity(MAX_VOICE_COUNT) }
    }

    pub fn len(&self) -> (n: usize)
        ensures
            n == self@.len(),
    {
        self.voices.len()
    }

    /// The voice at position `i`, oldest first.
    pub fn get(&self, i: usize) -> (v: Voice)
        requires
            i < self@.len(),
        ensures
            v == self@[i as int],
    {
        self.voices[i]
    }

    /// Starts a voice for `note` at `velocity`, evicting the oldest voice
    /// if the pool would exceed its capacity. Re-triggering a sounding
    /// note adds a second, independent voice. Values outside the MIDI
    /// range are rejected and leave the pool untouched.
    pub fn note_on(&mut self, note: u8, velocity: u8) -> (r: Result<(), ValidationError>)
        requires
            old(self).wf(),
        ensures
            final(self).wf(),
            note <= 127 && velocity <= 127 ==> r == Ok::<(), ValidationError>(())
                && final(self)@ == note_on_spec(old(self)@, note, velocity),
            note > 127 ==> r == Err::<(), ValidationError>(ValidationError::NoteOutOfRange)
                && final(self)@ == old(self)@,
            note <= 127 && velocity > 127 ==> r == Err::<(), ValidationError>(
                ValidationError::VelocityOutOfRange,
            ) && final(self)@ == old(self)@,
    {
        if note > 127 {
            return Err(ValidationError::NoteOutOfRange);
        }
        if velocity > 127 {
            return Err(ValidationError::VelocityOutOfRange);
        }
        self.voices.push(Voice::new_with_velocity(note, velocity));
        if self.voices.len() > MAX_VOICE_COUNT {
            self.voices.remove(0);
        }
        Ok(())
    }

    /// Stops the earliest-inserted voice playing `note`; a note-off with
    /// no matching voice is a silent no-op.
    pub fn note_off(&mut self, note: u8)
        requires
            old(self).wf(),
        ensures
            final(self).wf(),
            final(self)@ == note_off_spec(old(self)@, note),
    {
        let n = self.voices.len();
        let mut i: usize = 0;
        while i < n
            invariant
                n == self.voices@.len(),
                i <= n,
                self.voices@ == old(self)@,
                old(self).wf(),
                forall|j: int| 0 <= j < i ==> self.voices@[j].note != note,
            decreases n - i,
        {
            if self.voices[i].note == note {
                self.voices.remove(i);
                proof {
                    lemma_first_match(old(self)@, note);
                    assert(has_note(old(self)@, note));
                    let f = first_match(old(self)@, note);
                    assert(old(self)@[f].note == note);
                    assert(f == i) by {
                        if f < i {
                            assert(old(self)@[f].note != note);
                        }
                        if f > i {
                            assert(old(self)@[i as int].note != note);
                        }
                    }
                }
                return;
            }
            i = i + 1;
        }
        proof {
            assert(!has_note(old(self)@, note));
        }
    }

    /// Advances every live voice's age by `n` samples; count, order,
    /// notes, velocities and release flags are unchanged.
    pub fn tick(&mut self, n: u32)
        requires
            old(self).wf(),
            forall|i: int| 0 <= i < old(self)@.len() ==> (#[trigger] old(self)@[i]).t + n
                <= u32::MAX,
        ensures
            final(self).wf(),
            final(self)@ == old(self)@.map_values(|v: Voice| v.aged(n)),
    {
        let len = self.voices.len();
        let mut i: usize = 0;
        while i < len
            invariant
                len == self.voices@.len(),
                len == old(self)@.len(),
                i <= len,
                old(self).wf(),
                forall|j: int| 0 <= j < old(self)@.len() ==> (#[trigger] old(self)@[j]).t + n
                    <= u32::MAX,
                forall|j: int| i <= j < len ==> self.voices@[j] == old(self)@[j],
                forall|j: int| 0 <= j < i ==> self.voices@[j] == (#[trigger] old(self)@[j]).aged(
                    n,
                ),
            decreases len - i,
        {
            let mut v = self.voices[i];
            proof {
                assert(v == old(self)@[i as int]);
                assert(v.t + n <= u32::MAX);
            }
            v.tick(n);
            self.voices[i] = v;
            i = i + 1;
        }
        proof {
            assert(final(self)@ =~= old(self)@.map_values(|v: Voice| v.aged(n)));
        }
    }

    /// Decodes one raw 3-byte channel voice message and applies it:
    /// status 128 stops `data1`; status 144 with velocity 0 also stops
    /// `data1`; status 144 with a positive velocity starts `data1` at
    /// `data2`; any other status is ignored, as is a note-on whose bytes
    /// fall outside the MIDI range.
    pub fn process_midi_event(&mut self, status: u8, data1: u8, data2: u8)
        requires
            old(self).wf(),
        ensures
            final(self).wf(),
            status == 128 ==> final(self)@ == note_off_spec(old(self)@, data1),
            status == 144 && data2 == 0 ==> final(self)@ == note_off_spec(old(self)@, data1),
            status == 144 && 0 < data2 <= 127 && data1 <= 127 ==> final(self)@ == note_on_spec(
                old(self)@,
                data1,
                data2,
            ),
            status == 144 && data2 > 0 && (data1 > 127 || data2 > 127) ==> final(self)@ == old(
                self,
            )@,
            status != 128 && status != 144 ==> final(self)@ == old(self)@,
    {
        if status == 128 {
            self.note_off(data1);
        } else if status == 144 && data2 == 0 {
            self.note_off(data1);
        } else if status == 144 {
            let _ = self.note_on(data1, data2);
        }
    }
}

/// The pool is bounded: a note-on applied to any in-bounds pool leaves at
/// most `MAX_VOICE_COUNT` voices; when the pool is full, the oldest voice
/// is evicted and the survivors keep their relative order behind the new
/// voice.
pub proof fn lemma_note_on_bounded(s: Seq<Voice>, note: u8, velocity: u8)
    requires
        s.len() <= MAX_VOICE_COUNT,
    ensures
        note_on_spec(s, note, velocity).len() <= MAX_VOICE_COUNT,
        s.len() < MAX_VOICE_COUNT ==> note_on_spec(s, note, velocity) == s.push(
            Voice::fresh(note, velocity),
        ),
        s.len() == MAX_VOICE_COUNT ==> note_on_spec(s, note, velocity) == s.drop_first().push(
            Voice::fresh(note, velocity),
        ),
{
    if s.len() == MAX_VOICE_COUNT {
        assert(note_on_spec(s, note, velocity) =~= s.drop_first().push(
            Voice::fresh(note, velocity),
        ));
    }
}

/// A note-off with no matching voice changes nothing, and one with
/// matches removes exactly the earliest-inserted matching voice: every
/// voice before it survives in place, every voice after it moves up one.
pub proof fn lemma_note_off_removes_first(s: Seq<Voice>, note: u8)
    ensures
        !has_note(s, note) ==> note_off_spec(s, note) == s,
        has_note(s, note) ==> {
            let i = first_match(s, note);
            &&& 0 <= i < s.len()
            &&& s[i].note == note
            &&& forall|j: int| 0 <= j < i ==> s[j].note != note
            &&& note_off_spec(s, note) == s.remove(i)
            &&& note_off_spec(s, note).len() == s.len() - 1
        },
{
    lemma_first_match(s, note);
}

} // verus!
