use crate::audio::sequencer::Sequencer;
use crate::audio::utils::Key;
use crate::audio::utils::Note;
use crate::audio::utils::Octave;
use crate::audio::utils::octave_shift;
use vstd::prelude::*;

verus! {

/// Number of sequencers a saved song holds.
pub const SONG_SEQUENCERS: usize = 3;

/// Number of notes of each sequencer that a saved song holds.
pub const SONG_STEPS: usize = 16;

/// The wave and noise settings of one sequencer, as small integer codes.
#[derive(Clone, Copy, Debug, PartialEq, Eq, Structural)]
pub struct SequencerData {
    pub vco_wave_type: u8,
    pub lfo_wave_type: u8,
    pub noise_type: u8,
}

impl Default for SequencerData {
    /// All three codes zero.
    fn default() -> (d: Self)
        ensures
            d.vco_wave_type == 0 && d.lfo_wave_type == 0 && d.noise_type == 0,
    {
        SequencerData { vco_wave_type: 0, lfo_wave_type: 0, noise_type: 0 }
    }
}

/// A note as it is written to a song file: the octave and key as integers.
#[derive(Clone, Copy, Debug, PartialEq, Eq, Structural)]
pub struct NoteData {
    pub octave: i32,
    pub key: i32,
}

impl Default for NoteData {
    /// Octave zero, key zero.
    fn default() -> (d: Self)
        ensures
            d.octave == 0 && d.key == 0,
    {
        NoteData { octave: 0, key: 0 }
    }
}

/// The integer a key is written as: its position in the scale from C
/// (0) to B (11), and 12 for a rest.
pub open spec fn key_code(key: Key) -> i32 {
    match key {
        Key::C => 0,
        Key::Cs => 1,
        Key::D => 2,
        Key::Ds => 3,
        Key::E => 4,
        Key::F => 5,
        Key::Fs => 6,
        Key::G => 7,
        Key::Gs => 8,
        Key::A => 9,
        Key::As => 10,
        Key::B => 11,
        Key::Rest => 12,
    }
}

/// The key an integer stands for: the key whose code it is, and a rest for
/// any integer that is no key's code.
pub open spec fn key_of_code(i: i32) -> Key {
    if i == 0 {
        Key::C
    } else if i == 1 {
        Key::Cs
    } else if i == 2 {
        Key::D
    } else if i == 3 {
        Key::Ds
    } else if i == 4 {
        Key::E
    } else if i == 5 {
        Key::F
    } else if i == 6 {
        Key::Fs
    } else if i == 7 {
        Key::G
    } else if i == 8 {
        Key::Gs
    } else if i == 9 {
        Key::A
    } else if i == 10 {
        Key::As
    } else if i == 11 {
        Key::B
    } else {
        Key::Rest
    }
}

/// The integer an octave is written as: 0 for the first up to 4 for the
/// fifth.
pub open spec fn octave_code(octave: Octave) -> i32 {
    match octave {
        Octave::First => 0,
        Octave::Second => 1,
        Octave::Third => 2,
        Octave::Fourth => 3,
        Octave::Fifth => 4,
    }
}

/// The octave an integer stands for: the octave whose code it is, and the
/// third octave for any other integer.
pub open spec fn octave_of_code(i: i32) -> Octave {
    if i == 0 {
        Octave::First
    } else if i == 1 {
        Octave::Second
    } else if i == 2 {
        Octave::Third
    } else if i == 3 {
        Octave::Fourth
    } else if i == 4 {
        Octave::Fifth
    } else {
        Octave::Third
    }
}

/// The record a note is saved as.
pub open spec fn note_record(note: Note) -> NoteData {
    NoteData { octave: octave_code(note.octave), key: key_code(note.key) }
}

/// The note a saved record is loaded as.
pub open spec fn note_of_record(data: NoteData) -> Note {
    Note { octave: octave_of_code(data.octave), key: key_of_code(data.key) }
}

/// The note written for a cleared step: a rest in the third octave.
pub open spec fn cleared_note() -> Note {
    Note { octave: Octave::Third, key: Key::Rest }
}

/// Reads a key from its saved integer; integers that are no key's code
/// give a rest.
pub fn int_to_key(i: i32) -> (k: Key)
    ensures
        k == key_of_code(i),
{
    match i {
        0 => Key::C,
        1 => Key::Cs,
        2 => Key::D,
        3 => Key::Ds,
        4 => Key::E,
        5 => Key::F,
        6 => Key::Fs,
        7 => Key::G,
        8 => Key::Gs,
        9 => Key::A,
        10 => Key::As,
        11 => Key::B,
        12 => Key::Rest,
        _ => Key::Rest,
    }
}

/// Reads an octave from its saved integer; integers that are no octave's
/// code give the third octave.
pub fn int_to_octave(i: i32) -> (o: Octave)
    ensures
        o == octave_of_code(i),
{
    match i {
        0 => Octave::First,
        1 => Octave::Second,
        2 => Octave::Third,
        3 => Octave::Fourth,
        4 => Octave::Fifth,
        _ => Octave::Third,
    }
}

/// The integer a key is saved as.
pub fn key_to_int(key: Key) -> (i: i32)
    ensures
        i == key_code(key),
{
    match key {
        Key::C => 0,
        Key::Cs => 1,
        Key::D => 2,
        Key::Ds => 3,
        Key::E => 4,
        Key::F => 5,
        Key::Fs => 6,
        Key::G => 7,
        Key::Gs => 8,
        Key::A => 9,
        Key::As => 10,
        Key::B => 11,
        Key::Rest => 12,
    }
}

/// The integer an octave is saved as.
pub fn octave_to_int(octave: Octave) -> (i: i32)
    ensures
        i == octave_code(octave),
{
    match octave {
        Octave::First => 0,
        Octave::Second => 1,
        Octave::Third => 2,
        Octave::Fourth => 3,
        Octave::Fifth => 4,
    }
}

/// The record a note is saved as.
pub fn note_to_data(note: Note) -> (d: NoteData)
    ensures
        d == note_record(note),
        d.octave == octave_code(note.octave),
        d.key == key_code(note.key),
{
    NoteData { octave: octave_to_int(note.octave), key: key_to_int(note.key) }
}

/// The note a saved record stands for.
pub fn data_to_note(data: NoteData) -> (n: Note)
    ensures
        n == note_of_record(data),
        n.octave == octave_of_code(data.octave),
        n.key == key_of_code(data.key),
{
    Note { octave: int_to_octave(data.octave), key: int_to_key(data.key) }
}

/// Whether `b` keeps every part of `a` but its notes.
pub open spec fn same_timing(a: Sequencer, b: Sequencer) -> bool {
    &&& a.is_running_spec() == b.is_running_spec()
    &&& a.tick_period_spec() == b.tick_period_spec()
    &&& a.beat_duration_spec() == b.beat_duration_spec()
    &&& a.length_spec() == b.length_spec()
    &&& a.beat_index_spec() == b.beat_index_spec()
    &&& a.prev_beat_index_spec() == b.prev_beat_index_spec()
    &&& a.on_beat_spec() == b.on_beat_spec()
}

/// Whether a song can be saved from or loaded into `sequencers`: there are
/// at least three of them, each with at least sixteen notes.
pub open spec fn holds_song(sequencers: Seq<Sequencer>) -> bool {
    &&& sequencers.len() >= SONG_SEQUENCERS
    &&& forall|i: int| 0 <= i < SONG_SEQUENCERS ==> #[trigger] sequencers[i].notes().len() >= SONG_STEPS
}

/// The records saved for one sequencer: its first sixteen notes.
pub open spec fn saved_row(sequencer: Sequencer) -> Seq<NoteData> {
    Seq::new(SONG_STEPS as nat, |j: int| note_record(sequencer.notes()[j]))
}

/// The notes of a sequencer after loading `row` into it: the first sixteen
/// come from the records, the rest stay.
pub open spec fn loaded_row(notes: Seq<Note>, row: Seq<NoteData>) -> Seq<Note> {
    Seq::new(notes.len(), |j: int| if j < SONG_STEPS { note_of_record(row[j]) } else { notes[j] })
}

/// Whether `data` is shaped like a saved song: three rows of at least
/// sixteen records.
pub open spec fn is_song_data(data: Seq<Vec<NoteData>>) -> bool {
    &&& data.len() >= SONG_SEQUENCERS
    &&& forall|i: int| 0 <= i < SONG_SEQUENCERS ==> #[trigger] data[i]@.len() >= SONG_STEPS
}

/// The note records of a song: the first sixteen notes of each of the first
/// three sequencers.
pub fn save_song_notes(sequencers: &Vec<Sequencer>) -> (data: Vec<Vec<NoteData>>)
    requires
        holds_song(sequencers@),
    ensures
        data@.len() == SONG_SEQUENCERS,
        forall|i: int| 0 <= i < SONG_SEQUENCERS ==> #[trigger] data@[i]@ == saved_row(sequencers@[i]),
{
    let mut data: Vec<Vec<NoteData>> = Vec::new();
    let mut i: usize = 0;
    while i < SONG_SEQUENCERS
        invariant
            i <= SONG_SEQUENCERS,
            holds_song(sequencers@),
            data@.len() == i,
            forall|k: int| 0 <= k < i ==> #[trigger] data@[k]@ == saved_row(sequencers@[k]),
        decreases SONG_SEQUENCERS - i,
    {
        let mut row: Vec<NoteData> = Vec::new();
        let mut j: usize = 0;
        assert(sequencers@[i as int].notes().len() >= SONG_STEPS);
        while j < SONG_STEPS
            invariant
                j <= SONG_STEPS,
                i < SONG_SEQUENCERS,
                i < sequencers@.len(),
                sequencers@[i as int].notes().len() >= SONG_STEPS,
                row@.len() == j,
                forall|k: int| 0 <= k < j ==> #[trigger] row@[k] == note_record(sequencers@[i as int].notes()[k]),
            decreases SONG_STEPS - j,
        {
            row.push(note_to_data(sequencers[i].note(j)));
            j += 1;
        }
        assert(row@ =~= saved_row(sequencers@[i as int]));
        data.push(row);
        i += 1;
    }
    data
}

/// Loads the note records of a song: the first sixteen notes of each of the
/// first three sequencers become the notes the records stand for; every
/// other note and all timing stay.
pub fn load_song_notes(sequencers: &mut Vec<Sequencer>, data: &Vec<Vec<NoteData>>)
    requires
        holds_song(old(sequencers)@),
        is_song_data(data@),
    ensures
        final(sequencers)@.len() == old(sequencers)@.len(),
        forall|i: int| 0 <= i < SONG_SEQUENCERS ==> {
            &&& #[trigger] final(sequencers)@[i].notes() == loaded_row(old(sequencers)@[i].notes(), data@[i]@)
            &&& same_timing(old(sequencers)@[i], final(sequencers)@[i])
        },
        forall|i: int| SONG_SEQUENCERS <= i < old(sequencers)@.len() ==> #[trigger] final(sequencers)@[i] == old(sequencers)@[i],
{
    let ghost start = sequencers@;
    let mut i: usize = 0;
    while i < SONG_SEQUENCERS
        invariant
            i <= SONG_SEQUENCERS,
            holds_song(start),
            is_song_data(data@),
            sequencers@.len() == start.len(),
            forall|k: int| 0 <= k < i ==> {
                &&& #[trigger] sequencers@[k].notes() == loaded_row(start[k].notes(), data@[k]@)
                &&& same_timing(start[k], sequencers@[k])
            },
            forall|k: int| i <= k < start.len() ==> #[trigger] sequencers@[k] == start[k],
        decreases SONG_SEQUENCERS - i,
    {
        let ghost before = sequencers@;
        let mut j: usize = 0;
        assert(start[i as int].notes().len() >= SONG_STEPS);
        assert(data@[i as int]@.len() >= SONG_STEPS);
        while j < SONG_STEPS
            invariant
                j <= SONG_STEPS,
                i < SONG_SEQUENCERS,
                start.len() >= SONG_SEQUENCERS,
                sequencers@.len() == start.len(),
                start[i as int].notes().len() >= SONG_STEPS,
                data@.len() >= SONG_SEQUENCERS,
                data@[i as int]@.len() >= SONG_STEPS,
                sequencers@[i as int].notes().len() == start[i as int].notes().len(),
                forall|m: int| 0 <= m < sequencers@[i as int].notes().len() ==>
                    #[trigger] sequencers@[i as int].notes()[m] == (if m < j {
                        note_of_record(data@[i as int]@[m])
                    } else {
                        start[i as int].notes()[m]
                    }),
                same_timing(start[i as int], sequencers@[i as int]),
                forall|k: int| 0 <= k < start.len() && k != i ==> #[trigger] sequencers@[k] == before[k],
            decreases SONG_STEPS - j,
        {
            let note: Note = data_to_note(data[i][j]);
            sequencers[i].set_note(j, note);
            j += 1;
        }
        assert(sequencers@[i as int].notes() =~= loaded_row(start[i as int].notes(), data@[i as int]@));
        i += 1;
    }
}

/// Turns every note of every sequencer into a rest in the third octave,
/// keeping the number of notes and all timing.
pub fn clear_song(sequencers: &mut Vec<Sequencer>)
    ensures
        final(sequencers)@.len() == old(sequencers)@.len(),
        forall|i: int| 0 <= i < old(sequencers)@.len() ==> {
            &&& #[trigger] final(sequencers)@[i].notes() == Seq::new(
                old(sequencers)@[i].notes().len(),
                |j: int| cleared_note(),
            )
            &&& same_timing(old(sequencers)@[i], final(sequencers)@[i])
        },
{
    let ghost start = sequencers@;
    let count: usize = sequencers.len();
    let mut i: usize = 0;
    while i < count
        invariant
            i <= count,
            count == start.len(),
            sequencers@.len() == start.len(),
            forall|k: int| 0 <= k < i ==> {
                &&& #[trigger] sequencers@[k].notes() == Seq::new(start[k].notes().len(), |j: int| cleared_note())
                &&& same_timing(start[k], sequencers@[k])
            },
            forall|k: int| i <= k < start.len() ==> #[trigger] sequencers@[k] == start[k],
        decreases count - i,
    {
        let ghost before = sequencers@;
        let steps: usize = sequencers[i].note_count();
        let mut j: usize = 0;
        while j < steps
            invariant
                j <= steps,
                i < count,
                count == start.len(),
                sequencers@.len() == start.len(),
                steps == start[i as int].notes().len(),
                sequencers@[i as int].notes().len() == steps,
                forall|m: int| 0 <= m < steps ==>
                    #[trigger] sequencers@[i as int].notes()[m] == (if m < j {
                        cleared_note()
                    } else {
                        start[i as int].notes()[m]
                    }),
                same_timing(start[i as int], sequencers@[i as int]),
                forall|k: int| 0 <= k < start.len() && k != i ==> #[trigger] sequencers@[k] == before[k],
            decreases steps - j,
        {
            sequencers[i].set_note(j, Note { octave: Octave::Third, key: Key::Rest });
            j += 1;
        }
        assert(sequencers@[i as int].notes() =~= Seq::new(start[i as int].notes().len(), |j: int| cleared_note()));
        i += 1;
    }
}

/// Reading back the integer a key is saved as gives the same key.
pub proof fn key_code_round_trip(key: Key)
    ensures
        key_of_code(key_code(key)) == key,
{
}

/// Reading back the integer an octave is saved as gives the same octave.
pub proof fn octave_code_round_trip(octave: Octave)
    ensures
        octave_of_code(octave_code(octave)) == octave,
{
}

/// Reading back the record a note is saved as gives the same note.
pub proof fn note_record_round_trip(note: Note)
    ensures
        note_of_record(note_record(note)) == note,
{
    key_code_round_trip(note.key);
    octave_code_round_trip(note.octave);
}

/// Loading into a sequencer the records that saving it produced leaves its
/// notes as they were.
pub proof fn song_round_trip(sequencer: Sequencer)
    requires
        sequencer.notes().len() >= SONG_STEPS,
    ensures
        loaded_row(sequencer.notes(), saved_row(sequencer)) == sequencer.notes(),
{
    assert forall|j: int| 0 <= j < sequencer.notes().len() implies #[trigger] loaded_row(
        sequencer.notes(),
        saved_row(sequencer),
    )[j] == sequencer.notes()[j] by {
        if j < SONG_STEPS {
            note_record_round_trip(sequencer.notes()[j]);
        }
    }
    assert(loaded_row(sequencer.notes(), saved_row(sequencer)) =~= sequencer.notes());
}

/// Every saved integer decodes to some key, and only the codes of the
/// twelve keys decode to something other than a rest.
pub proof fn key_codes_cover(i: i32)
    ensures
        (0 <= i <= 11) == (key_of_code(i) != Key::Rest),
        0 <= i <= 12 ==> key_code(key_of_code(i)) == i,
{
}

/// A note is saved with the same integers that `octave_to_int` and
/// `key_to_int` give, and a record is loaded through `int_to_octave` and
/// `int_to_key`: the saved octave is how many octaves the note lies above
/// the first, and a saved octave from 0 to 4 loads as the octave that many
/// octaves above the first (any other as the third).
pub proof fn records_use_the_integer_codes(note: Note, data: NoteData)
    ensures
        note_record(note) == (NoteData { octave: octave_code(note.octave), key: key_code(note.key) }),
        note_of_record(data) == (Note { octave: octave_of_code(data.octave), key: key_of_code(data.key) }),
        note_record(note).octave == octave_shift(note.octave),
        0 <= data.octave <= 4 ==> octave_shift(note_of_record(data).octave) == data.octave,
        !(0 <= data.octave <= 4) ==> note_of_record(data).octave == Octave::Third,
{
}

/// The twelve keys are saved as their positions in the scale counted from
/// C, each a different integer from 0 to 11, and a rest as 12.
pub proof fn key_codes_follow_the_scale(a: Key, b: Key)
    ensures
        key_code(Key::C) == 0 && key_code(Key::Cs) == 1 && key_code(Key::D) == 2,
        key_code(Key::Ds) == 3 && key_code(Key::E) == 4 && key_code(Key::F) == 5,
        key_code(Key::Fs) == 6 && key_code(Key::G) == 7 && key_code(Key::Gs) == 8,
        key_code(Key::A) == 9 && key_code(Key::As) == 10 && key_code(Key::B) == 11,
        key_code(Key::Rest) == 12,
        key_code(a) == key_code(b) ==> a == b,
{
}

} // verus!
