//! Session feedback tones.
//!
//! The speaker is driven by a queue of actions; the driver that owns the
//! hardware drains the queue outside the library. What the library fixes
//! is the catalog of tunes and exactly which notes each tune plays.

use vstd::prelude::*;

verus! {

/// Milliseconds each note of a tune is held.
pub const NOTE_MS: u32 = 200;

/// The pitches the feedback tunes use.
#[derive(Clone, Copy, PartialEq, Eq, Structural, Debug)]
pub enum Pitch {
    /// Middle C.
    C4,
    /// The G above middle C.
    G4,
}

/// One note: a pitch held for a duration.
#[derive(Clone, Copy, PartialEq, Eq, Structural, Debug)]
pub struct Note {
    pub pitch: Pitch,
    pub duration_ms: u32,
}

/// The feedback tunes a session plays.
#[derive(Clone, Copy, PartialEq, Eq, Structural, Debug)]
pub enum Tune {
    /// A peer connected: a rising pair of notes.
    Connect,
    /// The peer is gone: the same pair, falling.
    Disconnect,
}

/// A request queued to the speaker driver.
pub enum AudioAction {
    /// Play one note.
    PlayNote(Note),
    /// Play a whole tune.
    PlayTune(Tune),
}

/// The notes a tune plays, in order: connecting rises from C to G,
/// disconnecting falls from G back to C, each note held the same time.
pub fn tune_notes(tune: Tune) -> (notes: Vec<Note>)
    ensures
        notes@ == (match tune {
            Tune::Connect => seq![
                Note { pitch: Pitch::C4, duration_ms: NOTE_MS },
                Note { pitch: Pitch::G4, duration_ms: NOTE_MS },
            ],
            Tune::Disconnect => seq![
                Note { pitch: Pitch::G4, duration_ms: NOTE_MS },
                Note { pitch: Pitch::C4, duration_ms: NOTE_MS },
            ],
        }),
{
    let mut notes: Vec<Note> = Vec::new();
    match tune {
        Tune::Connect => {
            notes.push(Note { pitch: Pitch::C4, duration_ms: NOTE_MS });
            notes.push(Note { pitch: Pitch::G4, duration_ms: NOTE_MS });
        },
        Tune::Disconnect => {
            notes.push(Note { pitch: Pitch::G4, duration_ms: NOTE_MS });
            notes.push(Note { pitch: Pitch::C4, duration_ms: NOTE_MS });
        },
    }
    assert(notes@ =~= (match tune {
        Tune::Connect => seq![
            Note { pitch: Pitch::C4, duration_ms: NOTE_MS },
            Note { pitch: Pitch::G4, duration_ms: NOTE_MS },
        ],
        Tune::Disconnect => seq![
            Note { pitch: Pitch::G4, duration_ms: NOTE_MS },
            Note { pitch: Pitch::C4, duration_ms: NOTE_MS },
        ],
    }));
    notes
}

/// The notes a queued action plays: a single note plays itself, a tune
/// plays its catalog sequence.
pub fn action_notes(action: &AudioAction) -> (notes: Vec<Note>)
    ensures
        notes@ == (match action {
            AudioAction::PlayNote(n) => seq![*n],
            AudioAction::PlayTune(t) => (match t {
                Tune::Connect => seq![
                    Note { pitch: Pitch::C4, duration_ms: NOTE_MS },
                    Note { pitch: Pitch::G4, duration_ms: NOTE_MS },
                ],
                Tune::Disconnect => seq![
                    Note { pitch: Pitch::G4, duration_ms: NOTE_MS },
                    Note { pitch: Pitch::C4, duration_ms: NOTE_MS },
                ],
            }),
        }),
{
    match action {
        AudioAction::PlayNote(n) => {
            let mut notes: Vec<Note> = Vec::new();
            notes.push(*n);
            assert(notes@ =~= seq![*n]);
            notes
        },
        AudioAction::PlayTune(t) => tune_notes(*t),
    }
}

} // verus!
