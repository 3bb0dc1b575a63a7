//! The practice-session state machine: the selected chords, the timer
//! period, the current chord and the display toggles, together with the
//! operations that keep them consistent.

use crate::chords::allowed_chord;
use crate::chords::is_allowed;
use rand::seq::SliceRandom;
use vstd::prelude::*;

verus! {

/// A user intent or the recurring timer's fire event.
pub enum Msg {
    IncrementSeconds,
    DecrementSeconds,
    ToggleChord(String),
    ToggleChordImage,
    ToggleMetronome,
    Tick,
}

/// What the caller of `update` has to carry out after the state change:
/// replace the recurring timer when a new period is given, and play one
/// metronome click when asked.
pub struct Effect {
    pub restart_ms: Option<u32>,
    pub play_click: bool,
}

/// The session state. The timer period is held in milliseconds; the user
/// steps it by quarter seconds, so every reachable value is a whole number
/// of milliseconds.
pub struct Model {
    pub interval_ms: u32,
    pub current_chord: String,
    pub chords: Vec<String>,
    pub chordimage: bool,
    pub metronome: bool,
}

/// The default timer period: two seconds.
pub const DEFAULT_INTERVAL_MS: u32 = 2000;

/// The smallest timer period the user can reach: half a second.
pub const MIN_INTERVAL_MS: u32 = 500;

/// One interval step: a quarter second.
pub const INTERVAL_STEP_MS: u32 = 250;

/// `name` occurs among the active chords.
pub open spec fn has_chord(cs: Seq<String>, name: Seq<char>) -> bool {
    exists|i: int| 0 <= i < cs.len() && cs[i]@ == name
}

/// No chord name occurs twice in the active list.
pub open spec fn distinct_chords(cs: Seq<String>) -> bool {
    forall|i: int, j: int| 0 <= i < j < cs.len() ==> cs[i]@ != cs[j]@
}

impl Model {
    /// The session invariant: every active chord and the current chord are
    /// allow-listed, no active chord is listed twice, and the timer period
    /// sits on the quarter-second grid at or above the half-second floor.
    pub open spec fn wf(self) -> bool {
        &&& distinct_chords(self.chords@)
        &&& forall|i: int| 0 <= i < self.chords@.len() ==> allowed_chord(#[trigger] self.chords@[i]@)
        &&& allowed_chord(self.current_chord@)
        &&& self.interval_ms >= MIN_INTERVAL_MS
        &&& self.interval_ms % INTERVAL_STEP_MS == 0
    }

    /// The chord names seeded into a fresh session, in order.
    pub open spec fn default_chords() -> Seq<Seq<char>> {
        seq!["C"@, "F"@, "G7"@, "Am"@, "G"@, "D"@, "A"@]
    }

    /// Starts a session with the defaults: a two-second period, the seven
    /// seeded chords, "C" on display, diagram and metronome off. The caller
    /// starts the recurring timer at `interval_ms`.
    pub fn create() -> (m: Model)
        ensures
            m.wf(),
            m.interval_ms == DEFAULT_INTERVAL_MS,
            m.current_chord@ == "C"@,
            m.chords@.len() == Model::default_chords().len(),
            forall|i: int|
                0 <= i < m.chords@.len() ==> m.chords@[i]@ == #[trigger] Model::default_chords()[i],
            !m.chordimage,
            !m.metronome,
    {
        let mut chords: Vec<String> = Vec::new();
        chords.push("C".to_owned());
        chords.push("F".to_owned());
        chords.push("G7".to_owned());
        chords.push("Am".to_owned());
        chords.push("G".to_owned());
        chords.push("D".to_owned());
        chords.push("A".to_owned());
        let m = Model {
            interval_ms: DEFAULT_INTERVAL_MS,
            current_chord: "C".to_owned(),
            chords,
            chordimage: false,
            metronome: false,
        };
        proof {
            reveal_strlit("C");
            reveal_strlit("F");
            reveal_strlit("G7");
            reveal_strlit("Am");
            reveal_strlit("G");
            reveal_strlit("D");
            reveal_strlit("A");
            assert("C"@.len() == 1 && "C"@[0] == 'C');
            assert("F"@.len() == 1 && "F"@[0] == 'F');
            assert("G7"@.len() == 2 && "G7"@[0] == 'G' && "G7"@[1] == '7');
            assert("Am"@.len() == 2 && "Am"@[0] == 'A' && "Am"@[1] == 'm');
            assert("G"@.len() == 1 && "G"@[0] == 'G');
            assert("D"@.len() == 1 && "D"@[0] == 'D');
            assert("A"@.len() == 1 && "A"@[0] == 'A');
            assert forall|i: int, j: int|
                0 <= i < j < m.chords@.len() implies m.chords@[i]@ != m.chords@[j]@ by {
                let u = m.chords@[i]@;
                let v = m.chords@[j]@;
                if i == 0 {
                    assert(u == "C"@);
                } else if i == 1 {
                    assert(u == "F"@);
                } else if i == 2 {
                    assert(u == "G7"@);
                } else if i == 3 {
                    assert(u == "Am"@);
                } else if i == 4 {
                    assert(u == "G"@);
                } else {
                    assert(u == "D"@);
                }
                if j == 1 {
                    assert(v == "F"@);
                } else if j == 2 {
                    assert(v == "G7"@);
                } else if j == 3 {
                    assert(v == "Am"@);
                } else if j == 4 {
                    assert(v == "G"@);
                } else if j == 5 {
                    assert(v == "D"@);
                } else {
                    assert(v == "A"@);
                }
            }
        }
        m
    }

    /// Toggles `name` in or out of the active set: removes it when present,
    /// inserts it when absent. Membership of every other name is untouched.
    pub fn toggle_chord(&mut self, name: String)
        requires
            old(self).wf(),
            allowed_chord(name@),
        ensures
            final(self).wf(),
            has_chord(final(self).chords@, name@) <==> !has_chord(old(self).chords@, name@),
            forall|n: Seq<char>|
                n != name@ ==> (has_chord(final(self).chords@, n) <==> has_chord(
                    old(self).chords@,
                    n,
                )),
            final(self).current_chord == old(self).current_chord,
            final(self).interval_ms == old(self).interval_ms,
            final(self).chordimage == old(self).chordimage,
            final(self).metronome == old(self).metronome,
    {
        let ghost old_cs = self.chords@;
        match find_chord(&self.chords, &name) {
            Some(i) => {
                self.chords.remove(i);
                proof {
                    old_cs.remove_ensures(i as int);
                    let cs = self.chords@;
                    assert forall|j: int| 0 <= j < cs.len() implies cs[j]@ != name@ by {
                        if j < i {
                            assert(cs[j] == old_cs[j]);
                            assert(old_cs[j]@ != old_cs[i as int]@);
                        } else {
                            assert(cs[j] == old_cs[j + 1]);
                            assert(old_cs[i as int]@ != old_cs[j + 1]@);
                        }
                    }
                    assert forall|n: Seq<char>|
                        n != name@ implies (has_chord(cs, n) <==> has_chord(old_cs, n)) by {
                        if has_chord(cs, n) {
                            let j = choose|j: int| 0 <= j < cs.len() && cs[j]@ == n;
                            if j < i {
                                assert(old_cs[j]@ == n);
                            } else {
                                assert(old_cs[j + 1]@ == n);
                            }
                        }
                        if has_chord(old_cs, n) {
                            let j = choose|j: int| 0 <= j < old_cs.len() && old_cs[j]@ == n;
                            if j < i {
                                assert(cs[j]@ == n);
                            } else {
                                assert(j != i);
                                assert(cs[j - 1]@ == n);
                            }
                        }
                    }
                    assert forall|p: int, q: int|
                        0 <= p < q < cs.len() implies cs[p]@ != cs[q]@ by {
                        let p0: int = if p < i { p } else { p + 1 };
                        let q0: int = if q < i { q } else { q + 1 };
                        assert(cs[p] == old_cs[p0]);
                        assert(cs[q] == old_cs[q0]);
                        assert(old_cs[p0]@ != old_cs[q0]@);
                    }
                    assert forall|j: int| 0 <= j < cs.len() implies allowed_chord(
                        #[trigger] cs[j]@,
                    ) by {
                        if j < i {
                            assert(cs[j] == old_cs[j]);
                        } else {
                            assert(cs[j] == old_cs[j + 1]);
                        }
                    }
                }
            },
            None => {
                self.chords.push(name);
                proof {
                    let cs = self.chords@;
                    assert(cs[old_cs.len() as int]@ == name@);
                    assert(has_chord(cs, name@));
                    assert forall|n: Seq<char>|
                        n != name@ implies (has_chord(cs, n) <==> has_chord(old_cs, n)) by {
                        if has_chord(cs, n) {
                            let j = choose|j: int| 0 <= j < cs.len() && cs[j]@ == n;
                            assert(j < old_cs.len());
                            assert(old_cs[j]@ == n);
                        }
                        if has_chord(old_cs, n) {
                            let j = choose|j: int| 0 <= j < old_cs.len() && old_cs[j]@ == n;
                            assert(cs[j]@ == n);
                        }
                    }
                    assert forall|p: int, q: int|
                        0 <= p < q < cs.len() implies cs[p]@ != cs[q]@ by {
                        if q < old_cs.len() {
                            assert(old_cs[p]@ != old_cs[q]@);
                        } else {
                            assert(cs[q]@ == name@);
                            assert(cs[p] == old_cs[p]);
                        }
                    }
                }
            },
        }
    }

    /// Steps the timer period up by a quarter second (left unchanged on the
    /// far edge of the machine range) and asks the caller to restart the
    /// timer at the resulting period.
    pub fn increment_seconds(&mut self) -> (e: Effect)
        requires
            old(self).wf(),
        ensures
            final(self).wf(),
            old(self).interval_ms + INTERVAL_STEP_MS <= u32::MAX ==> final(self).interval_ms
                == old(self).interval_ms + INTERVAL_STEP_MS,
            old(self).interval_ms + INTERVAL_STEP_MS > u32::MAX ==> final(self).interval_ms
                == old(self).interval_ms,
            final(self).chords@ == old(self).chords@,
            final(self).current_chord == old(self).current_chord,
            final(self).chordimage == old(self).chordimage,
            final(self).metronome == old(self).metronome,
            e.restart_ms == Some(final(self).interval_ms),
            !e.play_click,
    {
        if self.interval_ms <= u32::MAX - INTERVAL_STEP_MS {
            self.interval_ms = self.interval_ms + INTERVAL_STEP_MS;
        }
        Effect { restart_ms: Some(self.interval_ms), play_click: false }
    }

    /// Steps the timer period down by a quarter second, never below the
    /// half-second floor, and asks the caller to restart the timer at the
    /// resulting period.
    pub fn decrement_seconds(&mut self) -> (e: Effect)
        requires
            old(self).wf(),
        ensures
            final(self).wf(),
            old(self).interval_ms >= MIN_INTERVAL_MS + INTERVAL_STEP_MS ==> final(self).interval_ms == old(self).interval_ms - INTERVAL_STEP_MS,
            old(self).interval_ms < MIN_INTERVAL_MS + INTERVAL_STEP_MS ==> final(self).interval_ms
                == old(self).interval_ms,
            final(self).chords@ == old(self).chords@,
            final(self).current_chord == old(self).current_chord,
            final(self).chordimage == old(self).chordimage,
            final(self).metronome == old(self).metronome,
            e.restart_ms == Some(final(self).interval_ms),
            !e.play_click,
    {
        if self.interval_ms >= MIN_INTERVAL_MS + INTERVAL_STEP_MS {
            self.interval_ms = self.interval_ms - INTERVAL_STEP_MS;
        }
        Effect { restart_ms: Some(self.interval_ms), play_click: false }
    }

    /// Flips whether the fretboard diagram is shown.
    pub fn toggle_chord_image(&mut self)
        requires
            old(self).wf(),
        ensures
            final(self).wf(),
            final(self).chordimage == !old(self).chordimage,
            final(self).chords@ == old(self).chords@,
            final(self).current_chord == old(self).current_chord,
            final(self).interval_ms == old(self).interval_ms,
            final(self).metronome == old(self).metronome,
    {
        self.chordimage = !self.chordimage;
    }

    /// Flips whether a metronome click is played on each advance.
    pub fn toggle_metronome(&mut self)
        requires
            old(self).wf(),
        ensures
            final(self).wf(),
            final(self).metronome == !old(self).metronome,
            final(self).chords@ == old(self).chords@,
            final(self).current_chord == old(self).current_chord,
            final(self).interval_ms == old(self).interval_ms,
            final(self).chordimage == old(self).chordimage,
    {
        self.metronome = !self.metronome;
    }

    /// Advances to the active chord at `pick` (reduced modulo the active
    /// count): the deterministic counterpart of `tick` for an injected pick.
    /// A no-op on an empty active set. Reports whether a click is owed.
    pub fn tick_with(&mut self, pick: usize) -> (e: Effect)
        requires
            old(self).wf(),
        ensures
            final(self).wf(),
            final(self).chords@ == old(self).chords@,
            old(self).chords@.len() > 0 ==> final(self).current_chord@ == old(self).chords@[pick
                as int % old(self).chords@.len() as int]@,
            old(self).chords@.len() == 0 ==> final(self).current_chord@ == old(
                self,
            ).current_chord@,
            final(self).interval_ms == old(self).interval_ms,
            final(self).chordimage == old(self).chordimage,
            final(self).metronome == old(self).metronome,
            e.play_click == old(self).metronome,
            e.restart_ms is None,
    {
        if self.chords.len() > 0 {
            let idx: usize = pick % self.chords.len();
            self.current_chord = self.chords[idx].clone();
        }
        Effect { restart_ms: None, play_click: self.metronome }
    }

    /// Picks the new current chord at random from the active set: a no-op
    /// when the set is empty. Reports whether a metronome click is owed;
    /// nothing else of the state changes.
    pub fn tick(&mut self) -> (e: Effect)
        requires
            old(self).wf(),
        ensures
            final(self).wf(),
            final(self).chords@ == old(self).chords@,
            old(self).chords@.len() > 0 ==> has_chord(
                old(self).chords@,
                final(self).current_chord@,
            ),
            old(self).chords@.len() == 0 ==> final(self).current_chord@ == old(
                self,
            ).current_chord@,
            final(self).interval_ms == old(self).interval_ms,
            final(self).chordimage == old(self).chordimage,
            final(self).metronome == old(self).metronome,
            e.play_click == old(self).metronome,
            e.restart_ms is None,
    {
        match choose_chord(&self.chords) {
            Some(c) => {
                let picked = c.clone();
                self.current_chord = picked;
            },
            None => {},
        }
        Effect { restart_ms: None, play_click: self.metronome }
    }

    /// Applies one user intent or timer event and returns what the caller
    /// must carry out: restart the timer when a period is given, play one
    /// click when asked.
    pub fn update(&mut self, msg: Msg) -> (e: Effect)
        requires
            old(self).wf(),
        ensures
            final(self).wf(),
            match msg {
                Msg::IncrementSeconds => {
                    &&& (old(self).interval_ms + INTERVAL_STEP_MS <= u32::MAX ==> final(self).interval_ms == old(self).interval_ms + INTERVAL_STEP_MS)
                    &&& (old(self).interval_ms + INTERVAL_STEP_MS > u32::MAX ==> final(self).interval_ms == old(self).interval_ms)
                    &&& final(self).chords@ == old(self).chords@
                    &&& final(self).current_chord == old(self).current_chord
                    &&& final(self).chordimage == old(self).chordimage
                    &&& final(self).metronome == old(self).metronome
                    &&& e.restart_ms == Some(final(self).interval_ms)
                    &&& !e.play_click
                },
                Msg::DecrementSeconds => {
                    &&& (old(self).interval_ms >= MIN_INTERVAL_MS + INTERVAL_STEP_MS ==> final(self).interval_ms == old(self).interval_ms - INTERVAL_STEP_MS)
                    &&& (old(self).interval_ms < MIN_INTERVAL_MS + INTERVAL_STEP_MS ==> final(self).interval_ms == old(self).interval_ms)
                    &&& final(self).chords@ == old(self).chords@
                    &&& final(self).current_chord == old(self).current_chord
                    &&& final(self).chordimage == old(self).chordimage
                    &&& final(self).metronome == old(self).metronome
                    &&& e.restart_ms == Some(final(self).interval_ms)
                    &&& !e.play_click
                },
                Msg::ToggleChord(name) => {
                    &&& (allowed_chord(name@) ==> (has_chord(final(self).chords@, name@)
                        <==> !has_chord(old(self).chords@, name@)))
                    &&& (allowed_chord(name@) ==> forall|n: Seq<char>|
                        n != name@ ==> (has_chord(final(self).chords@, n) <==> has_chord(
                            old(self).chords@,
                            n,
                        )))
                    &&& (!allowed_chord(name@) ==> final(self).chords@ == old(self).chords@)
                    &&& final(self).current_chord == old(self).current_chord
                    &&& final(self).interval_ms == old(self).interval_ms
                    &&& final(self).chordimage == old(self).chordimage
                    &&& final(self).metronome == old(self).metronome
                    &&& e.restart_ms is None
                    &&& !e.play_click
                },
                Msg::ToggleChordImage => {
                    &&& final(self).chordimage == !old(self).chordimage
                    &&& final(self).chords@ == old(self).chords@
                    &&& final(self).current_chord == old(self).current_chord
                    &&& final(self).interval_ms == old(self).interval_ms
                    &&& final(self).metronome == old(self).metronome
                    &&& e.restart_ms is None
                    &&& !e.play_click
                },
                Msg::ToggleMetronome => {
                    &&& final(self).metronome == !old(self).metronome
                    &&& final(self).chords@ == old(self).chords@
                    &&& final(self).current_chord == old(self).current_chord
                    &&& final(self).interval_ms == old(self).interval_ms
                    &&& final(self).chordimage == old(self).chordimage
                    &&& e.restart_ms is None
                    &&& !e.play_click
                },
                Msg::Tick => {
                    &&& (old(self).chords@.len() > 0 ==> has_chord(
                        old(self).chords@,
                        final(self).current_chord@,
                    ))
                    &&& (old(self).chords@.len() == 0 ==> final(self).current_chord@ == old(
                        self,
                    ).current_chord@)
                    &&& final(self).chords@ == old(self).chords@
                    &&& final(self).interval_ms == old(self).interval_ms
                    &&& final(self).chordimage == old(self).chordimage
                    &&& final(self).metronome == old(self).metronome
                    &&& e.play_click == old(self).metronome
                    &&& e.restart_ms is None
                },
            },
    {
        match msg {
            Msg::IncrementSeconds => self.increment_seconds(),
            Msg::DecrementSeconds => self.decrement_seconds(),
            Msg::ToggleChord(name) => {
                if is_allowed(name.as_str()) {
                    self.toggle_chord(name);
                }
                Effect { restart_ms: None, play_click: false }
            },
            Msg::ToggleChordImage => {
                self.toggle_chord_image();
                Effect { restart_ms: None, play_click: false }
            },
            Msg::ToggleMetronome => {
                self.toggle_metronome();
                Effect { restart_ms: None, play_click: false }
            },
            Msg::Tick => self.tick(),
        }
    }
}

/// Finds the position of `name` in the list, if it occurs.
fn find_chord(chords: &Vec<String>, name: &String) -> (r: Option<usize>)
    ensures
        match r {
            Some(i) => i < chords@.len() && chords@[i as int]@ == name@,
            None => !has_chord(chords@, name@),
        },
{
    let mut i: usize = 0;
    while i < chords.len()
        invariant
            i <= chords@.len(),
            forall|j: int| 0 <= j < i ==> chords@[j]@ != name@,
        decreases chords@.len() - i,
    {
        if chords[i].eq(name) {
            return Some(i);
        }
        i = i + 1;
    }
    None
}

/// Relies on rand's `SliceRandom::choose`, driven by the thread-local
/// generator: it returns `None` iff the slice is empty, and otherwise `Some`
/// of a reference to one of the slice's elements.
#[verifier::external_body]
fn choose_chord(chords: &Vec<String>) -> (r: Option<&String>)
    ensures
        match r {
            Some(c) => exists|i: int| 0 <= i < chords@.len() && chords@[i]@ == c@,
            None => chords@.len() == 0,
        },
{
    chords.choose(&mut rand::thread_rng())
}

} // verus!
