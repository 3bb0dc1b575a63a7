//! The diagram renderer: turns a chord name into the list of draw
//! primitives for a fretboard chart, one labeled marker per fretted string.

use crate::chords::allowed_chord;
use crate::chords::is_allowed;
use vstd::prelude::*;

verus! {

/// Grid spacing between neighbouring strings and frets, in diagram units.
pub const STRING_SPACE: u32 = 40;

/// Offset of the grid's origin from the diagram's corner, in diagram units.
pub const GRID_BASE: u32 = 50;

/// Radius of a finger marker, in diagram units.
pub const MARKER_RADIUS: u32 = 13;

/// One draw primitive: a circle of radius `radius` centred at (`x`, `y`),
/// labeled with the number of the finger that presses the string.
#[derive(Clone, Copy, PartialEq, Eq, Structural, Debug)]
pub struct Marker {
    pub x: u32,
    pub y: u32,
    pub radius: u32,
    pub finger: u8,
}

/// The chord name could not be resolved to a voicing: either it is not on
/// the allow-list, or the theory collaborator knows no playable voicing.
#[derive(Clone, Copy, PartialEq, Eq, Structural, Debug)]
pub struct UnknownChordError;

/// The voicing the chord-theory collaborator picks for a chord name on the
/// fixed C tuning: per string its fret and the finger that presses it, or
/// `None` when the name is not resolvable. A pure function of the name.
pub uninterp spec fn voicing_of(name: Seq<char>) -> Option<Seq<(u8, u8)>>;

/// Relies on ukebox: `Chord::from_str` parses the name, `Chord::voicings`
/// enumerates the playable voicings on the default (C-tuning) configuration
/// in a fixed sorted order, of which the first is kept, and `Voicing::frets`
/// and `Voicing::fingers_on_strings` read its four strings' frets and
/// fingers. All are pure functions of the name, so the result is named
/// `voicing_of(name@)`; a voicing always covers exactly the four strings.
#[verifier::external_body]
fn resolve_voicing(name: &str) -> (r: Option<Vec<(u8, u8)>>)
    ensures
        match r {
            Some(v) => voicing_of(name@) == Some(v@) && v@.len() == 4,
            None => voicing_of(name@) is None,
        },
{
    let chord: ukebox::Chord = match name.parse() {
        Ok(c) => c,
        Err(_) => return None,
    };
    let voicing = chord.voicings(ukebox::VoicingConfig::default()).next()?;
    let fingers = voicing.fingers_on_strings();
    Some(voicing.frets().zip(fingers.iter()).map(|(fret, finger)| (fret, *finger)).collect())
}

/// The marker for string `i` pressed at `fret` by `finger`.
pub open spec fn marker_at(i: int, fret: u8, finger: u8) -> Marker {
    Marker {
        x: (GRID_BASE + STRING_SPACE * i) as u32,
        y: (GRID_BASE + STRING_SPACE * fret) as u32,
        radius: MARKER_RADIUS,
        finger,
    }
}

/// The markers drawn for the first `n` strings of voicing `v`: open and
/// unplayed strings (fret 0) contribute none.
pub open spec fn markers_upto(v: Seq<(u8, u8)>, n: int) -> Seq<Marker>
    decreases n,
{
    if n <= 0 {
        Seq::empty()
    } else if v[n - 1].0 > 0 {
        markers_upto(v, n - 1) + seq![marker_at(n - 1, v[n - 1].0, v[n - 1].1)]
    } else {
        markers_upto(v, n - 1)
    }
}

/// All markers drawn for voicing `v`.
pub open spec fn markers_of(v: Seq<(u8, u8)>) -> Seq<Marker> {
    markers_upto(v, v.len() as int)
}

/// What `render` returns for a given name: the markers of the collaborator's
/// voicing, or `UnknownChordError` when the name is off the allow-list or
/// the collaborator does not resolve it.
pub open spec fn render_spec(name: Seq<char>) -> Result<Seq<Marker>, UnknownChordError> {
    if !allowed_chord(name) {
        Err(UnknownChordError)
    } else {
        match voicing_of(name) {
            Some(v) => Ok(markers_of(v)),
            None => Err(UnknownChordError),
        }
    }
}

/// The marker for one string of the diagram, or `None` when the string is
/// open or unplayed (fret 0): circle and label at a grid position computed
/// from the string's index and the fret number.
pub fn draw_marker(string_index: u32, fret: u8, finger: u8) -> (r: Option<Marker>)
    requires
        string_index < 4,
    ensures
        r == if fret > 0 {
            Some(marker_at(string_index as int, fret, finger))
        } else {
            None::<Marker>
        },
{
    if fret == 0 {
        return None;
    }
    let x: u32 = GRID_BASE + STRING_SPACE * string_index;
    let y: u32 = GRID_BASE + STRING_SPACE * (fret as u32);
    Some(Marker { x, y, radius: MARKER_RADIUS, finger })
}

/// Renders the fretboard diagram for `name`: exactly `render_spec(name@)`,
/// so the result is a pure function of the name, and every name off the
/// 42-entry allow-list fails with `UnknownChordError`.
pub fn render(name: &str) -> (r: Result<Vec<Marker>, UnknownChordError>)
    ensures
        match r {
            Ok(m) => render_spec(name@) == Ok::<Seq<Marker>, UnknownChordError>(m@),
            Err(e) => render_spec(name@) == Err::<Seq<Marker>, UnknownChordError>(e),
        },
{
    if !is_allowed(name) {
        return Err(UnknownChordError);
    }
    let voicing = match resolve_voicing(name) {
        Some(v) => v,
        None => {
            return Err(UnknownChordError);
        },
    };
    let mut markers: Vec<Marker> = Vec::new();
    let mut i: usize = 0;
    while i < voicing.len()
        invariant
            voicing@.len() == 4,
            i <= 4,
            markers@ == markers_upto(voicing@, i as int),
        decreases voicing@.len() - i,
    {
        let (fret, finger) = voicing[i];
        match draw_marker(i as u32, fret, finger) {
            Some(m) => markers.push(m),
            None => {},
        }
        i = i + 1;
    }
    Ok(markers)
}

/// Rendering is deterministic: two results for the same name are the same
/// marker list.
pub proof fn lemma_render_deterministic(name: Seq<char>, r1: Seq<Marker>, r2: Seq<Marker>)
    requires
        render_spec(name) == Ok::<Seq<Marker>, UnknownChordError>(r1),
        render_spec(name) == Ok::<Seq<Marker>, UnknownChordError>(r2),
    ensures
        r1 == r2,
{
}

} // verus!
