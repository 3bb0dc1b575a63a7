use chord_trainer::chords::is_allowed;
use chord_trainer::session::{Model, Msg};

fn names(m: &Model) -> Vec<&str> {
    m.chords.iter().map(|s| s.as_str()).collect()
}

#[test]
fn defaults() {
    let m = Model::create();
    assert_eq!(m.interval_ms, 2000);
    assert_eq!(m.current_chord, "C");
    assert_eq!(names(&m), vec!["C", "F", "G7", "Am", "G", "D", "A"]);
    assert!(!m.chordimage);
    assert!(!m.metronome);
}

#[test]
fn allow_list_membership() {
    assert!(is_allowed("C"));
    assert!(is_allowed("G7"));
    assert!(is_allowed("Am7"));
    assert!(is_allowed("Fmaj7"));
    assert!(!is_allowed("Caug"));
    assert!(!is_allowed("Db"));
    assert!(!is_allowed(""));
    assert!(!is_allowed("c"));
}

#[test]
fn toggle_chord_removes_then_restores() {
    let mut m = Model::create();
    let e = m.update(Msg::ToggleChord("C".to_owned()));
    assert!(!m.chords.iter().any(|c| c == "C"));
    assert!(e.restart_ms.is_none());
    assert!(!e.play_click);
    m.update(Msg::ToggleChord("C".to_owned()));
    assert!(m.chords.iter().any(|c| c == "C"));
}

#[test]
fn toggle_chord_adds_new_name_once() {
    let mut m = Model::create();
    m.update(Msg::ToggleChord("Em7".to_owned()));
    assert_eq!(m.chords.iter().filter(|c| *c == "Em7").count(), 1);
    m.update(Msg::ToggleChord("Em7".to_owned()));
    assert_eq!(m.chords.iter().filter(|c| *c == "Em7").count(), 0);
}

#[test]
fn toggle_chord_ignores_unknown_name() {
    let mut m = Model::create();
    let before = names(&m).join(",");
    m.update(Msg::ToggleChord("Caug".to_owned()));
    assert_eq!(names(&m).join(","), before);
}

#[test]
fn toggle_chord_leaves_other_members_alone() {
    let mut m = Model::create();
    m.update(Msg::ToggleChord("G7".to_owned()));
    for kept in ["C", "F", "Am", "G", "D", "A"] {
        assert!(m.chords.iter().any(|c| c == kept));
    }
    assert!(!m.chords.iter().any(|c| c == "G7"));
}

#[test]
fn interval_two_increments_reach_2500() {
    let mut m = Model::create();
    let e1 = m.update(Msg::IncrementSeconds);
    assert_eq!(e1.restart_ms, Some(2250));
    let e2 = m.update(Msg::IncrementSeconds);
    assert_eq!(e2.restart_ms, Some(2500));
    assert_eq!(m.interval_ms, 2500);
}

#[test]
fn interval_floor_holds_at_500() {
    let mut m = Model::create();
    for _ in 0..6 {
        m.update(Msg::DecrementSeconds);
    }
    assert_eq!(m.interval_ms, 500);
    let e = m.update(Msg::DecrementSeconds);
    assert_eq!(m.interval_ms, 500);
    assert_eq!(e.restart_ms, Some(500));
}

#[test]
fn tick_with_picks_from_active_set() {
    let mut m = Model::create();
    let e = m.tick_with(11);
    assert_eq!(m.current_chord, "G");
    assert!(e.restart_ms.is_none());
    let mut m2 = Model::create();
    m2.tick_with(2);
    assert_eq!(m2.current_chord, "G7");
}

#[test]
fn tick_picks_member_of_active_set() {
    let mut m = Model::create();
    for _ in 0..20 {
        m.update(Msg::Tick);
        let cur = m.current_chord.clone();
        assert!(m.chords.iter().any(|c| *c == cur));
    }
}

#[test]
fn tick_moves_to_the_only_active_chord() {
    let mut m = Model::create();
    for name in ["C", "F", "G7", "Am", "G", "A"] {
        m.update(Msg::ToggleChord(name.to_owned()));
    }
    assert_eq!(m.chords.len(), 1);
    m.update(Msg::Tick);
    assert_eq!(m.current_chord, "D");
}

#[test]
fn tick_on_empty_set_keeps_current_chord() {
    let mut m = Model::create();
    for name in ["C", "F", "G7", "Am", "G", "D", "A"] {
        m.update(Msg::ToggleChord(name.to_owned()));
    }
    assert!(m.chords.is_empty());
    let e = m.update(Msg::Tick);
    assert_eq!(m.current_chord, "C");
    assert!(!e.play_click);
    m.tick_with(5);
    assert_eq!(m.current_chord, "C");
}

#[test]
fn metronome_clicks_exactly_when_enabled() {
    let mut m = Model::create();
    m.update(Msg::ToggleMetronome);
    assert!(m.metronome);
    let e1 = m.update(Msg::Tick);
    assert!(e1.play_click);
    assert!(e1.restart_ms.is_none());
    m.update(Msg::ToggleMetronome);
    assert!(!m.metronome);
    let e2 = m.update(Msg::Tick);
    assert!(!e2.play_click);
}

#[test]
fn diagram_toggle_flips_flag_only() {
    let mut m = Model::create();
    let e = m.update(Msg::ToggleChordImage);
    assert!(m.chordimage);
    assert!(e.restart_ms.is_none());
    assert!(!e.play_click);
    assert_eq!(m.interval_ms, 2000);
    assert_eq!(names(&m), vec!["C", "F", "G7", "Am", "G", "D", "A"]);
    m.update(Msg::ToggleChordImage);
    assert!(!m.chordimage);
}
