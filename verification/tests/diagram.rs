use chord_trainer::diagram::{draw_marker, render, Marker, UnknownChordError};

#[test]
fn render_c_gives_one_marker_on_the_fourth_string() {
    let markers = render("C").unwrap();
    assert_eq!(markers, vec![Marker { x: 170, y: 170, radius: 13, finger: 3 }]);
}

#[test]
fn render_is_deterministic() {
    let a = render("C").unwrap();
    let b = render("C").unwrap();
    assert_eq!(a, b);
    let c = render("Gm7").unwrap();
    let d = render("Gm7").unwrap();
    assert_eq!(c, d);
}

#[test]
fn render_rejects_names_off_the_allow_list() {
    assert_eq!(render("Zz"), Err(UnknownChordError));
    assert_eq!(render(""), Err(UnknownChordError));
    // Resolvable by the theory collaborator, but not allow-listed.
    assert_eq!(render("Caug"), Err(UnknownChordError));
    assert_eq!(render("Db7"), Err(UnknownChordError));
}

#[test]
fn render_resolves_every_allow_listed_name() {
    let all = [
        "C", "D", "E", "F", "G", "A", "B", "C7", "D7", "E7", "F7", "G7", "A7", "B7", "Cm", "Dm",
        "Em", "Fm", "Gm", "Am", "Bm", "Cm7", "Dm7", "Em7", "Fm7", "Gm7", "Am7", "Bm7", "C6", "D6",
        "E6", "F6", "G6", "A6", "B6", "Cmaj7", "Dmaj7", "Emaj7", "Fmaj7", "Gmaj7", "Amaj7",
        "Bmaj7",
    ];
    for name in all {
        let markers = render(name).unwrap();
        // At most one marker per string.
        assert!(markers.len() <= 4);
        for m in &markers {
            assert_eq!(m.radius, 13);
            assert!(m.x >= 50 && m.x <= 170 && (m.x - 50) % 40 == 0);
            assert!(m.y >= 90);
        }
    }
}

#[test]
fn draw_marker_skips_open_strings() {
    assert_eq!(draw_marker(0, 0, 0), None);
    assert_eq!(draw_marker(3, 0, 2), None);
}

#[test]
fn draw_marker_places_fretted_strings_on_the_grid() {
    assert_eq!(draw_marker(2, 1, 1), Some(Marker { x: 130, y: 90, radius: 13, finger: 1 }));
    assert_eq!(draw_marker(0, 12, 4), Some(Marker { x: 50, y: 530, radius: 13, finger: 4 }));
}
