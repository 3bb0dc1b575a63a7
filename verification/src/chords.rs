//! The fixed allow-list of chord names the trainer accepts.

use vstd::prelude::*;

verus! {

/// A chord name is accepted by the trainer iff it is one of the 42 canonical
/// names: the seven naturals C..B, each plain and with the suffixes
/// 7, m, m7, 6 and maj7.
pub open spec fn allowed_chord(n: Seq<char>) -> bool {
    ||| n == "C"@
    ||| n == "D"@
    ||| n == "E"@
    ||| n == "F"@
    ||| n == "G"@
    ||| n == "A"@
    ||| n == "B"@
    ||| n == "C7"@
    ||| n == "D7"@
    ||| n == "E7"@
    ||| n == "F7"@
    ||| n == "G7"@
    ||| n == "A7"@
    ||| n == "B7"@
    ||| n == "Cm"@
    ||| n == "Dm"@
    ||| n == "Em"@
    ||| n == "Fm"@
    ||| n == "Gm"@
    ||| n == "Am"@
    ||| n == "Bm"@
    ||| n == "Cm7"@
    ||| n == "Dm7"@
    ||| n == "Em7"@
    ||| n == "Fm7"@
    ||| n == "Gm7"@
    ||| n == "Am7"@
    ||| n == "Bm7"@
    ||| n == "C6"@
    ||| n == "D6"@
    ||| n == "E6"@
    ||| n == "F6"@
    ||| n == "G6"@
    ||| n == "A6"@
    ||| n == "B6"@
    ||| n == "Cmaj7"@
    ||| n == "Dmaj7"@
    ||| n == "Emaj7"@
    ||| n == "Fmaj7"@
    ||| n == "Gmaj7"@
    ||| n == "Amaj7"@
    ||| n == "Bmaj7"@
}

/// Decides membership in the allow-list.
pub fn is_allowed(name: &str) -> (b: bool)
    ensures
        b == allowed_chord(name@),
{
    let n = name.to_owned();
    n.eq(&"C".to_owned()) || n.eq(&"D".to_owned()) || n.eq(&"E".to_owned())
        || n.eq(&"F".to_owned()) || n.eq(&"G".to_owned()) || n.eq(&"A".to_owned())
        || n.eq(&"B".to_owned()) || n.eq(&"C7".to_owned()) || n.eq(&"D7".to_owned())
        || n.eq(&"E7".to_owned()) || n.eq(&"F7".to_owned()) || n.eq(&"G7".to_owned())
        || n.eq(&"A7".to_owned()) || n.eq(&"B7".to_owned()) || n.eq(&"Cm".to_owned())
        || n.eq(&"Dm".to_owned()) || n.eq(&"Em".to_owned()) || n.eq(&"Fm".to_owned())
        || n.eq(&"Gm".to_owned()) || n.eq(&"Am".to_owned()) || n.eq(&"Bm".to_owned())
        || n.eq(&"Cm7".to_owned()) || n.eq(&"Dm7".to_owned()) || n.eq(&"Em7".to_owned())
        || n.eq(&"Fm7".to_owned()) || n.eq(&"Gm7".to_owned()) || n.eq(&"Am7".to_owned())
        || n.eq(&"Bm7".to_owned()) || n.eq(&"C6".to_owned()) || n.eq(&"D6".to_owned())
        || n.eq(&"E6".to_owned()) || n.eq(&"F6".to_owned()) || n.eq(&"G6".to_owned())
        || n.eq(&"A6".to_owned()) || n.eq(&"B6".to_owned()) || n.eq(&"Cmaj7".to_owned())
        || n.eq(&"Dmaj7".to_owned()) || n.eq(&"Emaj7".to_owned()) || n.eq(&"Fmaj7".to_owned())
        || n.eq(&"Gmaj7".to_owned()) || n.eq(&"Amaj7".to_owned()) || n.eq(&"Bmaj7".to_owned())
}

} // verus!
