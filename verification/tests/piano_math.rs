use neothesia::piano_math::{partial_octave_notes, standard_88_key_notes, KeyKind};

#[test]
fn math_key_kinds() {
    assert!(KeyKind::Neutral.is_neutral());
    assert!(KeyKind::Sharp.is_sharp());
    assert!(!KeyKind::Sharp.is_neutral());
}

#[test]
fn partial_octave_keeps_the_range_in_order() {
    let notes = partial_octave_notes(9..12);
    let ids: Vec<u8> = notes.iter().map(|n| n.0).collect();
    assert_eq!(ids, vec![9, 10, 11]);
    assert!(notes[1].1.is_sharp());
    assert!(notes[0].1.is_neutral());
    assert_eq!(partial_octave_notes(0..1).len(), 1);
    assert_eq!(partial_octave_notes(0..12).len(), 12);
    assert_eq!(partial_octave_notes(5..5).len(), 0);
}

#[test]
fn standard_piano_notes() {
    let keys = standard_88_key_notes();
    assert_eq!(keys.len(), 88);
    let neutral = keys.iter().filter(|k| k.kind.is_neutral()).count();
    assert_eq!(neutral, 52);
    assert_eq!(keys[0].note_id, 9);
    assert_eq!(keys[87].note_id, 0);
    for (i, k) in keys.iter().enumerate() {
        assert_eq!(k.id, i);
    }
}
