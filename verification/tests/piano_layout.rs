use neothesia::piano_layout::range::{KeyBound, KeyId};
use neothesia::piano_layout::{
    layout_key_slots, octave_key_kind, split_range_by_octaves, KeyKind, KeyboardRange,
};

#[test]
fn standard_keyboard_has_88_keys() {
    let r = KeyboardRange::standard_88_keys();
    assert_eq!(r.start(), 21);
    assert_eq!(r.end(), 109);
    assert_eq!(r.count(), 88);
    assert_eq!(r.white_count(), 52);
    assert_eq!(r.black_count(), 36);
    assert_eq!(r.range(), 21..109);
}

#[test]
fn default_range_is_the_standard_keyboard() {
    let r = KeyboardRange::default();
    assert_eq!((r.start(), r.end()), (21, 109));
}

#[test]
fn range_bounds_of_every_kind() {
    let r = KeyboardRange::new(KeyBound::Excluded(59), KeyBound::Excluded(72));
    assert_eq!((r.start(), r.end()), (60, 72));
    assert_eq!(r.count(), 12);
    assert_eq!(r.white_count(), 7);
    assert_eq!(r.black_count(), 5);

    let r = KeyboardRange::new(KeyBound::Unbounded, KeyBound::Unbounded);
    assert_eq!((r.start(), r.end()), (0, 128));
    assert_eq!(r.count(), 128);
}

#[test]
fn range_is_cut_at_the_top_of_midi() {
    let r = KeyboardRange::new(KeyBound::Included(100), KeyBound::Included(200));
    assert_eq!(r.end(), 128);
    assert_eq!(r.count(), 28);
}

#[test]
fn empty_and_reversed_ranges_have_no_keys() {
    let r = KeyboardRange::new(KeyBound::Included(70), KeyBound::Excluded(60));
    assert_eq!(r.count(), 0);
    assert_eq!(r.white_count(), 0);
    assert!(!r.contains(65));
    let r = KeyboardRange::new(KeyBound::Included(200), KeyBound::Unbounded);
    assert_eq!(r.count(), 0);
}

#[test]
fn keys_are_listed_in_order_and_by_colour() {
    let r = KeyboardRange::new(KeyBound::Included(60), KeyBound::Excluded(65));
    let all: Vec<KeyId> = r.iter().copied().collect();
    assert_eq!(all, vec![KeyId(60), KeyId(61), KeyId(62), KeyId(63), KeyId(64)]);
    let white: Vec<KeyId> = r.white_iter().copied().collect();
    assert_eq!(white, vec![KeyId(60), KeyId(62), KeyId(64)]);
    let black: Vec<KeyId> = r.black_iter().copied().collect();
    assert_eq!(black, vec![KeyId(61), KeyId(63)]);
    assert!(r.contains(60));
    assert!(r.contains(64));
    assert!(!r.contains(65));
    assert!(!r.contains(59));
}

#[test]
fn cloned_range_is_equal() {
    let r = KeyboardRange::new(KeyBound::Included(30), KeyBound::Included(40));
    let c = r.clone();
    assert_eq!((c.start(), c.end(), c.count()), (30, 41, 11));
}

#[test]
fn black_keys_by_place_in_octave() {
    let black: Vec<u8> = (0u8..12).filter(|n| KeyId(*n).is_black()).collect();
    assert_eq!(black, vec![1, 3, 6, 8, 10]);
    assert!(KeyId(121).is_black());
}

#[test]
fn key_kinds() {
    assert!(KeyKind::Neutral.is_neutral());
    assert!(!KeyKind::Neutral.is_sharp());
    assert!(KeyKind::Sharp.is_sharp());
    assert_eq!(octave_key_kind(1), KeyKind::Sharp);
    assert_eq!(octave_key_kind(4), KeyKind::Neutral);
    assert_eq!(KeyKind::default(), KeyKind::Neutral);
}

#[test]
fn standard_range_splits_into_nine_octave_pieces() {
    let pieces = split_range_by_octaves(&(21u8..109u8));
    assert_eq!(pieces.len(), 9);
    assert_eq!(pieces[0], 9..12);
    for p in &pieces[1..8] {
        assert_eq!(*p, 0..12);
    }
    assert_eq!(pieces[8], 0..1);
    let total: usize = pieces.iter().map(|p| p.len()).sum();
    assert_eq!(total, 88);
}

#[test]
fn split_of_short_and_empty_ranges() {
    assert_eq!(split_range_by_octaves(&(60u8..65u8)), vec![0..5]);
    assert_eq!(split_range_by_octaves(&(60u8..60u8)), Vec::new());
    assert_eq!(split_range_by_octaves(&(14u8..30u8)), vec![2..12, 0..6]);
}

#[test]
fn layout_slots_follow_the_range() {
    let r = KeyboardRange::standard_88_keys();
    let slots = layout_key_slots(&r);
    assert_eq!(slots.len(), 88);
    assert_eq!(slots[0].note_id, 9);
    assert_eq!(slots[0].kind, KeyKind::Neutral);
    assert_eq!(slots[1].note_id, 10);
    assert_eq!(slots[1].kind, KeyKind::Sharp);
    assert_eq!(slots[87].note_id, 0);
    assert_eq!(slots[87].id, 87);
    let sharps = slots.iter().filter(|s| s.kind == KeyKind::Sharp).count();
    assert_eq!(sharps, r.black_count());
}
