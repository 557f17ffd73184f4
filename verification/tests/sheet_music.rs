use neothesia::neothesia::sheet_music::{
    diatonic_index, is_accidental, ledger_line_steps, staff_position, Staff,
};

#[test]
fn pitch_mapping_advances_by_staff_steps() {
    assert_eq!(diatonic_index(60), 28); // C4
    assert_eq!(diatonic_index(62), 29); // D4
    assert_eq!(diatonic_index(64), 30); // E4
    assert_eq!(diatonic_index(61), 28); // C sharp shares C's staff position
}

#[test]
fn diatonic_index_of_the_extremes() {
    assert_eq!(diatonic_index(0), -7);
    assert_eq!(diatonic_index(11), -1);
    assert_eq!(diatonic_index(12), 0);
    assert_eq!(diatonic_index(127), 67);
}

#[test]
fn an_octave_is_seven_steps() {
    for n in 0u8..=115 {
        assert_eq!(diatonic_index(n + 12), diatonic_index(n) + 7);
    }
}

#[test]
fn accidentals_are_the_black_keys() {
    let sharps: Vec<u8> = (60u8..72).filter(|n| is_accidental(*n)).collect();
    assert_eq!(sharps, vec![61, 63, 66, 68, 70]);
    assert!(!is_accidental(60));
    assert!(is_accidental(1));
}

#[test]
fn notes_split_between_the_staves_at_middle_c() {
    assert_eq!(staff_position(64), (Staff::Treble, 0));
    assert_eq!(staff_position(60), (Staff::Treble, -2));
    assert_eq!(staff_position(59), (Staff::Bass, 9));
    assert_eq!(staff_position(43), (Staff::Bass, 0));
    assert_eq!(staff_position(77), (Staff::Treble, 8));
}

#[test]
fn ledger_lines_below_and_above_the_staff() {
    assert_eq!(ledger_line_steps(-2), vec![-2]);
    assert_eq!(ledger_line_steps(-5), vec![-2, -4]);
    assert_eq!(ledger_line_steps(-1), Vec::<i32>::new());
    assert_eq!(ledger_line_steps(4), Vec::<i32>::new());
    assert_eq!(ledger_line_steps(8), Vec::<i32>::new());
    assert_eq!(ledger_line_steps(9), Vec::<i32>::new());
    assert_eq!(ledger_line_steps(10), vec![10]);
    assert_eq!(ledger_line_steps(13), vec![10, 12]);
}
