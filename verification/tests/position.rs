use textui::{LineId, LineIndex, TEXTUI_CHAR_HEIGHT, TEXTUI_CHAR_WIDTH};

#[test]
fn glyph_size_is_8_by_16() {
    assert_eq!(TEXTUI_CHAR_WIDTH, 8);
    assert_eq!(TEXTUI_CHAR_HEIGHT, 16);
}

#[test]
fn line_id_check_accepts_zero_up_to_max() {
    assert!(LineId::new(0).check(4));
    assert!(LineId::new(3).check(4));
    assert!(!LineId::new(4).check(4));
    assert!(!LineId::new(-1).check(4));
    assert!(!LineId::new(0).check(0));
}

#[test]
fn line_id_arithmetic() {
    assert_eq!((LineId::new(3) + 1).data(), 4);
    assert_eq!((LineId::new(3) - 1).data(), 2);
    assert_eq!((LineId::new(0) - 1).data(), -1);
    assert_eq!((LineId::new(1) - LineId::new(3)).data(), -2);
    assert_eq!(LineId::new(7).to_u32(), 7);
    assert_eq!(LineId::new(7).to_usize(), 7);
    assert_eq!(LineId::default().data(), 0);
}

#[test]
fn line_index_check_accepts_zero_up_to_chars_per_line() {
    assert!(LineIndex::new(0).check(8));
    assert!(LineIndex::new(7).check(8));
    assert!(!LineIndex::new(8).check(8));
    assert!(!LineIndex::new(-1).check(8));
}

#[test]
fn line_index_arithmetic() {
    assert_eq!((LineIndex::new(3) + 1).data(), 4);
    assert_eq!((LineIndex::new(3) + LineIndex::new(4)).data(), 7);
    assert_eq!((LineIndex::new(0) - 1).data(), -1);
    assert_eq!(LineIndex::new(5).to_u32(), 5);
    assert_eq!(LineIndex::new(5).to_usize(), 5);
}

#[test]
fn positions_convert_into_their_numbers() {
    let line: i32 = LineId::new(-4).into();
    assert_eq!(line, -4);
    let column: i32 = LineIndex::new(9).into();
    assert_eq!(column, 9);
}
