use pine_analysis::position::{LineIndex, Position};

#[test]
fn offsets_and_positions_round_trip() {
    let text = "ab\r\nc\n\nxyz";
    let chars: Vec<char> = text.chars().collect();
    let index = LineIndex::new(&chars);
    for o in 0..=chars.len() {
        let p = index.offset_to_position(o);
        assert_eq!(index.position_to_offset(p), o, "offset {}", o);
    }
    assert_eq!(index.offset_to_position(4), Position::new(1, 0));
    assert_eq!(index.offset_to_position(7), Position::new(3, 0));
    assert_eq!(index.offset_to_position(100), Position::new(3, 3));
    assert_eq!(index.line_count(), 4);
}

#[test]
fn positions_past_a_line_stop_at_its_end() {
    let chars: Vec<char> = "ab\ncd".chars().collect();
    let index = LineIndex::new(&chars);
    assert_eq!(index.position_to_offset(Position::new(0, 10)), 2);
    assert_eq!(index.position_to_offset(Position::new(5, 0)), 5);
}
