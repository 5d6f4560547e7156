use vorticity::grid::{buffer_bytes, buffer_len, square_within, CELL_BYTES};

#[test]
fn buffer_len_is_side_squared() {
    assert_eq!(buffer_len(0), 0);
    assert_eq!(buffer_len(1), 1);
    assert_eq!(buffer_len(7), 49);
    assert_eq!(buffer_len(4096), 16_777_216);
}

#[test]
fn buffer_bytes_counts_eight_per_cell() {
    assert_eq!(CELL_BYTES, 8);
    assert_eq!(buffer_bytes(0), 0);
    assert_eq!(buffer_bytes(3), 72);
    assert_eq!(buffer_bytes(4096), 134_217_728);
}

#[test]
fn square_within_of_a_perfect_square() {
    assert_eq!(square_within(0), (0, 0));
    assert_eq!(square_within(1), (1, 1));
    assert_eq!(square_within(16), (4, 16));
    assert_eq!(square_within(16_777_216), (4096, 16_777_216));
}

#[test]
fn square_within_rounds_down() {
    assert_eq!(square_within(2), (1, 1));
    assert_eq!(square_within(3), (1, 1));
    assert_eq!(square_within(15), (3, 9));
    assert_eq!(square_within(17), (4, 16));
    assert_eq!(square_within(24), (4, 16));
    assert_eq!(square_within(25), (5, 25));
}

#[test]
fn square_within_of_the_largest_length() {
    let (side, cells) = square_within(usize::MAX);
    assert!(side.checked_mul(side) == Some(cells));
    assert!(cells <= usize::MAX);
    let above = (side as u128 + 1) * (side as u128 + 1);
    assert!(above > usize::MAX as u128);
}

#[test]
fn a_buffer_reads_back_with_the_side_it_was_made_for() {
    for side in [0usize, 1, 2, 3, 10, 255, 256, 4096, 65_535] {
        let len = buffer_len(side);
        assert_eq!(square_within(len), (side, len));
    }
}
