use dmz::coordinates::Column;

// Positions are split into columns of 100 units west of the origin; the
// positions 0, -50, -150 and -250 lie 0, 0, 1 and 2 whole columns west.
#[test]
fn should_convert_column_from_vec3_negative_range() {
    assert_eq!(Column('A'), Column::from_offset(0));
    assert_eq!(Column('A'), Column::from_offset(0));
    assert_eq!(Column('B'), Column::from_offset(1));
    assert_eq!(Column('C'), Column::from_offset(2));
}

// The positions -2550 and -2650 lie 25 and 26 whole columns west.
#[test]
fn should_convert_column_from_vec3_exceeding_negative_range() {
    assert_eq!(Column('Z'), Column::from_offset(25));
    assert_eq!(Column('-'), Column::from_offset(26));
}

#[test]
fn column_offsets_map_to_letters() {
    assert_eq!(Column::from_offset(0), Column('A'));
    assert_eq!(Column::from_offset(25), Column('Z'));
    assert_eq!(Column::from_offset(26), Column('-'));
    assert_eq!(Column::from_offset(u32::MAX), Column('-'));
}
