use stg_engine::shape::{low_i16, to_i16, Color};

#[test]
fn the_parts_of_the_colors() {
    assert_eq!(Color::White.rgb(), (255, 255, 255));
    assert_eq!(Color::Black.rgb(), (0, 0, 0));
    assert_eq!(Color::Red.rgb(), (255, 0, 0));
}

#[test]
fn to_i16_keeps_what_fits() {
    assert_eq!(to_i16(0), Some(0));
    assert_eq!(to_i16(32767), Some(32767));
    assert_eq!(to_i16(-32768), Some(-32768));
    assert_eq!(to_i16(32768), None);
    assert_eq!(to_i16(-32769), None);
    assert_eq!(to_i16(i32::MAX), None);
    assert_eq!(to_i16(i32::MIN), None);
}

#[test]
fn low_i16_keeps_the_low_bits() {
    assert_eq!(low_i16(50), 50);
    assert_eq!(low_i16(-50), -50);
    assert_eq!(low_i16(32768), -32768);
    assert_eq!(low_i16(65536), 0);
    assert_eq!(low_i16(80000), 14464);
    assert_eq!(low_i16(-32769), 32767);
    assert_eq!(low_i16(i32::MAX), -1);
    assert_eq!(low_i16(i32::MIN), 0);
    for v in (-300_000..300_000).step_by(7) {
        assert_eq!(low_i16(v), v as i16);
    }
}
