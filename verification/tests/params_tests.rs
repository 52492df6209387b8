use custom_titlebar::{get_x_param, get_y_param, make_point_param};

#[test]
fn packed_point_known_value() {
    assert_eq!(make_point_param(10, 20), 10 + 20 * 0x1_0000);
    assert_eq!(make_point_param(0, 0), 0);
    assert_eq!(make_point_param(-1, 0), 0xffff);
    assert_eq!(make_point_param(0, -1), 0xffff_0000);
}

#[test]
fn packed_point_round_trip() {
    let coords = [-32768, -32767, -1000, -1, 0, 1, 640, 32766, 32767];
    for &x in &coords {
        for &y in &coords {
            let packed = make_point_param(x, y) as isize;
            assert_eq!(get_x_param(packed), x);
            assert_eq!(get_y_param(packed), y);
        }
    }
}

#[test]
fn extraction_ignores_high_bits() {
    // A sign-extended parameter, as a host can deliver it, still yields
    // the same coordinates.
    let packed = make_point_param(-5, -7);
    let sign_extended = (packed as u32) as i32 as isize;
    assert_eq!(get_x_param(sign_extended), -5);
    assert_eq!(get_y_param(sign_extended), -7);
}
