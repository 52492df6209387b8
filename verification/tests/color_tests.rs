use custom_titlebar::color::blend;
use custom_titlebar::{get_b_value, get_g_value, get_r_value, rgb};

#[test]
fn rgb_packs_channels_in_order() {
    assert_eq!(rgb(0, 0, 0), 0);
    assert_eq!(rgb(255, 255, 255), 0x00ff_ffff);
    assert_eq!(rgb(1, 0, 0), 1);
    assert_eq!(rgb(0, 1, 0), 0x100);
    assert_eq!(rgb(0, 0, 1), 0x1_0000);
    assert_eq!(rgb(200, 250, 230), 200 + 250 * 0x100 + 230 * 0x1_0000);
}

#[test]
fn color_round_trip() {
    for (r, g, b) in [
        (0u8, 0u8, 0u8),
        (255, 255, 255),
        (255, 0, 0),
        (0, 255, 0),
        (0, 0, 255),
        (200, 250, 230),
        (150, 200, 180),
        (33, 33, 33),
        (127, 127, 127),
        (1, 2, 3),
    ] {
        let packed = rgb(r, g, b);
        assert_eq!(get_r_value(packed), r);
        assert_eq!(get_g_value(packed), g);
        assert_eq!(get_b_value(packed), b);
    }
}

#[test]
fn blend_averages_each_channel() {
    assert_eq!(blend(rgb(150, 200, 180), rgb(100, 100, 100)), rgb(125, 150, 140));
    assert_eq!(blend(rgb(0, 0, 0), rgb(255, 255, 255)), rgb(127, 127, 127));
    assert_eq!(blend(rgb(10, 20, 30), rgb(10, 20, 30)), rgb(10, 20, 30));
    // odd sums round down
    assert_eq!(blend(rgb(0, 0, 0), rgb(1, 1, 1)), rgb(0, 0, 0));
}
