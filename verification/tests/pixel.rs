use loupedeck::{
    construct_draw_buffer_payload, convert_argb888_to_rgb565, convert_draw_target_to_rgb565,
    convert_pixels_to_rgb565, Screen,
};
use raqote::{DrawOptions, DrawTarget, SolidSource, Source};

#[test]
fn it_converts() {
    assert_eq!(convert_argb888_to_rgb565(0xFF000000), 0);
    assert_eq!(convert_argb888_to_rgb565(0xFFFFFFFF), 0xffff);
    assert_eq!(convert_argb888_to_rgb565(0xFF0000FF), 0x001f);
    assert_eq!(convert_argb888_to_rgb565(0xFFFF0000), 0xf800);
    assert_eq!(convert_argb888_to_rgb565(0xFF00FF00), 0x07e0);
}

#[test]
fn it_works_for_dt_red() {
    let mut dt = DrawTarget::new(1, 1);

    let solid_red: SolidSource = SolidSource::from_unpremultiplied_argb(255, 0xFF, 0x00, 0x00);

    dt.fill_rect(0.0, 0.0, 1.0, 1.0, &Source::Solid(solid_red), &DrawOptions::new());

    assert_eq!(convert_draw_target_to_rgb565(dt), vec![0x00, 0xF8,]);
}

#[test]
fn it_works_for_dt_green() {
    let mut dt = DrawTarget::new(1, 1);

    let solid_green: SolidSource = SolidSource::from_unpremultiplied_argb(255, 0x00, 0xFF, 0x00);

    dt.fill_rect(0.0, 0.0, 1.0, 1.0, &Source::Solid(solid_green), &DrawOptions::new());

    assert_eq!(convert_draw_target_to_rgb565(dt), vec![0xE0, 0x07,]);
}

#[test]
fn it_works_for_dt_blue() {
    let mut dt = DrawTarget::new(1, 1);

    let solid_blue: SolidSource = SolidSource::from_unpremultiplied_argb(255, 0x00, 0x00, 0xFF);

    dt.fill_rect(0.0, 0.0, 1.0, 1.0, &Source::Solid(solid_blue), &DrawOptions::new());

    assert_eq!(convert_draw_target_to_rgb565(dt), vec![0x1F, 0x00]);
}

#[test]
fn alpha_is_ignored() {
    assert_eq!(convert_argb888_to_rgb565(0x00FF0000), 0xf800);
    assert_eq!(convert_argb888_to_rgb565(0x80FF0000), 0xf800);
    assert_eq!(convert_argb888_to_rgb565(0x12345678), convert_argb888_to_rgb565(0xFF345678));
}

#[test]
fn low_bits_of_each_channel_are_dropped() {
    // red 0x07, green 0x03, blue 0x07: nothing left after the shifts
    assert_eq!(convert_argb888_to_rgb565(0xFF070307), 0x0000);
    // red 0x08 is the lowest red that shows, green 0x04 the lowest green
    assert_eq!(convert_argb888_to_rgb565(0xFF080000), 0x0800);
    assert_eq!(convert_argb888_to_rgb565(0xFF000400), 0x0020);
    assert_eq!(convert_argb888_to_rgb565(0xFF000008), 0x0001);
    // 0x345678: r = 0x34 >> 3 = 6, g = 0x56 >> 2 = 21, b = 0x78 >> 3 = 15
    assert_eq!(convert_argb888_to_rgb565(0xFF345678), (6 << 11) | (21 << 5) | 15);
}

#[test]
fn pixels_come_out_low_byte_first_in_order() {
    let pixels: Vec<u32> = vec![0xFFFF0000, 0xFF00FF00, 0xFF0000FF, 0xFF345678];
    let bytes: Vec<u8> = convert_pixels_to_rgb565(&pixels);
    // 0x345678 gives 0x32AF
    assert_eq!(bytes, vec![0x00, 0xF8, 0xE0, 0x07, 0x1F, 0x00, 0xAF, 0x32]);
}

#[test]
fn no_pixels_give_no_bytes() {
    let pixels: Vec<u32> = Vec::new();
    assert_eq!(convert_pixels_to_rgb565(&pixels), Vec::<u8>::new());
}

#[test]
fn output_is_two_bytes_per_pixel() {
    let dt = DrawTarget::new(3, 5);
    assert_eq!(convert_draw_target_to_rgb565(dt).len(), 2 * 3 * 5);
}

#[test]
fn green_pixel_in_a_one_by_one_draw_payload() {
    let mut dt = DrawTarget::new(1, 1);
    let solid_green: SolidSource = SolidSource::from_unpremultiplied_argb(255, 0x00, 0xFF, 0x00);
    dt.fill_rect(0.0, 0.0, 1.0, 1.0, &Source::Solid(solid_green), &DrawOptions::new());
    assert_eq!(dt.get_data(), &[0xFF00FF00u32]);

    let pixels: Vec<u8> = convert_draw_target_to_rgb565(dt);
    assert_eq!(pixels, vec![0xE0, 0x07]);

    let payload: Vec<u8> =
        construct_draw_buffer_payload(Screen::Center, 0, 0, 1, 1, &pixels).unwrap();
    assert_eq!(
        payload,
        vec![0x00, 0x41, 0x00, 0x00, 0x00, 0x00, 0x00, 0x01, 0x00, 0x01, 0xE0, 0x07]
    );
}
