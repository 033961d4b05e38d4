use piano_leds::color::{hex_to_rgb, pick_rainbow_pixel, random_pixel_of, ColorMode};

fn mode(name: &str, num_leds: usize) -> ColorMode {
    ColorMode::new(&String::from(name), &num_leds)
}

#[test]
fn hex_literal_is_parsed() {
    assert_eq!(hex_to_rgb(&String::from("#ff8000")), [255, 128, 0]);
    assert_eq!(hex_to_rgb(&String::from("#000000")), [0, 0, 0]);
    assert_eq!(hex_to_rgb(&String::from("#123456")), [0x12, 0x34, 0x56]);
    assert_eq!(hex_to_rgb(&String::from("#09afAF")), [0x09, 0xaf, 0xaf]);
}

#[test]
fn hex_literal_in_upper_case() {
    assert_eq!(hex_to_rgb(&String::from("#FFFFFF")), [255, 255, 255]);
    assert_eq!(hex_to_rgb(&String::from("#ABCDEF")), [0xab, 0xcd, 0xef]);
}

#[test]
fn text_behind_the_literal_is_not_read() {
    assert_eq!(hex_to_rgb(&String::from("#10203040")), [0x10, 0x20, 0x30]);
    assert_eq!(hex_to_rgb(&String::from("#102030 and more")), [0x10, 0x20, 0x30]);
}

#[test]
fn text_without_hash_is_black() {
    assert_eq!(hex_to_rgb(&String::from("ff8000")), [0, 0, 0]);
    assert_eq!(hex_to_rgb(&String::from("ff80000")), [0, 0, 0]);
    assert_eq!(hex_to_rgb(&String::from("rainbow")), [0, 0, 0]);
    assert_eq!(hex_to_rgb(&String::from("")), [0, 0, 0]);
}

#[test]
fn short_literal_is_black() {
    assert_eq!(hex_to_rgb(&String::from("#")), [0, 0, 0]);
    assert_eq!(hex_to_rgb(&String::from("#fff")), [0, 0, 0]);
    assert_eq!(hex_to_rgb(&String::from("#fffff")), [0, 0, 0]);
}

#[test]
fn literal_with_a_wrong_digit_is_black() {
    assert_eq!(hex_to_rgb(&String::from("#gg8000")), [0, 0, 0]);
    assert_eq!(hex_to_rgb(&String::from("#ff80zz")), [0, 0, 0]);
    assert_eq!(hex_to_rgb(&String::from("#+f8000")), [0, 0, 0]);
    assert_eq!(hex_to_rgb(&String::from("#ff 000")), [0, 0, 0]);
    assert_eq!(hex_to_rgb(&String::from("#ff\u{e9}000")), [0, 0, 0]);
}

#[test]
fn solid_color_is_blue_green_red() {
    let m = mode("#ff8000", 10);
    assert_eq!(m.get_solid_color(&String::from("#ff8000")), [0, 128, 255, 0]);
    assert_eq!(m.get_solid_color(&String::from("#010203")), [3, 2, 1, 0]);
    assert_eq!(m.get_solid_color(&String::from("nothing")), [0, 0, 0, 0]);
}

#[test]
fn color_of_a_literal_mode_is_the_same_everywhere() {
    let m = mode("#102030", 10);
    assert_eq!(m.get_color(0), [0x30, 0x20, 0x10, 0]);
    assert_eq!(m.get_color(9), [0x30, 0x20, 0x10, 0]);
    assert_eq!(m.get_color(1000), [0x30, 0x20, 0x10, 0]);
}

#[test]
fn color_of_an_unknown_mode_is_black() {
    let m = mode("sparkle", 10);
    assert_eq!(m.get_color(3), [0, 0, 0, 0]);
    let m = mode("Rainbow", 10);
    assert_eq!(m.get_color(3), [0, 0, 0, 0]);
}

#[test]
fn rainbow_starts_red() {
    let m = mode("rainbow", 255);
    assert_eq!(m.get_rainbow_color(0), [255, 0, 0, 0]);
    assert_eq!(m.get_color(0), [255, 0, 0, 0]);
}

#[test]
fn rainbow_moves_one_hue_per_led_on_255_leds() {
    let m = mode("rainbow", 255);
    assert_eq!(m.get_rainbow_color(1), [253, 2, 0, 0]);
    assert_eq!(m.get_rainbow_color(2), [250, 5, 0, 0]);
    assert_eq!(m.get_rainbow_color(32), [171, 85, 0, 0]);
}

#[test]
fn rainbow_on_a_strip_of_100() {
    let m = mode("rainbow", 100);
    // hue step (255 << 24) / 100, hue at 4 is 10
    assert_eq!(m.get_color(4), [229, 26, 0, 0]);
}

#[test]
fn rainbow_is_the_same_on_every_call() {
    let m = mode("rainbow", 144);
    let n = mode("rainbow", 144);
    for position in 0..144 {
        let first = m.get_color(position);
        assert_eq!(first, m.get_color(position));
        assert_eq!(first, n.get_rainbow_color(position));
        assert_eq!(first[3], 0);
    }
}

#[test]
fn rainbow_differs_along_the_strip() {
    let m = mode("rainbow", 144);
    assert_ne!(m.get_color(0), m.get_color(72));
    assert_ne!(m.get_color(10), m.get_color(143));
}

#[test]
fn rainbow_on_a_single_led() {
    let m = mode("rainbow", 1);
    assert_eq!(m.get_color(0), [255, 0, 0, 0]);
}

#[test]
fn rainbow_pixel_is_picked_in_place() {
    let colors = vec![[1, 2, 3], [4, 5, 6], [7, 8, 9]];
    assert_eq!(pick_rainbow_pixel(&colors, 0), [1, 2, 3, 0]);
    assert_eq!(pick_rainbow_pixel(&colors, 2), [7, 8, 9, 0]);
}

#[test]
fn random_color_has_a_zero_fourth_byte() {
    let m = mode("random", 10);
    for _ in 0..2000 {
        assert_eq!(m.get_random_color()[3], 0);
        assert_eq!(m.get_color(3)[3], 0);
    }
}

#[test]
fn random_color_covers_the_whole_byte() {
    let m = mode("random", 10);
    let mut lowest = [false; 3];
    let mut highest = [false; 3];
    for _ in 0..200_000 {
        let pixel = m.get_random_color();
        for channel in 0..3 {
            if pixel[channel] == 0 {
                lowest[channel] = true;
            }
            if pixel[channel] == 255 {
                highest[channel] = true;
            }
        }
    }
    assert_eq!(lowest, [true; 3]);
    assert_eq!(highest, [true; 3]);
}

#[test]
fn random_color_draws_each_channel_on_its_own() {
    let m = mode("random", 10);
    let mut differ = false;
    for _ in 0..200 {
        let pixel = m.get_random_color();
        if pixel[0] != pixel[1] || pixel[1] != pixel[2] {
            differ = true;
        }
    }
    assert!(differ);
}

#[test]
fn random_pixel_holds_the_drawn_bytes() {
    assert_eq!(random_pixel_of(1, 2, 3), [1, 2, 3, 0]);
    assert_eq!(random_pixel_of(255, 0, 255), [255, 0, 255, 0]);
    assert_eq!(random_pixel_of(0, 0, 0), [0, 0, 0, 0]);
}

#[test]
fn random_color_varies() {
    let m = mode("random", 10);
    let first = m.get_color(0);
    let mut differs = false;
    for _ in 0..200 {
        if m.get_color(0) != first {
            differs = true;
        }
    }
    assert!(differs);
}

#[test]
fn random_mode_takes_any_position() {
    let m = mode("random", 0);
    assert!(m.can_color(usize::MAX));
    assert_eq!(m.get_color(usize::MAX)[3], 0);
}

#[test]
fn rainbow_has_colors_on_the_strip_only() {
    let m = mode("rainbow", 10);
    assert!(m.can_color(0));
    assert!(m.can_color(9));
    assert!(!m.can_color(10));
    let empty = mode("rainbow", 0);
    assert!(!empty.can_color(0));
    let solid = mode("#ffffff", 0);
    assert!(solid.can_color(5));
}

#[test]
fn rainbow_needs_a_length_that_is_not_zero_in_32_bits() {
    if usize::BITS == 64 {
        let cut_to_zero = (u32::MAX as usize) + 1;
        assert!(!mode("rainbow", cut_to_zero).can_color(0));
        assert!(mode("rainbow", cut_to_zero + 1).can_color(0));
        assert!(mode("rainbow", u32::MAX as usize).can_color(0));
    }
    assert!(!mode("rainbow", usize::MAX).can_color(0));
}

#[test]
fn setting_the_mode_keeps_the_length() {
    let mut m = mode("rainbow", 60);
    m.set_color_mode(String::from("#00ff00"));
    assert_eq!(m.mode, "#00ff00");
    assert_eq!(m.num_leds, 60);
    assert_eq!(m.get_color(5), [0, 255, 0, 0]);
    let copy = m.clone();
    assert_eq!(copy.mode, "#00ff00");
    assert_eq!(copy.num_leds, 60);
}
