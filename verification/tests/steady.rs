use piano_leds::config::{ApiConfig, Config, LedsConfig, MidiConfig, RtpConfig};
use piano_leds::frame::{draw_leds, leds_fit_frame, put_pixel, Led};
use piano_leds::steady::{DefaultAnimator, StaticColor};

fn config(color_mode: &str) -> Config {
    Config {
        leds: LedsConfig {
            pin: 18,
            num_leds: 8,
            brightness: 255,
            offsets: vec![vec![60, 10]],
            shift: 2,
            fade: 5,
            channel: 0,
            color_mode: String::from(color_mode),
            animation: String::from("default"),
        },
        midi: MidiConfig {
            id: 1,
            buffer_size: 1024,
            max_keys_processing: 10,
            timeout: 10,
            rtp: RtpConfig { socket: String::from("/tmp/rtp.sock") },
        },
        api: ApiConfig { host: String::from("0.0.0.0"), port: 8000 },
    }
}

fn keys(animator: &DefaultAnimator) -> Vec<(usize, [u8; 4])> {
    animator.leds.iter().map(|led| (led.position, led.color)).collect()
}

#[test]
fn pressed_keys_are_appended() {
    let mut animator = DefaultAnimator::new(&config("rainbow"));
    assert!(animator.leds.is_empty());
    animator.note_on(3, [1, 2, 3, 0]);
    animator.note_on(5, [4, 5, 6, 0]);
    animator.note_on(3, [7, 8, 9, 0]);
    assert_eq!(
        keys(&animator),
        vec![(3, [1, 2, 3, 0]), (5, [4, 5, 6, 0]), (3, [7, 8, 9, 0])]
    );
}

#[test]
fn release_darkens_the_first_key_at_the_position_only() {
    let mut animator = DefaultAnimator::new(&config("rainbow"));
    animator.note_on(5, [4, 5, 6, 0]);
    animator.note_on(3, [1, 2, 3, 0]);
    animator.note_on(3, [7, 8, 9, 0]);
    animator.note_off(3);
    assert_eq!(
        keys(&animator),
        vec![(5, [4, 5, 6, 0]), (3, [0, 0, 0, 0]), (3, [7, 8, 9, 0])]
    );
}

#[test]
fn second_release_finds_the_dark_key_again() {
    let mut animator = DefaultAnimator::new(&config("rainbow"));
    animator.note_on(3, [1, 2, 3, 0]);
    animator.note_on(3, [7, 8, 9, 0]);
    animator.note_off(3);
    animator.note_off(3);
    assert_eq!(keys(&animator), vec![(3, [0, 0, 0, 0]), (3, [7, 8, 9, 0])]);
}

#[test]
fn release_of_a_key_that_is_not_lit_changes_nothing() {
    let mut animator = DefaultAnimator::new(&config("rainbow"));
    animator.note_off(3);
    assert!(animator.leds.is_empty());
    animator.note_on(5, [4, 5, 6, 0]);
    animator.note_off(3);
    assert_eq!(keys(&animator), vec![(5, [4, 5, 6, 0])]);
}

#[test]
fn keys_are_painted_in_order() {
    let mut animator = DefaultAnimator::new(&config("rainbow"));
    animator.note_on(1, [1, 1, 1, 0]);
    animator.note_on(2, [2, 2, 2, 0]);
    animator.note_on(1, [3, 3, 3, 0]);
    animator.note_off(2);
    let mut frame = vec![[7u8, 7, 7, 7]; 4];
    assert!(animator.fits(4));
    animator.draw(&mut frame);
    assert_eq!(frame, vec![[7, 7, 7, 7], [3, 3, 3, 0], [0, 0, 0, 0], [7, 7, 7, 7]]);
}

#[test]
fn keys_beyond_the_frame_do_not_fit() {
    let mut animator = DefaultAnimator::new(&config("rainbow"));
    animator.note_on(4, [1, 1, 1, 0]);
    assert!(animator.fits(5));
    assert!(!animator.fits(4));
    assert!(!animator.fits(0));
}

#[test]
fn leds_are_painted_last_one_on_top() {
    let leds = vec![
        Led { position: 0, color: [1, 0, 0, 0] },
        Led { position: 2, color: [2, 0, 0, 0] },
        Led { position: 0, color: [3, 0, 0, 0] },
    ];
    assert!(leds_fit_frame(&leds, 3));
    assert!(!leds_fit_frame(&leds, 2));
    let mut frame = vec![[9u8, 9, 9, 9]; 3];
    draw_leds(&leds, &mut frame);
    assert_eq!(frame, vec![[3, 0, 0, 0], [9, 9, 9, 9], [2, 0, 0, 0]]);
}

#[test]
fn pixel_beyond_the_frame_is_not_put() {
    let mut frame = vec![[9u8, 9, 9, 9]; 2];
    put_pixel(&mut frame, 2, [1, 1, 1, 1]);
    assert_eq!(frame, vec![[9, 9, 9, 9], [9, 9, 9, 9]]);
    put_pixel(&mut frame, 1, [1, 1, 1, 1]);
    assert_eq!(frame, vec![[9, 9, 9, 9], [1, 1, 1, 1]]);
}

#[test]
fn static_color_floods_the_frame() {
    let fixed = StaticColor::new(&config("#ff8000"));
    let mut frame = vec![[7u8, 7, 7, 7]; 3];
    fixed.draw(&mut frame);
    assert_eq!(frame, vec![[0, 128, 255, 0], [0, 128, 255, 0], [0, 128, 255, 0]]);
}

#[test]
fn static_color_of_a_mode_name_is_black() {
    let fixed = StaticColor::new(&config("rainbow"));
    let mut frame = vec![[7u8, 7, 7, 7]; 2];
    fixed.draw(&mut frame);
    assert_eq!(frame, vec![[0, 0, 0, 0], [0, 0, 0, 0]]);
    let mut empty: Vec<[u8; 4]> = Vec::new();
    fixed.draw(&mut empty);
    assert!(empty.is_empty());
}
