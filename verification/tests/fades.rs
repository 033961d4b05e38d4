use piano_leds::config::{ApiConfig, Config, LedsConfig, MidiConfig, RtpConfig};
use piano_leds::fade::{Fade, Fades};

fn config(num_leds: usize, fade: i8) -> Config {
    Config {
        leds: LedsConfig {
            pin: 18,
            num_leds,
            brightness: 255,
            offsets: vec![vec![60, 10]],
            shift: 2,
            fade,
            channel: 0,
            color_mode: String::from("rainbow"),
            animation: String::from("fade"),
        },
        midi: MidiConfig {
            id: 1,
            buffer_size: 1024,
            max_keys_processing: 10,
            timeout: 10,
            rtp: RtpConfig { socket: String::from("/tmp/rtp.sock") },
        },
        api: ApiConfig { host: String::from("0.0.0.0"), port: 8000 },
    }
}

fn same(fade: &Fade, position: usize, color: [u8; 4], left: i8, started: bool) -> bool {
    fade.position == position && fade.color == color && fade.fade == left && fade.started == started
}

#[test]
fn new_fades_are_empty() {
    let fades = Fades::new(&config(100, 5));
    assert!(fades.fades.is_empty());
    assert_eq!(fades.config.leds.fade, 5);
    assert_eq!(fades.config.leds.num_leds, 100);
    assert_eq!(fades.config.leds.offsets, vec![vec![60, 10]]);
}

#[test]
fn added_fade_has_the_full_budget_and_is_held() {
    let mut fades = Fades::new(&config(100, 5));
    fades.add_fade(4, [10, 20, 30, 40]);
    fades.add_fade(7, [1, 2, 3, 4]);
    assert_eq!(fades.fades.len(), 2);
    assert!(same(&fades.fades[0], 4, [10, 20, 30, 40], 5, false));
    assert!(same(&fades.fades[1], 7, [1, 2, 3, 4], 5, false));
}

#[test]
fn held_fade_keeps_its_color() {
    let mut fades = Fades::new(&config(100, 5));
    fades.add_fade(4, [200, 100, 50, 9]);
    for _ in 0..50 {
        fades.update();
        assert_eq!(fades.fades.len(), 1);
        assert!(same(&fades.fades[0], 4, [200, 100, 50, 9], 5, false));
    }
}

#[test]
fn release_marks_every_fade_at_the_position() {
    let mut fades = Fades::new(&config(100, 5));
    fades.add_fade(4, [1, 1, 1, 0]);
    fades.add_fade(5, [2, 2, 2, 0]);
    fades.add_fade(4, [3, 3, 3, 0]);
    fades.start_fade(4);
    assert!(fades.fades[0].started);
    assert!(!fades.fades[1].started);
    assert!(fades.fades[2].started);
    assert_eq!(fades.fades[0].fade, 5);
    assert_eq!(fades.fades[2].fade, 5);
}

#[test]
fn release_keeps_the_budget_until_the_next_frame() {
    let mut fades = Fades::new(&config(100, 5));
    fades.add_fade(4, [229, 26, 0, 0]);
    fades.start_fade(4);
    assert!(same(&fades.fades[0], 4, [229, 26, 0, 0], 5, true));
    fades.update();
    assert!(same(&fades.fades[0], 4, [229, 26, 0, 0], 4, true));
}

#[test]
fn released_fade_is_scaled_by_what_is_left() {
    let mut fades = Fades::new(&config(100, 4));
    fades.add_fade(3, [200, 100, 7, 9]);
    fades.start_fade(3);
    fades.update();
    // scaled by 4/4
    assert!(same(&fades.fades[0], 3, [200, 100, 7, 9], 3, true));
    fades.update();
    // scaled by 3/4
    assert!(same(&fades.fades[0], 3, [150, 75, 5, 9], 2, true));
    fades.update();
    // scaled by 2/4
    assert!(same(&fades.fades[0], 3, [75, 37, 2, 9], 1, true));
    fades.update();
    assert!(fades.fades.is_empty());
}

#[test]
fn released_fade_is_removed_after_exactly_the_budget() {
    for budget in 1i8..=20 {
        let mut fades = Fades::new(&config(100, budget));
        fades.add_fade(1, [255, 255, 255, 0]);
        for _ in 0..3 {
            fades.update();
        }
        fades.start_fade(1);
        for frame in 1..budget {
            fades.update();
            assert_eq!(fades.fades.len(), 1);
            assert_eq!(fades.fades[0].fade, budget - frame);
        }
        fades.update();
        assert!(fades.fades.is_empty());
    }
}

#[test]
fn released_fade_never_brightens() {
    let mut fades = Fades::new(&config(100, 30));
    fades.add_fade(1, [255, 128, 3, 77]);
    fades.start_fade(1);
    let mut before = fades.fades[0].color;
    while !fades.fades.is_empty() {
        let now = fades.fades[0].color;
        assert!(now[0] <= before[0]);
        assert!(now[1] <= before[1]);
        assert!(now[2] <= before[2]);
        assert_eq!(now[3], 77);
        before = now;
        fades.update();
    }
}

#[test]
fn fades_are_removed_in_place() {
    let mut fades = Fades::new(&config(100, 2));
    fades.add_fade(1, [10, 10, 10, 0]);
    fades.add_fade(2, [20, 20, 20, 0]);
    fades.add_fade(3, [30, 30, 30, 0]);
    fades.start_fade(2);
    fades.update();
    fades.update();
    assert_eq!(fades.fades.len(), 2);
    assert!(same(&fades.fades[0], 1, [10, 10, 10, 0], 2, false));
    assert!(same(&fades.fades[1], 3, [30, 30, 30, 0], 2, false));
}

#[test]
fn fade_without_a_budget_is_gone_after_one_frame() {
    for budget in [0i8, -1, -128] {
        let mut fades = Fades::new(&config(100, budget));
        fades.add_fade(1, [10, 10, 10, 0]);
        assert_eq!(fades.fades[0].fade, budget);
        fades.start_fade(1);
        fades.update();
        assert!(fades.fades.is_empty());
        fades.add_fade(1, [10, 10, 10, 0]);
        fades.update();
        assert!(fades.fades.is_empty());
    }
}

#[test]
fn fades_are_painted_in_order() {
    let mut fades = Fades::new(&config(5, 4));
    fades.add_fade(1, [1, 1, 1, 0]);
    fades.add_fade(3, [3, 3, 3, 0]);
    fades.add_fade(1, [9, 9, 9, 0]);
    let mut frame = vec![[7u8, 7, 7, 7]; 5];
    assert!(fades.fits(5));
    fades.draw(&mut frame);
    assert_eq!(
        frame,
        vec![[7, 7, 7, 7], [9, 9, 9, 0], [7, 7, 7, 7], [3, 3, 3, 0], [7, 7, 7, 7]]
    );
}

#[test]
fn fades_beyond_the_frame_do_not_fit() {
    let mut fades = Fades::new(&config(5, 4));
    assert!(fades.fits(0));
    fades.add_fade(4, [1, 1, 1, 0]);
    assert!(fades.fits(5));
    assert!(!fades.fits(4));
    fades.add_fade(5, [1, 1, 1, 0]);
    assert!(!fades.fits(5));
    assert!(fades.fits(6));
}
