use firmware::animations::{wheel, Animation, AnimationSet, CurrentAnimation, Rainbow, StaticColor};
use firmware::color::Color;

#[test]
fn wheel_key_positions() {
    assert_eq!(wheel(0), Color::new(255, 0, 0, 0));
    assert_eq!(wheel(85), Color::new(0, 255, 0, 0));
    assert_eq!(wheel(170), Color::new(0, 0, 255, 0));
    assert_eq!(wheel(255), Color::new(255, 0, 0, 0));
    assert_eq!(wheel(1), Color::new(252, 3, 0, 0));
    assert_eq!(wheel(100), Color::new(0, 210, 45, 0));
    assert_eq!(wheel(200), Color::new(90, 0, 165, 0));
}

#[test]
fn wheel_keeps_brightness() {
    for pos in 0..=255u8 {
        let c = wheel(pos);
        assert_eq!(c.w, 0);
        assert_eq!(c.r as u32 + c.g as u32 + c.b as u32, 255);
    }
}

#[test]
fn wheel_is_smooth_all_round() {
    for pos in 0..=255u8 {
        let a = wheel(pos);
        let b = wheel(pos.wrapping_add(1));
        assert!((a.r as i32 - b.r as i32).abs() <= 3);
        assert!((a.g as i32 - b.g as i32).abs() <= 3);
        assert!((a.b as i32 - b.b as i32).abs() <= 3);
    }
}

#[test]
fn rainbow_starts_dark_and_walks_the_wheel() {
    let mut r = Rainbow::new();
    assert!(!r.is_static());
    assert_eq!(*r.current_frame(), Color::new(0, 0, 0, 0));
    assert_eq!(*r.next_frame(), wheel(1));
    assert_eq!(*r.current_frame(), wheel(1));
    assert_eq!(*r.next_frame(), wheel(2));
}

#[test]
fn rainbow_repeats_every_256_frames() {
    let mut r = Rainbow::new();
    let first = *r.next_frame();
    for pos in 2..=256u32 {
        assert_eq!(*r.next_frame(), wheel((pos % 256) as u8));
    }
    assert_eq!(*r.next_frame(), first);
}

#[test]
fn static_colour_never_moves() {
    let mut s = StaticColor::new(Color::new(1, 2, 3, 4));
    assert!(s.is_static());
    assert_eq!(*s.next_frame(), Color::new(1, 2, 3, 4));
    assert_eq!(*s.current_frame(), Color::new(1, 2, 3, 4));
    s.set_color(Color::white());
    assert_eq!(*s.next_frame(), Color::white());
    assert!(s.is_static);
    let d = StaticColor::default();
    assert_eq!(d.current_color, Color::default());
    assert!(d.is_static);
}

#[test]
fn new_set_plays_the_rainbow() {
    let set = AnimationSet::new();
    assert_eq!(set.current_index, 0);
    assert_eq!(set.folowing_static_color.current_color, Color::default());
    assert_eq!(set.white_color.current_color, Color::white());
    assert_eq!(*set.rainbow.current_frame(), Color::default());
}

#[test]
fn three_presses_come_back() {
    let mut set = AnimationSet::new();
    set.next_animation();
    assert_eq!(set.current_index, 1);
    set.next_animation();
    assert_eq!(set.current_index, 2);
    set.next_animation();
    assert_eq!(set.current_index, 0);
}

#[test]
fn out_of_range_index_wraps_to_rainbow() {
    let mut set = AnimationSet::new();
    set.current_index = 7;
    set.next_animation();
    assert_eq!(set.current_index, 0);
}

#[test]
fn press_freezes_the_rainbow_colour() {
    let mut set = AnimationSet::new();
    for _ in 0..40 {
        set.render_frame();
    }
    let shown = *set.rainbow.current_frame();
    assert_eq!(shown, wheel(40));
    set.next_animation();
    for _ in 0..10 {
        assert_eq!(set.render_frame(), shown);
    }
    assert_eq!(*set.rainbow.current_frame(), shown);
}

#[test]
fn rendering_steps_the_rainbow() {
    let mut set = AnimationSet::new();
    assert_eq!(set.render_frame(), wheel(1));
    assert_eq!(set.render_frame(), wheel(2));
}

#[test]
fn still_rainbow_is_not_stepped() {
    let mut set = AnimationSet::new();
    set.rainbow.is_static = true;
    assert_eq!(set.render_frame(), Color::default());
    assert_eq!(set.render_frame(), Color::default());
}

#[test]
fn white_plays_third() {
    let mut set = AnimationSet::new();
    set.next_animation();
    set.next_animation();
    assert_eq!(set.render_frame(), Color::white());
}

#[test]
fn set_colour_plays_until_press() {
    let mut set = AnimationSet::new();
    set.render_frame();
    set.set_color(Color::new(5, 6, 7, 8));
    assert_eq!(set.current_index, 1);
    for _ in 0..5 {
        assert_eq!(set.render_frame(), Color::new(5, 6, 7, 8));
    }
    assert_eq!(*set.rainbow.current_frame(), wheel(1));
    set.next_animation();
    assert_eq!(set.render_frame(), Color::white());
}

#[test]
fn current_animation_hands_out_the_playing_one() {
    let mut set = AnimationSet::new();
    match set.current_animation() {
        CurrentAnimation::Rainbow(r) => assert_eq!(*r.next_frame(), wheel(1)),
        CurrentAnimation::Static(_) => panic!("rainbow expected"),
    }
    assert_eq!(*set.rainbow.current_frame(), wheel(1));
    set.current_index = 2;
    match set.current_animation() {
        CurrentAnimation::Static(s) => s.set_color(Color::new(1, 1, 1, 1)),
        CurrentAnimation::Rainbow(_) => panic!("static colour expected"),
    }
    assert_eq!(set.white_color.current_color, Color::new(1, 1, 1, 1));
    assert_eq!(set.folowing_static_color.current_color, Color::default());
}
