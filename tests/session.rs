use ratscreens::animator::Direction;
use ratscreens::session::{EndState, Key, Rat, RatState, Tone, SUBLIST_LEN};
use ratscreens::torus::Trig;

#[test]
fn starts_on_start_panel() {
    let r = Rat::new(0);
    assert_eq!(r.state(), RatState::Start);
    assert_eq!(r.selected(), 0);
    assert_eq!(r.value(), 0);
    assert!(r.auto_offset());
    assert!(!r.quit());
}

#[test]
fn right_and_left_wrap_around() {
    let mut r = Rat::new(0);
    let order = [
        RatState::Mid,
        RatState::End(EndState::Left),
        RatState::Donut,
        RatState::Canva,
        RatState::Start,
    ];
    for want in order {
        r.handle_key(Key::Right);
        assert_eq!(r.state(), want);
    }
    r.handle_key(Key::Left);
    assert_eq!(r.state(), RatState::Canva);
    assert_eq!(r.selected(), 4);
    r.handle_key(Key::Left);
    assert_eq!(r.state(), RatState::Donut);
}

#[test]
fn escape_quits() {
    let mut r = Rat::new(0);
    r.handle_key(Key::Esc);
    assert!(r.quit());
}

#[test]
fn mid_counts_and_colours() {
    let mut r = Rat::new(0);
    r.handle_key(Key::Right);
    assert_eq!(r.render_mid(), Tone::Zero);
    r.handle_key(Key::Up);
    r.handle_key(Key::Up);
    assert_eq!(r.value(), 2);
    assert_eq!(r.render_mid(), Tone::Positive);
    r.handle_key(Key::Down);
    r.handle_key(Key::Down);
    r.handle_key(Key::Down);
    assert_eq!(r.value(), -1);
    assert_eq!(r.render_mid(), Tone::Negative);
}

#[test]
fn keys_reach_only_the_panel_on_screen() {
    let mut r = Rat::new(0);
    r.handle_key(Key::Up);
    assert_eq!(r.value(), 0);
    r.handle_key(Key::Tab);
    assert_eq!(r.state(), RatState::Start);
}

#[test]
fn end_tab_switches_half() {
    let mut r = Rat::new(0);
    assert_eq!(r.render_end(), None);
    r.handle_key(Key::Right);
    r.handle_key(Key::Right);
    assert_eq!(r.render_end(), Some(EndState::Left));
    r.handle_key(Key::Tab);
    assert_eq!(r.state(), RatState::End(EndState::Right));
    assert_eq!(r.render_end(), Some(EndState::Right));
    r.handle_key(Key::Tab);
    assert_eq!(r.render_end(), Some(EndState::Left));
}

#[test]
fn donut_keys_move_camera() {
    let mut r = Rat::new(0);
    r.handle_key(Key::Left);
    r.handle_key(Key::Left);
    assert_eq!(r.state(), RatState::Donut);
    r.handle_key(Key::Up);
    assert_eq!(r.donut().view_distance(), 6);
    r.handle_key(Key::Down);
    r.handle_key(Key::Down);
    assert_eq!(r.donut().view_distance(), 4);
}

#[test]
fn render_donut_draws_still_torus() {
    let r = Rat::new(0);
    let thetas = vec![Trig::new(0, 1024)];
    let phis = vec![Trig::new(1024, 0)];
    let s = r.render_donut(&thetas, &phis);
    assert_eq!(s.cell(38, 75), '*');
    assert_eq!(s.cell(38, 74), ' ');
}

#[test]
fn start_list_cycles_on_ticks() {
    let mut r = Rat::new(0);
    assert_eq!(r.render_start(50), 0);
    assert_eq!(r.render_start(100), 1);
    assert_eq!(r.start_tick().last_tick, 100);
    assert_eq!(r.render_start(150), 1);
    assert_eq!(r.render_start(200), 2);
    assert_eq!(r.render_start(300), 0);
    assert!(r.render_start(400) < SUBLIST_LEN);
}

#[test]
fn canvas_frames_step_on_ticks() {
    let mut r = Rat::new(0);
    let o = r.render_canva(100);
    assert_eq!(o, [(0, 0), (0, 0), (0, 0), (0, 0)]);
    assert_eq!(r.offsets().phase(), 1);
    assert_eq!(r.canva_tick().last_tick, 100);
    let o = r.render_canva(200);
    assert_eq!(o, [(0, 8), (0, -8), (8, 0), (-8, 0)]);
    assert_eq!(r.offsets().phase(), 2);
}

#[test]
fn idle_frames_do_not_drift() {
    let mut r = Rat::new(0);
    r.render_canva(100);
    let a = r.render_canva(150);
    let b = r.render_canva(199);
    assert_eq!(a, b);
    assert_eq!(r.offsets().phase(), 1);
    assert_eq!(r.canva_tick().last_tick, 100);
    let s = r.render_start(99);
    assert_eq!(r.render_start(99), s);
    assert_eq!(r.start_tick().last_tick, 0);
}

#[test]
fn manual_step_leaves_clock() {
    let mut r = Rat::new(0);
    r.handle_key(Key::Left);
    assert_eq!(r.state(), RatState::Canva);
    r.render_canva(100);
    let clock = r.canva_tick();
    let start_clock = r.start_tick();
    let phase = r.offsets().phase();
    r.handle_key(Key::Tab);
    assert!(!r.auto_offset());
    r.handle_key(Key::Up);
    assert_eq!(r.offsets().phase(), phase + 1);
    assert_eq!(r.offsets().direction(), Direction::Growing);
    assert_eq!(r.canva_tick(), clock);
    assert_eq!(r.start_tick(), start_clock);
    assert_eq!(r.value(), 0);
    assert_eq!(r.state(), RatState::Canva);
    r.handle_key(Key::Down);
    r.handle_key(Key::Down);
    assert_eq!(r.offsets().phase(), phase - 1);
    assert_eq!(r.canva_tick(), clock);
}

#[test]
fn frozen_canvas_does_not_tick() {
    let mut r = Rat::new(0);
    r.handle_key(Key::Left);
    r.handle_key(Key::Tab);
    r.render_canva(1000);
    assert_eq!(r.offsets().phase(), 0);
    assert_eq!(r.canva_tick().last_tick, 0);
    r.handle_key(Key::Tab);
    r.render_canva(1000);
    assert_eq!(r.offsets().phase(), 1);
}

#[test]
fn auto_keys_do_not_step_by_hand() {
    let mut r = Rat::new(0);
    r.handle_key(Key::Left);
    r.handle_key(Key::Up);
    r.handle_key(Key::Down);
    assert_eq!(r.offsets().phase(), 0);
}
