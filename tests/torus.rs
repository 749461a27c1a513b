use ratscreens::fixed::ONE;
use ratscreens::torus::{glyph_index, ramp_glyph, sweep_angles, Donut, Trig, RAMP_LEN};

fn trig_of(micro: u64) -> Trig {
    let a = micro as f64 / 1_000_000.0;
    Trig::new(
        (a.cos() * ONE as f64).round() as i64,
        (a.sin() * ONE as f64).round() as i64,
    )
}

#[test]
fn glyph_index_scales_and_truncates() {
    assert_eq!(glyph_index(0), 0);
    assert_eq!(glyph_index(127), 0);
    assert_eq!(glyph_index(128), 1);
    assert_eq!(glyph_index(1024), 8);
    assert_eq!(glyph_index(1448), 11);
    assert_eq!(ramp_glyph(glyph_index(1024)), '*');
}

#[test]
fn glyph_index_is_clamped() {
    for l in [i64::MIN, -5000, -1, 1536, 2000, 1 << 40, i64::MAX] {
        assert!(glyph_index(l) < RAMP_LEN);
    }
    assert_eq!(glyph_index(-5000), 0);
    assert_eq!(glyph_index(i64::MAX), 11);
    assert_eq!(glyph_index(2000), 11);
    assert_eq!(ramp_glyph(0), '.');
    assert_eq!(ramp_glyph(11), '@');
}

#[test]
fn trig_is_clamped() {
    let t = Trig::new(5000, -5000);
    assert_eq!(t.cos(), ONE);
    assert_eq!(t.sin(), -ONE);
    let z = Trig::zero();
    assert_eq!((z.cos(), z.sin()), (ONE, 0));
}

#[test]
fn sweep_covers_one_turn() {
    let t = sweep_angles(70_000);
    assert_eq!(t.len(), 90);
    assert_eq!(t[89], 6_230_000);
    let p = sweep_angles(20_000);
    assert_eq!(p.len(), 315);
    assert_eq!(p[314], 6_280_000);
    let d = Donut::default();
    assert_eq!(d.theta_angles(), t);
    assert_eq!(d.phi_angles(), p);
}

#[test]
fn view_distance_steps() {
    let mut d = Donut::default();
    assert_eq!(d.view_distance(), 5);
    d.increase_view_distance();
    assert_eq!(d.view_distance(), 6);
    d.decrease_view_distance();
    d.decrease_view_distance();
    assert_eq!(d.view_distance(), 4);
}

#[test]
fn single_sample_lands_in_its_cell() {
    let d = Donut::default();
    let z = Trig::zero();
    let thetas = vec![Trig::new(0, ONE)];
    let phis = vec![Trig::new(ONE, 0)];
    let s = d.compute_donut(&z, &z, &thetas, &phis);
    assert_eq!((s.width(), s.height()), (100, 100));
    for r in 0..100 {
        for c in 0..100 {
            let want = if (r, c) == (38, 75) { '*' } else { ' ' };
            assert_eq!(s.cell(r, c), want);
        }
    }
}

#[test]
fn facing_away_is_not_drawn() {
    let d = Donut::default();
    let z = Trig::zero();
    let thetas = vec![Trig::new(0, -ONE)];
    let phis = vec![Trig::new(ONE, 0)];
    let s = d.compute_donut(&z, &z, &thetas, &phis);
    for r in 0..100 {
        for c in 0..100 {
            assert_eq!(s.cell(r, c), ' ');
        }
    }
}

#[test]
fn camera_behind_is_not_drawn() {
    let d = Donut::new(70_000, 20_000, 1, 2, -5, 100, 100);
    let z = Trig::zero();
    let thetas = vec![Trig::new(0, ONE)];
    let phis = vec![Trig::new(ONE, 0)];
    let s = d.compute_donut(&z, &z, &thetas, &phis);
    for r in 0..100 {
        for c in 0..100 {
            assert_eq!(s.cell(r, c), ' ');
        }
    }
}

#[test]
fn nearer_sample_wins_the_cell() {
    // Tube angle π with a ring angle just short of π/2 and tube angle 0 with
    // ring angle -π/2 both land on the centre cell; the second is nearer.
    let d = Donut::default();
    let z = Trig::zero();
    let phis = vec![Trig::new(50, 1023), Trig::new(0, -ONE)];
    let far_first = vec![Trig::new(-ONE, 0), Trig::new(ONE, 0)];
    let near_first = vec![Trig::new(ONE, 0), Trig::new(-ONE, 0)];
    let far_only = d.compute_donut(&z, &z, &vec![Trig::new(-ONE, 0)], &phis);
    assert_eq!(far_only.cell(50, 50), '!');
    for thetas in [far_first, near_first] {
        let s = d.compute_donut(&z, &z, &thetas, &phis);
        for r in 0..100 {
            for c in 0..100 {
                let want = if (r, c) == (50, 50) { '*' } else { ' ' };
                assert_eq!(s.cell(r, c), want);
            }
        }
    }
}

#[test]
fn same_inputs_same_image() {
    let d = Donut::default();
    let z = Trig::zero();
    let thetas: Vec<Trig> = d.theta_angles().into_iter().map(trig_of).collect();
    let phis: Vec<Trig> = d.phi_angles().into_iter().map(trig_of).collect();
    let a = d.compute_donut(&z, &z, &thetas, &phis);
    let b = d.compute_donut(&z, &z, &thetas, &phis);
    for r in 0..100 {
        for c in 0..100 {
            assert_eq!(a.cell(r, c), b.cell(r, c));
        }
    }
}

fn trig_of_angle(a: f64) -> Trig {
    Trig::new(
        (a.cos() * ONE as f64).round() as i64,
        (a.sin() * ONE as f64).round() as i64,
    )
}

#[test]
fn unturned_torus_is_mirror_symmetric() {
    // Ring angles in 314 equal steps (about 0.02 rad each): a sweep that holds
    // π - φ along with every φ, as mirror symmetry needs.
    let d = Donut::default();
    let z = Trig::zero();
    let thetas: Vec<Trig> = d.theta_angles().into_iter().map(trig_of).collect();
    let phis: Vec<Trig> = (0..314)
        .map(|k| trig_of_angle(2.0 * std::f64::consts::PI * k as f64 / 314.0))
        .collect();
    let s = d.compute_donut(&z, &z, &thetas, &phis);
    let mut drawn = 0;
    for r in 0..100 {
        assert_eq!(s.cell(r, 0), ' ');
        for c in 1..100 {
            if s.cell(r, c) != ' ' {
                drawn += 1;
            }
            assert_eq!(s.cell(r, c), s.cell(r, 100 - c));
        }
    }
    assert!(drawn > 1000);
}

#[test]
fn mirrored_ring_angle_mirrors_column() {
    let d = Donut::default();
    let z = Trig::zero();
    let thetas = vec![Trig::new(0, ONE)];
    let left = d.compute_donut(&z, &z, &thetas, &vec![Trig::new(600, 300)]);
    let right = d.compute_donut(&z, &z, &thetas, &vec![Trig::new(-600, 300)]);
    let mut drawn = 0;
    for r in 0..100 {
        for c in 1..100 {
            assert_eq!(left.cell(r, c), right.cell(r, 100 - c));
            if left.cell(r, c) != ' ' {
                drawn += 1;
            }
        }
    }
    assert_eq!(drawn, 1);
}
