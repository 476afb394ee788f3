use my_first_ggez::pattern::{circle_turns, Turn, TurnRange, Volley};

fn as_turns(t: &Turn) -> f64 {
    t.num as f64 / t.den as f64
}

#[test]
fn four_bullets_over_a_full_turn() {
    let turns = circle_turns(4, TurnRange { start: 0, end: 1, denom: 1 });
    assert_eq!(turns.len(), 4);
    let got: Vec<f64> = turns.iter().map(as_turns).collect();
    assert_eq!(got, vec![0.0, 0.25, 0.5, 0.75]);
    let radians: Vec<f64> = got.iter().map(|t| t * 2.0 * std::f64::consts::PI).collect();
    assert!((radians[1] - std::f64::consts::FRAC_PI_2).abs() < 1e-12);
    assert!((radians[2] - std::f64::consts::PI).abs() < 1e-12);
    assert!((radians[3] - 3.0 * std::f64::consts::FRAC_PI_2).abs() < 1e-12);
}

#[test]
fn no_bullets_for_zero_count() {
    assert!(circle_turns(0, TurnRange { start: 0, end: 1, denom: 1 }).is_empty());
}

#[test]
fn player_cone_directions() {
    let v = Volley::PlayerCone;
    assert_eq!(v.count(), 5);
    assert_eq!(v.range(), TurnRange { start: -2, end: 0, denom: 5 });
    let turns = v.turns();
    let nums: Vec<i128> = turns.iter().map(|t| t.num).collect();
    assert_eq!(nums, vec![-20, -10, 0, 10, 20]);
    assert!(turns.iter().all(|t| t.den == 125));
    assert!((as_turns(&turns[0]) + 0.16).abs() < 1e-12);
}

#[test]
fn enemy_ring_directions() {
    let v = Volley::EnemyRing;
    assert_eq!(v.count(), 7);
    let turns = v.turns();
    assert_eq!(turns.len(), 7);
    for (i, t) in turns.iter().enumerate() {
        assert_eq!(t.num, i as i128);
        assert_eq!(t.den, 7);
    }
}

#[test]
fn circle_spacing_is_even() {
    let r = TurnRange { start: 1, end: 4, denom: 3 };
    let turns = circle_turns(6, r);
    for w in turns.windows(2) {
        assert_eq!(w[1].num - w[0].num, 3 * (4 - 1));
        assert_eq!(w[0].den, 6 * 3 * 3);
    }
}

#[test]
fn extreme_ranges_stay_exact() {
    let r = TurnRange { start: i32::MIN, end: i32::MAX, denom: u32::MAX };
    let turns = circle_turns(3, r);
    let (s, e, d) = (i32::MIN as i128, i32::MAX as i128, u32::MAX as i128);
    for (i, t) in turns.iter().enumerate() {
        assert_eq!(t.num, (i as i128 * d + s * 3) * (e - s));
        assert_eq!(t.den, 3 * d * d);
    }
}
