use amm_sim_rs::types::wad::{Wad, BPS, MAX_FEE, WAD};

fn from_f64(value: f64) -> Wad {
    Wad::new((value * WAD as f64) as i128)
}

fn to_f64(w: Wad) -> f64 {
    w.raw() as f64 / WAD as f64
}

#[test]
fn test_wmul() {
    let a = from_f64(2.0);
    let b = from_f64(3.0);
    let c = a.wmul(b);
    assert!((to_f64(c) - 6.0).abs() < 1e-10);
}

#[test]
fn test_wdiv() {
    let a = from_f64(6.0);
    let b = from_f64(2.0);
    let c = a.wdiv(b);
    assert!((to_f64(c) - 3.0).abs() < 1e-10);
}

#[test]
fn test_sqrt() {
    let a = from_f64(4.0);
    let s = a.sqrt();
    assert!((to_f64(s) - 2.0).abs() < 1e-6);

    let a = from_f64(2.0);
    let s = a.sqrt();
    assert!((to_f64(s) - 1.414213562).abs() < 1e-6);
}

#[test]
fn test_bps_conversion() {
    let w = Wad::from_bps(25);
    assert!((to_f64(w) - 0.0025).abs() < 1e-10);
    assert_eq!(w.to_bps(), 25);
}

#[test]
fn test_clamp_fee() {
    let w = from_f64(0.15); // 15%
    let clamped = w.clamp_fee();
    assert_eq!(clamped.0, MAX_FEE); // Clamped to 10%

    let w = from_f64(-0.01);
    let clamped = w.clamp_fee();
    assert_eq!(clamped.0, 0); // Clamped to 0
}

#[test]
fn constants_have_their_values() {
    assert_eq!(WAD, 10i128.pow(18));
    assert_eq!(BPS, 10i128.pow(14));
    assert_eq!(MAX_FEE, 10i128.pow(17));
    assert_eq!(Wad::one().raw(), WAD);
    assert_eq!(Wad::zero().raw(), 0);
    assert_eq!(Wad::default(), Wad(0));
    assert_eq!(Wad::from(7i128), Wad(7));
    assert_eq!(Wad::new(-3).raw(), -3);
}

#[test]
fn wmul_rounds_down() {
    // 1.5 * 2.5 = 3.75
    assert_eq!(Wad(3 * WAD / 2).wmul(Wad(5 * WAD / 2)), Wad(15 * WAD / 4));
    assert_eq!(Wad(2 * WAD).wmul(Wad(3 * WAD)), Wad(6 * WAD));
    // half a unit rounds down to zero, minus half a unit down to minus one
    assert_eq!(Wad(1).wmul(Wad(WAD / 2)), Wad(0));
    assert_eq!(Wad(-1).wmul(Wad(WAD / 2)), Wad(-1));
    assert_eq!(Wad(-1).wmul(Wad(1)), Wad(-1));
    assert_eq!(Wad(3).wmul(Wad(WAD / 2)), Wad(1));
    assert_eq!(Wad(-3).wmul(Wad(WAD / 2)), Wad(-2));
    assert_eq!(Wad(3).wmul(Wad(-WAD / 2)), Wad(-2));
    assert_eq!(Wad(-3 * WAD).wmul(Wad(-2 * WAD)), Wad(6 * WAD));
    assert_eq!(Wad(-3 * WAD).wmul(Wad(2 * WAD)), Wad(-6 * WAD));
    assert_eq!(Wad(0).wmul(Wad(-5)), Wad(0));
}

#[test]
fn wdiv_rounds_down_and_gives_zero_for_zero() {
    assert_eq!(Wad(WAD).wdiv(Wad(3 * WAD)), Wad(333_333_333_333_333_333));
    assert_eq!(Wad(-WAD).wdiv(Wad(3 * WAD)), Wad(-333_333_333_333_333_334));
    assert_eq!(Wad(WAD).wdiv(Wad(-3 * WAD)), Wad(-333_333_333_333_333_334));
    assert_eq!(Wad(-WAD).wdiv(Wad(-3 * WAD)), Wad(333_333_333_333_333_333));
    assert_eq!(Wad(-1).wdiv(Wad(2 * WAD)), Wad(-1));
    assert_eq!(Wad(1).wdiv(Wad(2 * WAD)), Wad(0));
    assert_eq!(Wad(1).wdiv(Wad(-2 * WAD)), Wad(-1));
    assert_eq!(Wad(5 * WAD).wdiv(Wad(0)), Wad(0));
    assert_eq!(Wad(0).wdiv(Wad(0)), Wad(0));
    assert_eq!(Wad(7).wdiv(Wad(-1)), Wad(-7 * WAD));
    assert_eq!(Wad(-6 * WAD).wdiv(Wad(2 * WAD)), Wad(-3 * WAD));
}

#[test]
fn wdiv_then_wmul_comes_back_within_one_unit() {
    let cases: [(i128, i128); 5] = [
        (WAD, 3 * WAD / 10),
        (123_456_789_012_345_678, 7),
        (-5 * WAD, 333_333_333_333_333_333),
        (42, -WAD),
        (99 * WAD, WAD),
    ];
    for (a, b) in cases {
        let back = Wad(a).wdiv(Wad(b)).wmul(Wad(b));
        assert!((back.raw() - a).abs() <= 1, "a={} b={} back={}", a, b, back.raw());
    }
    // A wide divisor loosens the bound to |b| / 10^18 + 1.
    let a = 1_000_000_007i128;
    let b = 1000 * WAD + 1;
    let back = Wad(a).wdiv(Wad(b)).wmul(Wad(b));
    assert!((back.raw() - a).abs() <= 1001);
}

#[test]
fn sqrt_is_exact_to_the_last_unit() {
    assert_eq!(Wad(4 * WAD).sqrt(), Wad(2 * WAD));
    assert_eq!(Wad(WAD).sqrt(), Wad(WAD));
    assert_eq!(Wad(2 * WAD).sqrt(), Wad(1_414_213_562_373_095_048));
    assert_eq!(Wad(WAD / 4).sqrt(), Wad(WAD / 2));
    // the smallest positive value: sqrt(10^-18) = 10^-9
    assert_eq!(Wad(1).sqrt(), Wad(1_000_000_000));
    assert_eq!(Wad(0).sqrt(), Wad(0));
    assert_eq!(Wad(-4 * WAD).sqrt(), Wad(0));
    for v in [3i128, 10, 999, WAD + 1, 123 * WAD + 789, 170 * WAD] {
        let r = Wad(v).sqrt().raw();
        assert!(r * r <= v * WAD);
        assert!((r + 1) * (r + 1) > v * WAD);
    }
}

#[test]
fn bps_round_toward_zero() {
    assert_eq!(Wad::from_bps(30), Wad(3_000_000_000_000_000));
    assert_eq!(Wad::from_bps(-2), Wad(-2 * BPS));
    assert_eq!(Wad(BPS - 1).to_bps(), 0);
    assert_eq!(Wad(-(BPS - 1)).to_bps(), 0);
    assert_eq!(Wad(-BPS - 1).to_bps(), -1);
    assert_eq!(Wad(WAD).to_bps(), 10_000);
}

#[test]
fn clamp_raises_then_lowers() {
    assert_eq!(Wad(5).clamp(Wad(0), Wad(10)), Wad(5));
    assert_eq!(Wad(-5).clamp(Wad(0), Wad(10)), Wad(0));
    assert_eq!(Wad(15).clamp(Wad(0), Wad(10)), Wad(10));
    // bounds in the wrong order: the upper bound has the last word
    assert_eq!(Wad(5).clamp(Wad(10), Wad(0)), Wad(0));
    assert_eq!(Wad(MAX_FEE).clamp_fee(), Wad(MAX_FEE));
    assert_eq!(Wad(MAX_FEE + 1).clamp_fee(), Wad(MAX_FEE));
    assert_eq!(Wad(0).clamp_fee(), Wad(0));
    assert_eq!(Wad(-1).clamp_fee(), Wad(0));
    assert_eq!(Wad(30 * BPS).clamp_fee(), Wad(30 * BPS));
}

#[test]
fn abs_and_signs() {
    assert_eq!(Wad(-7).abs(), Wad(7));
    assert_eq!(Wad(7).abs(), Wad(7));
    assert_eq!(Wad(0).abs(), Wad(0));
    assert_eq!(Wad(3).abs_diff(Wad(10)), Wad(7));
    assert_eq!(Wad(10).abs_diff(Wad(3)), Wad(7));
    assert_eq!(Wad(-4).abs_diff(Wad(4)), Wad(8));
    assert!(Wad(0).is_zero() && !Wad(1).is_zero());
    assert!(Wad(1).is_positive() && !Wad(0).is_positive() && !Wad(-1).is_positive());
    assert!(Wad(-1).is_negative() && !Wad(0).is_negative() && !Wad(1).is_negative());
}

#[test]
fn operators_add_subtract_negate() {
    assert_eq!(Wad(3) + Wad(4), Wad(7));
    assert_eq!(Wad(3) - Wad(4), Wad(-1));
    assert_eq!(-Wad(3), Wad(-3));
    assert!(Wad(3) < Wad(4));
}
