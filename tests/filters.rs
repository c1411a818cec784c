use pt_filters::{
    adjust_pt1_gain, adjust_pt2_gain, adjust_pt3_gain, apply_pt1, apply_pt2, apply_pt3,
    filter_gain, make_pt1, make_pt2, make_pt3, Filter, FilterError, Pt1, GAIN_ONE,
};

const TEN_HZ_MHZ: u32 = 10_000;
const TEN_MS_US: u32 = 10_000;

#[test]
fn gain_is_a_fraction_for_every_order() {
    let cases: [(u32, u32); 6] = [
        (1, 1),
        (1, u32::MAX),
        (u32::MAX, 1),
        (u32::MAX, u32::MAX),
        (TEN_HZ_MHZ, TEN_MS_US),
        (123_456, 789),
    ];
    for order in 1u8..=3 {
        for &(cutoff, dt) in cases.iter() {
            let k = filter_gain(order, cutoff, dt).unwrap();
            assert!(k <= GAIN_ONE);
        }
    }
}

#[test]
fn gain_at_the_extremes() {
    assert_eq!(filter_gain(1, 1, 1), Ok(0));
    assert_eq!(filter_gain(1, u32::MAX, u32::MAX), Ok(16_777_215));
    assert_eq!(filter_gain(3, u32::MAX, u32::MAX), Ok(16_777_215));
}

#[test]
fn gain_of_each_order_at_ten_hertz() {
    // k = w / (1 + w), w = 2 * pi * c * 10 Hz * 0.01 s, as a fraction of 2^24
    assert_eq!(filter_gain(1, TEN_HZ_MHZ, TEN_MS_US), Ok(6_473_816));
    assert_eq!(filter_gain(2, TEN_HZ_MHZ, TEN_MS_US), Ok(8_287_860));
    assert_eq!(filter_gain(3, TEN_HZ_MHZ, TEN_MS_US), Ok(9_261_960));
}

#[test]
fn gain_of_another_configuration() {
    assert_eq!(filter_gain(2, 1000, 1000), Ok(162_206));
    assert_eq!(filter_gain(1, 100_000, 1000), Ok(6_473_816));
}

#[test]
fn single_stage_correction_is_one() {
    // with no correction the single stage gain is that of the plain formula, which
    // depends on the product cutoff * dt alone
    assert_eq!(filter_gain(1, 100_000, 1000), filter_gain(1, TEN_HZ_MHZ, TEN_MS_US));
    assert_ne!(filter_gain(2, TEN_HZ_MHZ, TEN_MS_US), filter_gain(1, TEN_HZ_MHZ, TEN_MS_US));
}

#[test]
fn higher_orders_raise_the_stage_cutoff() {
    let k1 = filter_gain(1, TEN_HZ_MHZ, TEN_MS_US).unwrap();
    let k2 = filter_gain(2, TEN_HZ_MHZ, TEN_MS_US).unwrap();
    let k3 = filter_gain(3, TEN_HZ_MHZ, TEN_MS_US).unwrap();
    assert!(k1 < k2 && k2 < k3);
}

#[test]
fn ten_hertz_scenario() {
    let mut f = make_pt1(TEN_HZ_MHZ, TEN_MS_US).unwrap();
    assert_eq!(f.k, 6_473_816);
    let k = f.k as f64 / GAIN_ONE as f64;
    assert!((k - 0.3858).abs() < 1e-3);
    assert_eq!(apply_pt1(&mut f, 1_000_000), 385_870);
    assert_eq!(apply_pt1(&mut f, 1_000_000), 622_845);
    assert_eq!(f.state, 622_845);
}

#[test]
fn zero_input_from_rest_stays_zero() {
    let mut f1 = make_pt1(TEN_HZ_MHZ, TEN_MS_US).unwrap();
    let mut f2 = make_pt2(TEN_HZ_MHZ, TEN_MS_US).unwrap();
    let mut f3 = make_pt3(TEN_HZ_MHZ, TEN_MS_US).unwrap();
    for _ in 0..50 {
        assert_eq!(apply_pt1(&mut f1, 0), 0);
        assert_eq!(apply_pt2(&mut f2, 0), 0);
        assert_eq!(apply_pt3(&mut f3, 0), 0);
    }
    assert_eq!((f2.state1, f3.state1, f3.state2), (0, 0, 0));
}

#[test]
fn pt1_step_response_is_monotone_and_reaches_the_input() {
    let mut f = make_pt1(TEN_HZ_MHZ, TEN_MS_US).unwrap();
    let mut last = 0;
    for _ in 0..13 {
        let out = apply_pt1(&mut f, 1000);
        assert!(out > last && out <= 1000);
        last = out;
    }
    assert_eq!(last, 1000);
    assert_eq!(apply_pt1(&mut f, 1000), 1000);
}

#[test]
fn pt1_step_response_downwards() {
    let mut f = make_pt1(TEN_HZ_MHZ, TEN_MS_US).unwrap();
    let mut last = 0;
    for _ in 0..1000 {
        let out = apply_pt1(&mut f, -1000);
        assert!(out <= last && out >= -1000);
        last = out;
    }
    assert_eq!(last, -1000);
}

#[test]
fn pt2_step_response_has_no_overshoot() {
    let mut f = make_pt2(TEN_HZ_MHZ, TEN_MS_US).unwrap();
    let mut last = 0;
    for _ in 0..13 {
        let out = apply_pt2(&mut f, 1000);
        assert!(out >= last && out <= f.state1 && f.state1 <= 1000);
        last = out;
    }
    assert_eq!((f.state1, f.state), (1000, 1000));
}

#[test]
fn pt3_step_response_has_no_overshoot() {
    let mut f = make_pt3(TEN_HZ_MHZ, TEN_MS_US).unwrap();
    let mut outs = Vec::new();
    let mut last = 0;
    for _ in 0..12 {
        let out = apply_pt3(&mut f, 1000);
        assert!(out >= last && out <= f.state2 && f.state2 <= f.state1 && f.state1 <= 1000);
        outs.push(out);
        last = out;
    }
    assert_eq!(outs[..5].to_vec(), vec![169, 396, 599, 751, 853]);
    assert_eq!((f.state1, f.state2, f.state), (1000, 1000, 1000));
}

#[test]
fn full_gain_reaches_the_input_across_the_whole_range() {
    let mut f = Pt1 { state: i32::MIN, k: GAIN_ONE };
    assert_eq!(apply_pt1(&mut f, i32::MAX), i32::MAX);
    assert_eq!(apply_pt1(&mut f, i32::MIN), i32::MIN);
}

#[test]
fn large_steps_do_not_overflow() {
    let mut f = Pt1 { state: i32::MIN, k: 6_473_816 };
    assert_eq!(apply_pt1(&mut f, i32::MAX), -490_186_752);
}

#[test]
fn zero_gain_holds_the_state() {
    let mut f = make_pt1(1, 1).unwrap();
    assert_eq!(f.k, 0);
    assert_eq!(apply_pt1(&mut f, 1_000_000), 0);
}

#[test]
fn reconfigure_with_the_same_parameters_changes_nothing() {
    let mut f1 = make_pt1(TEN_HZ_MHZ, TEN_MS_US).unwrap();
    let mut f2 = make_pt2(TEN_HZ_MHZ, TEN_MS_US).unwrap();
    let mut f3 = make_pt3(TEN_HZ_MHZ, TEN_MS_US).unwrap();
    apply_pt1(&mut f1, 500);
    apply_pt2(&mut f2, 500);
    apply_pt3(&mut f3, 500);
    let (b1, b2, b3) = (f1, f2, f3);
    assert_eq!(adjust_pt1_gain(&mut f1, TEN_HZ_MHZ, TEN_MS_US), Ok(()));
    assert_eq!(adjust_pt2_gain(&mut f2, TEN_HZ_MHZ, TEN_MS_US), Ok(()));
    assert_eq!(adjust_pt3_gain(&mut f3, TEN_HZ_MHZ, TEN_MS_US), Ok(()));
    assert_eq!((f1, f2, f3), (b1, b2, b3));
}

#[test]
fn reconfigure_changes_the_gain_and_keeps_the_state() {
    let mut f = make_pt1(TEN_HZ_MHZ, TEN_MS_US).unwrap();
    apply_pt1(&mut f, 1_000_000);
    assert_eq!(adjust_pt1_gain(&mut f, 100_000, 1000), Ok(()));
    assert_eq!(f, Pt1 { state: 385_870, k: 6_473_816 });
    assert_eq!(adjust_pt1_gain(&mut f, 1000, 1000), Ok(()));
    assert_eq!(f.state, 385_870);
    assert_eq!(f.k, filter_gain(1, 1000, 1000).unwrap());
    let mut g = make_pt2(TEN_HZ_MHZ, TEN_MS_US).unwrap();
    apply_pt2(&mut g, 1000);
    let (s1, s) = (g.state1, g.state);
    assert_eq!(adjust_pt2_gain(&mut g, 1000, 1000), Ok(()));
    assert_eq!((g.state1, g.state, g.k), (s1, s, 162_206));
}

#[test]
fn zero_cutoff_or_period_is_refused() {
    for order in 1u8..=3 {
        assert_eq!(filter_gain(order, 0, TEN_MS_US), Err(FilterError::InvalidParameter));
        assert_eq!(filter_gain(order, TEN_HZ_MHZ, 0), Err(FilterError::InvalidParameter));
    }
    assert_eq!(make_pt1(0, TEN_MS_US), Err(FilterError::InvalidParameter));
    assert_eq!(make_pt1(TEN_HZ_MHZ, 0), Err(FilterError::InvalidParameter));
    assert_eq!(make_pt2(0, 0), Err(FilterError::InvalidParameter));
    assert_eq!(make_pt2(TEN_HZ_MHZ, 0), Err(FilterError::InvalidParameter));
    assert_eq!(make_pt3(0, TEN_MS_US), Err(FilterError::InvalidParameter));
    assert_eq!(make_pt3(TEN_HZ_MHZ, 0), Err(FilterError::InvalidParameter));
}

#[test]
fn refused_reconfigure_leaves_the_filter() {
    let mut f1 = make_pt1(TEN_HZ_MHZ, TEN_MS_US).unwrap();
    let mut f2 = make_pt2(TEN_HZ_MHZ, TEN_MS_US).unwrap();
    let mut f3 = make_pt3(TEN_HZ_MHZ, TEN_MS_US).unwrap();
    apply_pt1(&mut f1, 77);
    apply_pt2(&mut f2, 77);
    apply_pt3(&mut f3, 77);
    let (b1, b2, b3) = (f1, f2, f3);
    assert_eq!(adjust_pt1_gain(&mut f1, 0, TEN_MS_US), Err(FilterError::InvalidParameter));
    assert_eq!(adjust_pt2_gain(&mut f2, TEN_HZ_MHZ, 0), Err(FilterError::InvalidParameter));
    assert_eq!(adjust_pt3_gain(&mut f3, 0, 0), Err(FilterError::InvalidParameter));
    assert_eq!((f1, f2, f3), (b1, b2, b3));
}

#[test]
fn filter_of_each_order_matches_its_type() {
    let mut a = Filter::new(1, TEN_HZ_MHZ, TEN_MS_US).unwrap();
    let mut b = Filter::new(2, TEN_HZ_MHZ, TEN_MS_US).unwrap();
    let mut c = Filter::new(3, TEN_HZ_MHZ, TEN_MS_US).unwrap();
    let mut p1 = make_pt1(TEN_HZ_MHZ, TEN_MS_US).unwrap();
    let mut p2 = make_pt2(TEN_HZ_MHZ, TEN_MS_US).unwrap();
    let mut p3 = make_pt3(TEN_HZ_MHZ, TEN_MS_US).unwrap();
    for x in [1000, -250, 40, 40, 0] {
        assert_eq!(a.apply(x), apply_pt1(&mut p1, x));
        assert_eq!(b.apply(x), apply_pt2(&mut p2, x));
        assert_eq!(c.apply(x), apply_pt3(&mut p3, x));
    }
    assert_eq!((a, b, c), (Filter::One(p1), Filter::Two(p2), Filter::Three(p3)));
}

#[test]
fn filter_refuses_bad_order_and_parameters() {
    assert_eq!(Filter::new(0, TEN_HZ_MHZ, TEN_MS_US), Err(FilterError::InvalidParameter));
    assert_eq!(Filter::new(4, TEN_HZ_MHZ, TEN_MS_US), Err(FilterError::InvalidParameter));
    assert_eq!(Filter::new(2, 0, TEN_MS_US), Err(FilterError::InvalidParameter));
    assert_eq!(Filter::new(3, TEN_HZ_MHZ, 0), Err(FilterError::InvalidParameter));
}

#[test]
fn filter_reconfigure() {
    let mut f = Filter::new(3, TEN_HZ_MHZ, TEN_MS_US).unwrap();
    f.apply(1000);
    let before = f;
    assert_eq!(f.reconfigure(TEN_HZ_MHZ, TEN_MS_US), Ok(()));
    assert_eq!(f, before);
    assert_eq!(f.reconfigure(0, TEN_MS_US), Err(FilterError::InvalidParameter));
    assert_eq!(f, before);
    assert_eq!(f.reconfigure(1000, 1000), Ok(()));
    match f {
        Filter::Three(p) => assert_eq!(p.k, filter_gain(3, 1000, 1000).unwrap()),
        _ => panic!("order changed"),
    }
}
