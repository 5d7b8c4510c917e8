use galaxy_rs::{DataPoint, GalaxyBuilder, NodeType, Point, Scalar};
use rand::Rng;

fn s(x: f64) -> Scalar {
    Scalar::from_bits(x.to_bits())
}

fn f(x: Scalar) -> f64 {
    f64::from_bits(x.to_bits())
}

fn samples() -> Vec<f64> {
    vec![
        f64::NEG_INFINITY,
        -1.0e300,
        -3.5,
        -1.0,
        -f64::MIN_POSITIVE,
        -5.0e-324,
        -0.0,
        0.0,
        5.0e-324,
        f64::MIN_POSITIVE,
        0.0625,
        1.0,
        2.0,
        16.0,
        1.0e300,
        f64::INFINITY,
        f64::NAN,
        -f64::NAN,
    ]
}

#[test]
fn order_follows_the_numbers() {
    for a in samples() {
        for b in samples() {
            assert_eq!(s(a).lt(s(b)), a < b, "{} < {}", a, b);
            assert_eq!(s(a).gt(s(b)), a > b, "{} > {}", a, b);
        }
    }
}

#[test]
fn any_two_patterns_compare_as_their_numbers_do() {
    let mut rng = rand::thread_rng();
    for _ in 0..200_000 {
        let (a, b): (u64, u64) = (rng.gen(), rng.gen());
        let (x, y) = (f64::from_bits(a), f64::from_bits(b));
        let (sa, sb) = (Scalar::from_bits(a), Scalar::from_bits(b));
        assert_eq!(sa.lt(sb), x < y);
        assert_eq!(sa.gt(sb), x > y);
        assert_eq!(sa.is_nan(), x.is_nan());
        assert_eq!(sa.neg().to_bits(), (-x).to_bits());
        let (got, want) = (f(sa.max(sb)), x.max(y));
        assert!(if want.is_nan() { got.is_nan() } else { got == want });
    }
}

#[test]
fn nan_is_told_apart() {
    for a in samples() {
        assert_eq!(s(a).is_nan(), a.is_nan());
    }
}

#[test]
fn negation_flips_the_sign() {
    for a in samples() {
        assert_eq!(s(a).neg().to_bits(), (-a).to_bits());
    }
    assert_eq!(s(16.0).neg().to_bits(), (-16.0f64).to_bits());
    assert_ne!(s(16.0).neg().to_bits(), s(16.0).to_bits());
}

#[test]
fn max_passes_over_what_is_no_number() {
    for a in samples() {
        for b in samples() {
            let got = f(s(a).max(s(b)));
            let want = a.max(b);
            if want.is_nan() {
                assert!(got.is_nan());
            } else {
                assert!(got == want, "max({}, {}) = {}", a, b, got);
            }
        }
    }
    assert_eq!(s(3.0).max(s(7.5)).to_bits(), 7.5f64.to_bits());
    assert_eq!(s(7.5).max(s(3.0)).to_bits(), 7.5f64.to_bits());
    assert_eq!(s(f64::NAN).max(s(3.0)).to_bits(), 3.0f64.to_bits());
    assert_eq!(s(3.0).max(s(f64::NAN)).to_bits(), 3.0f64.to_bits());
}

#[test]
fn bits_go_in_and_out_unchanged() {
    assert_eq!(Scalar::from_bits(0x4030_0000_0000_0000).to_bits(), 0x4030_0000_0000_0000);
    assert_eq!(f(Scalar::from_bits(0x4030_0000_0000_0000)), 16.0);
}

#[test]
fn the_normal_of_a_vector() {
    let v = Point::new(s(3.0), s(-4.0));
    let n = v.minusb_a();
    assert_eq!(f(n.x), 4.0);
    assert_eq!(f(n.y), 3.0);
    assert_eq!(f(v.x) * f(n.x) + f(v.y) * f(n.y), 0.0);
    let back = n.minusb_a().minusb_a().minusb_a();
    assert_eq!(back, v);
}

#[test]
fn the_normal_of_the_zero_vector_keeps_signed_zeros() {
    let n = Point::new(s(0.0), s(0.0)).minusb_a();
    assert_eq!(n.x.to_bits(), (-0.0f64).to_bits());
    assert_eq!(n.y.to_bits(), 0.0f64.to_bits());
}

#[test]
fn a_point_takes_a_payload() {
    let p = Point::new(s(1.5), s(-2.5)).with_data(NodeType::Ext);
    assert_eq!(p.point, Point::new(s(1.5), s(-2.5)));
    assert_eq!(p.data, NodeType::Ext);
    assert_eq!(*p, NodeType::Ext);
}

#[test]
fn data_points_are_built_from_coordinates_or_from_a_point() {
    let a = DataPoint::new(s(1.0), s(2.0), 7u8);
    let b = DataPoint::from_point(Point::new(s(1.0), s(2.0)), 7u8);
    assert_eq!(a.point, b.point);
    assert_eq!(a.data, b.data);
    assert_eq!(f(a.point.x), 1.0);
    assert_eq!(f(a.point.y), 2.0);
}

#[test]
fn map_changes_the_payload_only() {
    let a = DataPoint::new(s(1.0), s(2.0), 7u8);
    let b = a.map(|n| format!("<{}>", n + 1));
    assert_eq!(b.point, a.point);
    assert_eq!(b.data, "<8>");
}

#[test]
fn the_defaults() {
    let c = GalaxyBuilder::default();
    assert_eq!(f(c.arm_width_factor), 1.0 / 16.0);
    assert_eq!(c.nb_arms, 5);
    assert_eq!(c.nb_loners, 16);
    assert_eq!(f(c.arm_slope), std::f64::consts::PI / 8.0);
    assert_eq!(c.nb_arm_bones, 12);
    assert_eq!(f(c.cloud_radius), 16.0);
    assert_eq!(c.cloud_population, 2);
    assert_eq!(f(c.slope_factor), 0.90);
    assert!(c.min_distance.is_none());
}

#[test]
fn a_setter_changes_its_own_option_only() {
    let c = GalaxyBuilder::default()
        .cloud_population(3)
        .cloud_radius(s(4.0))
        .nb_arms(7)
        .nb_arm_bones(32)
        .slope_factor(s(0.4))
        .arm_slope(s(0.25))
        .arm_width_factor(s(0.5))
        .nb_loners(9)
        .min_distance(Some(s(2.0)));
    assert_eq!(c.cloud_population, 3);
    assert_eq!(f(c.cloud_radius), 4.0);
    assert_eq!(c.nb_arms, 7);
    assert_eq!(c.nb_arm_bones, 32);
    assert_eq!(f(c.slope_factor), 0.4);
    assert_eq!(f(c.arm_slope), 0.25);
    assert_eq!(f(c.arm_width_factor), 0.5);
    assert_eq!(c.nb_loners, 9);
    assert_eq!(c.min_distance.map(f), Some(2.0));
    let d = c.nb_arms(1);
    assert_eq!(d.nb_arms, 1);
    assert_eq!(d.nb_arm_bones, 32);
    assert_eq!(d.cloud_population, 3);
    assert_eq!(d.min_distance.map(f), Some(2.0));
}

#[test]
fn a_least_distance_above_the_radius_is_refused() {
    let base = GalaxyBuilder::default().cloud_radius(s(16.0));
    let center = Point::new(s(0.0), s(0.0));
    assert!(!base.min_distance(Some(s(16.5))).is_accepted());
    assert!(base.min_distance(Some(s(16.5))).build(center).is_none());
    assert!(base.min_distance(Some(s(f64::INFINITY))).build(center).is_none());
    assert!(base.min_distance(Some(s(16.0))).build(center).is_some());
    assert!(base.min_distance(Some(s(2.0))).build(center).is_some());
    assert!(base.min_distance(Some(s(-1.0))).build(center).is_some());
    assert!(base.min_distance(None).build(center).is_some());
    assert!(base.min_distance(Some(s(f64::NAN))).build(center).is_some());
    assert!(base.cloud_radius(s(-3.0)).min_distance(Some(s(-2.0))).build(center).is_none());
}

#[test]
fn a_payload_is_changed_in_place() {
    let mut p = DataPoint::new(s(1.0), s(2.0), 7u8);
    *p += 1;
    assert_eq!(p.data, 8);
    assert_eq!(f(p.point.x), 1.0);
    assert_eq!(f(p.point.y), 2.0);
}
