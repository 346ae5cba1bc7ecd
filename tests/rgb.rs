use prisma::channel::BoundedChannel;
use prisma::color::{Bounded, Color, HomogeneousColor, Invert, Lerp};
use prisma::rgb::{Rgb, Turns};

fn degrees(t: Turns) -> f64 {
    t.numer as f64 / t.denom as f64 * 360.0
}

#[test]
fn test_construct() {
    {
        let color = Rgb::from_channels(0u8, 0, 0);
        assert_eq!(color.red(), 0u8);
        assert_eq!(color.green(), 0u8);
        assert_eq!(color.blue(), 0u8);

        let c2 = color.clone();
        assert_eq!(color, c2);
    }
    {
        let color: Rgb<u8> = Rgb::default();
        assert_eq!(color.red(), 0u8);
        assert_eq!(color.green(), 0u8);
        assert_eq!(color.blue(), 0u8);
    }
    {
        let color = Rgb::broadcast(128u8);
        assert_eq!(color, Rgb::from_channels(128u8, 128, 128));
    }
}

#[test]
fn test_lerp_int() {
    let c1 = Rgb::from_channels(100u8, 200u8, 0u8);
    let c2 = Rgb::from_channels(200u8, 0u8, 255u8);

    assert_eq!(c1.lerp(&c2, 1, 2), Rgb::from_channels(150u8, 100, 127));
    assert_eq!(c1.lerp(&c2, 0, 1), c1);
    assert_eq!(c1.lerp(&c2, 1, 1), c2);
}

#[test]
fn test_invert() {
    let c = Rgb::from_channels(200u8, 0, 255);
    assert_eq!(c.invert(), Rgb::from_channels(55u8, 255, 0));
}

#[test]
fn test_chroma() {
    let c = Rgb::from_channels(200u8, 150, 100);
    assert_eq!(c.get_chroma(), 100u8);

    let c2 = Rgb::from_channels(255u8, 0, 64);
    assert_eq!(c2.get_chroma(), 255u8);

    let c3 = Rgb::from_channels(128u8, 128, 128);
    assert_eq!(c3.get_chroma(), 0u8);
}

#[test]
fn test_hue() {
    let c1 = Rgb::from_channels(255u8, 0, 0);
    assert_eq!(degrees(c1.get_hue()), 0.0);
    assert!((degrees(Rgb::from_channels(0u8, 255, 0).get_hue()) - 120.0).abs() < 1e-9);
    assert!((degrees(Rgb::from_channels(0u8, 0, 255).get_hue()) - 240.0).abs() < 1e-9);
    assert!((degrees(Rgb::from_channels(128u8, 128, 0).get_hue()) - 60.0).abs() < 1e-6);
    assert!((degrees(Rgb::from_channels(128u8, 0, 128).get_hue()) - 300.0).abs() < 1e-6);
}

#[test]
fn hue_exact_fraction_for_green() {
    let t = Rgb::from_channels(0u8, 255, 0).get_hue();
    assert_eq!(3 * t.numer, t.denom);
}

#[test]
fn hue_of_orange_uses_the_guard() {
    // (255, 128, 0): offset 0, (128 - 0) / (6 * 255 + 1e-10).
    let t = Rgb::from_channels(255u8, 128, 0).get_hue();
    assert_eq!(t.denom, 3 * (6 * 255 * 10_000_000_000u128 + 1));
    assert_eq!(t.numer, 3 * 10_000_000_000u128 * 128);
    assert!((degrees(t) - 128.0 / 1530.0 * 360.0).abs() < 1e-6);
}

#[test]
fn hue_of_gray_is_zero() {
    let t = Rgb::from_channels(77u8, 77, 77).get_hue();
    assert_eq!(t.numer, 0);
}

#[test]
fn hue_when_blue_leads_green() {
    // (255, 0, 128): past magenta toward red.
    let d = degrees(Rgb::from_channels(255u8, 0, 128).get_hue());
    assert!((d - (360.0 - 128.0 / 1530.0 * 360.0)).abs() < 1e-6);
}

#[test]
fn invert_twice_is_identity_for_every_u8() {
    for v in 0..=255u8 {
        let c = Rgb::from_channels(v, 255 - v, v / 2);
        assert_eq!(c.invert().invert(), c);
    }
}

#[test]
fn invert_u16_channels() {
    let c = Rgb::from_channels(0u16, 1000, 65535);
    assert_eq!(c.invert(), Rgb::from_channels(65535u16, 64535, 0));
}

#[test]
fn lerp_ends_and_rounding() {
    let a = Rgb::from_channels(3u8, 250, 17);
    let b = Rgb::from_channels(254u8, 1, 17);
    assert_eq!(a.lerp(&b, 0, 7), a);
    assert_eq!(a.lerp(&b, 7, 7), b);
    // 3 + 251 / 3 = 86.67 -> 86; 250 - 249 / 3 = 167
    assert_eq!(a.lerp(&b, 1, 3), Rgb::from_channels(86u8, 167, 17));
}

#[test]
fn lerp_u32_extremes() {
    let a = Rgb::from_channels(0u32, u32::MAX, 5);
    let b = Rgb::from_channels(u32::MAX, 0, 5);
    assert_eq!(a.lerp(&b, u32::MAX, u32::MAX), b);
    assert_eq!(a.lerp(&b, 1, 2).red(), u32::MAX / 2);
}

#[test]
fn chroma_of_gray_is_zero() {
    for v in [0u8, 1, 127, 255] {
        assert_eq!(Rgb::broadcast(v).get_chroma(), 0);
    }
}

#[test]
fn clamp_each_channel() {
    let c = HomogeneousColor::clamp(Rgb::from_channels(10u8, 100, 250), 50, 200);
    assert_eq!(c, Rgb::from_channels(50u8, 100, 200));
}

#[test]
fn tuple_round_trip_and_setters() {
    let mut c = Rgb::from_tuple((1u8, 2, 3));
    assert_eq!(c.to_tuple(), (1, 2, 3));
    assert_eq!(Rgb::<u8>::num_channels(), 3);
    c.set_red(9);
    c.set_green(8);
    c.set_blue(7);
    *c.red_mut() += 1;
    assert_eq!(c, Rgb::from_channels(10u8, 8, 7));
    assert_eq!(c.red, BoundedChannel(10u8));
}

#[test]
fn integer_colors_are_normalized() {
    let c = Rgb::from_channels(0u8, 128, 255);
    assert!(c.is_normalized());
    assert_eq!(c.normalize(), c);
}

#[test]
fn slice_round_trip() {
    let c = Rgb::from_slice(&[4u8, 5, 6]);
    assert_eq!(c, Rgb::from_channels(4u8, 5, 6));
    assert_eq!(c.to_vec(), vec![4u8, 5, 6]);
}
