use prisma::color::{Bounded, Color, Invert, Lerp};
use prisma::rgb::Rgb;
use prisma::ycbcr::{BareYCbCr, Matrix3, OutOfGamutMode, YCbCrModel};

fn jpeg() -> YCbCrModel {
    YCbCrModel::new(
        Matrix3 {
            r0: (19595, 38470, 7471),
            r1: (-11059, -21709, 32768),
            r2: (32768, -27439, -5329),
        },
        Matrix3 {
            r0: (65536, 0, 91881),
            r1: (65536, -22554, -46802),
            r2: (65536, 116130, 0),
        },
        (0, 128, 128),
    )
}

fn close(a: u8, b: u8) -> bool {
    (a as i32 - b as i32).abs() <= 2
}

#[test]
fn rgb_ycbcr_round_trip() {
    let model = jpeg();
    let samples = [
        (0u8, 0u8, 0u8),
        (255, 255, 255),
        (255, 0, 0),
        (0, 255, 0),
        (0, 0, 255),
        (12, 200, 99),
        (128, 64, 32),
        (250, 240, 5),
    ];
    for (r, g, b) in samples {
        let rgb = Rgb::from_channels(r, g, b);
        let y = BareYCbCr::from_rgb_and_model(&rgb, &model);
        let back = y.to_rgb(&model, OutOfGamutMode::Preserve);
        assert!(close(back.red(), r) && close(back.green(), g) && close(back.blue(), b),
            "{:?} -> {:?}", rgb, back);
    }
}

#[test]
fn forward_transform_values() {
    let model = jpeg();
    let white = BareYCbCr::from_rgb_and_model(&Rgb::from_channels(255u8, 255, 255), &model);
    assert_eq!(white, BareYCbCr::from_channels(255u8, 128, 128));
    let red = BareYCbCr::from_rgb_and_model(&Rgb::from_channels(255u8, 0, 0), &model);
    // 0.299 * 255 = 76.2; -0.1687 * 255 + 128 = 84.97; 0.5 * 255 + 128 saturates.
    assert_eq!(red, BareYCbCr::from_channels(76u8, 85, 255));
}

#[test]
fn clip_gives_a_normalized_color() {
    let model = jpeg();
    let odd = BareYCbCr::from_channels(255u8, 0, 255);
    let clipped = odd.to_rgb(&model, OutOfGamutMode::Clip);
    assert!(clipped.is_normalized());
    let kept = odd.to_rgb(&model, OutOfGamutMode::Preserve);
    assert_eq!(clipped, kept);
    assert_eq!(clipped.red(), 255);
}

#[test]
fn ycbcr_accessors_and_ops() {
    let mut c = BareYCbCr::from_channels(10u8, 20, 30);
    assert_eq!((c.luma(), c.cb(), c.cr()), (10, 20, 30));
    c.set_luma(11);
    c.set_cb(21);
    c.set_cr(31);
    *c.cb_mut() += 1;
    *c.cr_mut() += 1;
    *c.luma_mut() += 1;
    assert_eq!(c.to_tuple(), (12, 22, 32));
    assert_eq!(c.invert(), BareYCbCr::from_channels(243u8, 233, 223));
    assert_eq!(c.invert().invert(), c);
    let d = BareYCbCr::from_channels(20u8, 20, 40);
    assert_eq!(c.lerp(&d, 1, 2), BareYCbCr::from_channels(16u8, 21, 36));
    assert!(c.is_normalized());
    assert_eq!(BareYCbCr::<u8>::default(), BareYCbCr::from_channels(0u8, 0, 0));
    let with = c.with_model(jpeg());
    assert_eq!(with.color, c);
    assert_eq!(with.model, jpeg());
}

#[test]
fn ycbcr_slice_round_trip() {
    let c = BareYCbCr::from_slice(&[7u16, 300, 65000]);
    assert_eq!(c, BareYCbCr::from_channels(7u16, 300, 65000));
    assert_eq!(c.to_vec(), vec![7u16, 300, 65000]);
}
