use prisma::color_space::named::SRgb;
use prisma::color_space::ConvertFromXyz;
use prisma::color_space::ConvertToXyz;
use prisma::encoding::EncodableColor;
use prisma::FromColor;
use prisma::Rgb;
use prisma::XyY;
use prisma::Xyz;
use rosthem::LightInfo;

/// The forward conversion the light command uses for an RGB input: sRGB
/// into XYZ, projected to chromaticity, each coordinate scaled to a
/// 16-bit unsigned integer.
fn rgb_to_xy(rgb: &Rgb<f32>) -> (u16, u16) {
    let xyy = XyY::from_color(&SRgb::new().convert_to_xyz(&rgb.srgb_encoded()));
    (
        (xyy.x() * u16::MAX as f32) as u16,
        (xyy.y() * u16::MAX as f32) as u16,
    )
}

/// The inverse conversion: chromaticity back through XYZ into sRGB.
fn xy_to_rgb(x: u16, y: u16) -> Rgb<f32> {
    let (x, y) = (x as f32 / u16::MAX as f32, y as f32 / u16::MAX as f32);
    SRgb::new()
        .convert_from_xyz(&Xyz::new(x, y, 1.0 - x - y))
        .color_cast()
}

/// Stores a primary color's chromaticity in a light command and converts
/// back: the dominant channel must stay dominant and the zero channels
/// must stay near zero — the round trip is lossy in luminance but keeps
/// the hue within the 16-bit quantization tolerance.
fn assert_primary_round_trip(rgb: Rgb<f32>) {
    let (x, y) = rgb_to_xy(&rgb);
    let li = LightInfo::new().color_xy(x, y);
    let (sx, sy) = li.get_color_xy().expect("chromaticity was stored");
    assert_eq!((sx, sy), (x, y));
    let back = xy_to_rgb(sx, sy);
    let orig = [rgb.red(), rgb.green(), rgb.blue()];
    let got = [back.red(), back.green(), back.blue()];
    for i in 0..3 {
        if orig[i] == 0.0 {
            assert!(
                got[i].abs() < 0.02,
                "zero channel {} drifted to {}",
                i,
                got[i]
            );
        } else {
            assert!(got[i] > 0.5, "dominant channel {} collapsed to {}", i, got[i]);
        }
    }
}

#[test]
fn red_primary_round_trips_within_tolerance() {
    assert_primary_round_trip(Rgb::new(1.0f32, 0.0, 0.0));
}

#[test]
fn green_primary_round_trips_within_tolerance() {
    assert_primary_round_trip(Rgb::new(0.0f32, 1.0, 0.0));
}

#[test]
fn blue_primary_round_trips_within_tolerance() {
    assert_primary_round_trip(Rgb::new(0.0f32, 0.0, 1.0));
}
