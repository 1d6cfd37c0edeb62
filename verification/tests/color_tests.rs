//! Tests of the color types and the alpha projection.

use roccat_vulcan_api_rs::Color;
use roccat_vulcan_api_rs::ColorRgb;
use roccat_vulcan_api_rs::ColorRgba;

#[test]
fn color() {
    let ca = ColorRgba::new(30, 87, 70, 255);
    let c = ColorRgb::new(30, 87, 70);
    assert_eq!(c, ca.color());
    assert_eq!(c.r(), ca.r());

    let ca = ColorRgba::new(20, 0, 0, 128);
    assert_eq!(ca.r(), 10);
    assert_eq!(ca.b(), 0);
}

#[test]
fn rgba_projection_composites_against_black() {
    let ca = ColorRgba::new(20, 0, 0, 128);
    assert_eq!(ca.r(), 10);
    assert_eq!(ca.g(), 0);
    assert_eq!(ca.b(), 0);
    assert_eq!(ca.r_raw(), 20);
    assert_eq!(ca.a(), 128);
    let opaque = ColorRgba::new(200, 100, 50, 255);
    assert_eq!(opaque.into_color(), ColorRgb::new(200, 100, 50));
    let transparent = ColorRgba::new(200, 100, 50, 0);
    assert_eq!(transparent.into_color(), ColorRgb::new(0, 0, 0));
}

#[test]
fn rgb_u32_roundtrip() {
    let color = ColorRgb::new(0xff, 0xc5, 0x09);
    let number = 0x00_ff_c5_09_u32;
    assert_eq!(color.into_u32(), number);
    assert_eq!(ColorRgb::from_u32(number), color);
}

#[test]
fn rgba_u32_encoding() {
    let ca = ColorRgba::new(1, 2, 3, 4);
    assert_eq!(ca.into_u32(), 0x00_10_20_34);
    let back = ColorRgba::from_u32(0x00_10_20_34);
    assert_eq!(back.color(), ColorRgb::new(1, 2, 3));
    assert_eq!(back.a(), 0x34);
}

#[test]
fn rgb_accessors_and_setters() {
    let mut c = ColorRgb::new(1, 2, 3);
    assert_eq!(c.rgb(), [1, 2, 3]);
    c.set_r(10);
    c.set_g(20);
    c.set_b(30);
    assert_eq!(c, ColorRgb::new(10, 20, 30));
    *c.r_mut() = 40;
    assert_eq!(c.r(), 40);
    assert_eq!(ColorRgb::new_from_array([7, 8, 9]), ColorRgb::new(7, 8, 9));
    assert_eq!(ColorRgb::default(), ColorRgb::new(0, 0, 0));
}
