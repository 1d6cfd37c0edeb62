//! Tests of the Swiss French layout table and its lookup functions.

use roccat_vulcan_api_rs::KeyLight;
use roccat_vulcan_api_rs::Layout;
use roccat_vulcan_api_rs::LayoutFrCh;
use roccat_vulcan_api_rs::layout_info_fr_ch;

#[test]
fn search_key_layout_ch_fr() {
    let layout = LayoutFrCh::new();
    for key_info in layout.layout().iter() {
        assert_eq!(
            layout.find_from_key_light(*key_info.key_code_light()),
            Some(*key_info)
        );
        assert_eq!(
            layout.find_from_key_code(*key_info.key_code_press()),
            Some(*key_info)
        );
        assert_eq!(
            layout.find_from_key_name(*key_info.key_name()),
            Some(*key_info)
        );
    }
}

#[test]
fn layout_get_gen() {
    let layout = layout_info_fr_ch();
    assert_eq!(&layout, LayoutFrCh::new().layout_key_info());
    assert_eq!(&layout, LayoutFrCh::default().layout_key_info());
    assert_eq!(layout, LayoutFrCh::default().layout());
}

#[test]
fn layout_gen_key() {
    let layout = LayoutFrCh::default();
    for i in 1_u8..=21_u8 {
        assert_has_key_light(&layout, i);
    }
    for i in 23_u8..=37_u8 {
        assert_has_key_light(&layout, i);
    }
    for i in 48_u8..=57 {
        assert_has_key_light(&layout, i);
    }
    for i in 59..=63 {
        assert_has_key_light(&layout, i);
    }
    for i in 65..=70 {
        assert_has_key_light(&layout, i);
    }
    for i in 72..=76 {
        assert_has_key_light(&layout, i);
    }
    for i in 78..=80 {
        assert_has_key_light(&layout, i);
    }
    for i in 82..=89 {
        assert_has_key_light(&layout, i);
    }
    assert_has_key_light(&layout, 96);
    for i in 99..=111 {
        assert_has_key_light(&layout, i);
    }
    for i in 113..=117 {
        assert_has_key_light(&layout, i);
    }
    for i in 119..=122 {
        assert_has_key_light(&layout, i);
    }
    for i in 124..=131 {
        assert_has_key_light(&layout, i);
    }
    for i in 250..=251 {
        assert_has_key_light(&layout, i);
    }
}

fn assert_has_key_light(layout: &impl Layout, code: u8) {
    let key_light = KeyLight::new(code);
    assert!(
        layout.find_from_key_light(key_light).is_some(),
        "missing light code {:?}",
        key_light
    );
}
