//! The Swiss French layout: the static table associating each physical key
//! to its light code, its key-event code and its name.

use vstd::prelude::*;

use crate::key_name::KeyName;
use crate::keypress::KeyCode;
use crate::layout::KeyInfo;
use crate::layout::KeyLight;
use crate::layout::Layout;

verus! {

/// Number of keys in the Swiss French layout table.
pub const LAYOUT_FR_CH_KEY_COUNT: usize = 107;

/// Build the Swiss French key association table. The table contents are
/// fixed hardware data; lookups over it are specified exactly by the
/// [`Layout`] trait.
#[verifier::rlimit(50)]
pub fn layout_info_fr_ch() -> (r: Vec<KeyInfo>)
    ensures
        r@.len() == LAYOUT_FR_CH_KEY_COUNT,
{
    let mut table: Vec<KeyInfo> = Vec::new();
    table.push(KeyInfo::new(KeyLight::new(3), KeyCode::new(10, 57), KeyName::CapsLock));
    table.push(KeyInfo::new(KeyLight::new(250), KeyCode::new(204, 1), KeyName::WheelUp));
    table.push(KeyInfo::new(KeyLight::new(251), KeyCode::new(204, 255), KeyName::WheelDown));
    table.push(KeyInfo::new(KeyLight::new(0), KeyCode::new(251, 17), KeyName::Escape));
    table.push(KeyInfo::new(KeyLight::new(1), KeyCode::new(251, 18), KeyName::Section));
    table.push(KeyInfo::new(KeyLight::new(2), KeyCode::new(251, 20), KeyName::Tab));
    table.push(KeyInfo::new(KeyLight::new(4), KeyCode::new(251, 22), KeyName::LeftShift));
    table.push(KeyInfo::new(KeyLight::new(5), KeyCode::new(251, 23), KeyName::LeftControl));
    table.push(KeyInfo::new(KeyLight::new(6), KeyCode::new(251, 19), KeyName::Key1));
    table.push(KeyInfo::new(KeyLight::new(7), KeyCode::new(251, 26), KeyName::Q));
    assert(table@.len() == 10);
    table.push(KeyInfo::new(KeyLight::new(8), KeyCode::new(251, 28), KeyName::A));
    table.push(KeyInfo::new(KeyLight::new(9), KeyCode::new(251, 29), KeyName::LessThan));
    table.push(KeyInfo::new(KeyLight::new(10), KeyCode::new(251, 31), KeyName::Super));
    table.push(KeyInfo::new(KeyLight::new(11), KeyCode::new(251, 16), KeyName::F1));
    table.push(KeyInfo::new(KeyLight::new(12), KeyCode::new(251, 25), KeyName::Key2));
    table.push(KeyInfo::new(KeyLight::new(13), KeyCode::new(251, 27), KeyName::W));
    table.push(KeyInfo::new(KeyLight::new(14), KeyCode::new(251, 37), KeyName::S));
    table.push(KeyInfo::new(KeyLight::new(15), KeyCode::new(251, 38), KeyName::Y));
    table.push(KeyInfo::new(KeyLight::new(16), KeyCode::new(251, 39), KeyName::Alt));
    table.push(KeyInfo::new(KeyLight::new(17), KeyCode::new(251, 24), KeyName::F2));
    assert(table@.len() == 20);
    table.push(KeyInfo::new(KeyLight::new(18), KeyCode::new(251, 34), KeyName::Key3));
    table.push(KeyInfo::new(KeyLight::new(19), KeyCode::new(251, 36), KeyName::E));
    table.push(KeyInfo::new(KeyLight::new(20), KeyCode::new(251, 44), KeyName::D));
    table.push(KeyInfo::new(KeyLight::new(21), KeyCode::new(251, 45), KeyName::X));
    table.push(KeyInfo::new(KeyLight::new(23), KeyCode::new(251, 33), KeyName::F3));
    table.push(KeyInfo::new(KeyLight::new(24), KeyCode::new(251, 35), KeyName::Key4));
    table.push(KeyInfo::new(KeyLight::new(25), KeyCode::new(251, 43), KeyName::R));
    table.push(KeyInfo::new(KeyLight::new(26), KeyCode::new(251, 53), KeyName::F));
    table.push(KeyInfo::new(KeyLight::new(27), KeyCode::new(251, 46), KeyName::C));
    table.push(KeyInfo::new(KeyLight::new(28), KeyCode::new(251, 32), KeyName::F4));
    assert(table@.len() == 30);
    table.push(KeyInfo::new(KeyLight::new(29), KeyCode::new(251, 42), KeyName::Key5));
    table.push(KeyInfo::new(KeyLight::new(30), KeyCode::new(251, 51), KeyName::T));
    table.push(KeyInfo::new(KeyLight::new(31), KeyCode::new(251, 52), KeyName::G));
    table.push(KeyInfo::new(KeyLight::new(32), KeyCode::new(251, 54), KeyName::V));
    table.push(KeyInfo::new(KeyLight::new(33), KeyCode::new(251, 41), KeyName::Key6));
    table.push(KeyInfo::new(KeyLight::new(34), KeyCode::new(251, 59), KeyName::Z));
    table.push(KeyInfo::new(KeyLight::new(35), KeyCode::new(251, 61), KeyName::H));
    table.push(KeyInfo::new(KeyLight::new(36), KeyCode::new(251, 62), KeyName::B));
    table.push(KeyInfo::new(KeyLight::new(37), KeyCode::new(251, 63), KeyName::Space));
    table.push(KeyInfo::new(KeyLight::new(48), KeyCode::new(251, 40), KeyName::F5));
    assert(table@.len() == 40);
    table.push(KeyInfo::new(KeyLight::new(49), KeyCode::new(251, 49), KeyName::Key7));
    table.push(KeyInfo::new(KeyLight::new(50), KeyCode::new(251, 60), KeyName::U));
    table.push(KeyInfo::new(KeyLight::new(51), KeyCode::new(251, 68), KeyName::J));
    table.push(KeyInfo::new(KeyLight::new(52), KeyCode::new(251, 71), KeyName::N));
    table.push(KeyInfo::new(KeyLight::new(53), KeyCode::new(251, 48), KeyName::F6));
    table.push(KeyInfo::new(KeyLight::new(54), KeyCode::new(251, 66), KeyName::Key8));
    table.push(KeyInfo::new(KeyLight::new(55), KeyCode::new(251, 67), KeyName::I));
    table.push(KeyInfo::new(KeyLight::new(56), KeyCode::new(251, 69), KeyName::K));
    table.push(KeyInfo::new(KeyLight::new(57), KeyCode::new(251, 70), KeyName::M));
    table.push(KeyInfo::new(KeyLight::new(59), KeyCode::new(251, 56), KeyName::F7));
    assert(table@.len() == 50);
    table.push(KeyInfo::new(KeyLight::new(60), KeyCode::new(251, 65), KeyName::Key9));
    table.push(KeyInfo::new(KeyLight::new(61), KeyCode::new(251, 76), KeyName::O));
    table.push(KeyInfo::new(KeyLight::new(62), KeyCode::new(251, 77), KeyName::L));
    table.push(KeyInfo::new(KeyLight::new(63), KeyCode::new(251, 78), KeyName::Comma));
    table.push(KeyInfo::new(KeyLight::new(65), KeyCode::new(251, 57), KeyName::F8));
    table.push(KeyInfo::new(KeyLight::new(66), KeyCode::new(251, 74), KeyName::Key0));
    table.push(KeyInfo::new(KeyLight::new(67), KeyCode::new(251, 84), KeyName::P));
    table.push(KeyInfo::new(KeyLight::new(68), KeyCode::new(251, 85), KeyName::EAcute));
    table.push(KeyInfo::new(KeyLight::new(69), KeyCode::new(251, 86), KeyName::Dot));
    table.push(KeyInfo::new(KeyLight::new(70), KeyCode::new(251, 103), KeyName::AltGr));
    assert(table@.len() == 60);
    table.push(KeyInfo::new(KeyLight::new(72), KeyCode::new(251, 75), KeyName::Apostrophe));
    table.push(KeyInfo::new(KeyLight::new(73), KeyCode::new(251, 91), KeyName::EGrave));
    table.push(KeyInfo::new(KeyLight::new(74), KeyCode::new(251, 93), KeyName::AGrave));
    table.push(KeyInfo::new(KeyLight::new(75), KeyCode::new(251, 94), KeyName::Dash));
    table.push(KeyInfo::new(KeyLight::new(76), KeyCode::new(251, 119), KeyName::Function));
    table.push(KeyInfo::new(KeyLight::new(78), KeyCode::new(251, 64), KeyName::F9));
    table.push(KeyInfo::new(KeyLight::new(79), KeyCode::new(251, 83), KeyName::Caret));
    table.push(KeyInfo::new(KeyLight::new(80), KeyCode::new(251, 92), KeyName::Diaeresis));
    table.push(KeyInfo::new(KeyLight::new(82), KeyCode::new(251, 110), KeyName::RightShift));
    table.push(KeyInfo::new(KeyLight::new(83), KeyCode::new(251, 127), KeyName::Menu));
    assert(table@.len() == 70);
    table.push(KeyInfo::new(KeyLight::new(84), KeyCode::new(251, 72), KeyName::F10));
    table.push(KeyInfo::new(KeyLight::new(85), KeyCode::new(251, 80), KeyName::F11));
    table.push(KeyInfo::new(KeyLight::new(86), KeyCode::new(251, 81), KeyName::F12));
    table.push(KeyInfo::new(KeyLight::new(87), KeyCode::new(251, 73), KeyName::BackSpace));
    table.push(KeyInfo::new(KeyLight::new(88), KeyCode::new(251, 107), KeyName::Enter));
    table.push(KeyInfo::new(KeyLight::new(89), KeyCode::new(251, 135), KeyName::RightControl));
    table.push(KeyInfo::new(KeyLight::new(96), KeyCode::new(251, 100), KeyName::Dolar));
    table.push(KeyInfo::new(KeyLight::new(99), KeyCode::new(251, 88), KeyName::PrintScreen));
    table.push(KeyInfo::new(KeyLight::new(100), KeyCode::new(251, 89), KeyName::Insert));
    table.push(KeyInfo::new(KeyLight::new(101), KeyCode::new(251, 90), KeyName::Delete));
    assert(table@.len() == 80);
    table.push(KeyInfo::new(KeyLight::new(102), KeyCode::new(251, 109), KeyName::ArrowLeft));
    table.push(KeyInfo::new(KeyLight::new(103), KeyCode::new(251, 96), KeyName::ScrollLock));
    table.push(KeyInfo::new(KeyLight::new(104), KeyCode::new(251, 97), KeyName::Home));
    table.push(KeyInfo::new(KeyLight::new(105), KeyCode::new(251, 98), KeyName::End));
    table.push(KeyInfo::new(KeyLight::new(106), KeyCode::new(251, 108), KeyName::ArrowUp));
    table.push(KeyInfo::new(KeyLight::new(107), KeyCode::new(251, 117), KeyName::ArrowDown));
    table.push(KeyInfo::new(KeyLight::new(108), KeyCode::new(251, 104), KeyName::Break));
    table.push(KeyInfo::new(KeyLight::new(109), KeyCode::new(251, 105), KeyName::PageUp));
    table.push(KeyInfo::new(KeyLight::new(110), KeyCode::new(251, 106), KeyName::PageDown));
    table.push(KeyInfo::new(KeyLight::new(111), KeyCode::new(251, 125), KeyName::ArrowRight));
    assert(table@.len() == 90);
    table.push(KeyInfo::new(KeyLight::new(113), KeyCode::new(251, 113), KeyName::NumLock));
    table.push(KeyInfo::new(KeyLight::new(114), KeyCode::new(251, 114), KeyName::Num7));
    table.push(KeyInfo::new(KeyLight::new(115), KeyCode::new(251, 115), KeyName::Num4));
    table.push(KeyInfo::new(KeyLight::new(116), KeyCode::new(251, 116), KeyName::Num1));
    table.push(KeyInfo::new(KeyLight::new(117), KeyCode::new(251, 133), KeyName::Num0));
    table.push(KeyInfo::new(KeyLight::new(119), KeyCode::new(251, 121), KeyName::NumDivide));
    table.push(KeyInfo::new(KeyLight::new(120), KeyCode::new(251, 122), KeyName::Num8));
    table.push(KeyInfo::new(KeyLight::new(121), KeyCode::new(251, 123), KeyName::Num5));
    table.push(KeyInfo::new(KeyLight::new(122), KeyCode::new(251, 124), KeyName::Num2));
    table.push(KeyInfo::new(KeyLight::new(124), KeyCode::new(251, 129), KeyName::NumMultiply));
    assert(table@.len() == 100);
    table.push(KeyInfo::new(KeyLight::new(125), KeyCode::new(251, 130), KeyName::Num9));
    table.push(KeyInfo::new(KeyLight::new(126), KeyCode::new(251, 131), KeyName::Num6));
    table.push(KeyInfo::new(KeyLight::new(127), KeyCode::new(251, 132), KeyName::Num3));
    table.push(KeyInfo::new(KeyLight::new(128), KeyCode::new(251, 141), KeyName::NumDot));
    table.push(KeyInfo::new(KeyLight::new(129), KeyCode::new(251, 137), KeyName::NumMinus));
    table.push(KeyInfo::new(KeyLight::new(130), KeyCode::new(251, 138), KeyName::NumPlus));
    table.push(KeyInfo::new(KeyLight::new(131), KeyCode::new(251, 140), KeyName::NumEnter));
    assert(table@.len() == 107);
    table
}

/// Swiss French layout.
#[derive(Debug, Clone, PartialEq, Eq)]
pub struct LayoutFrCh {
    /// The key association table
    pub layout: Vec<KeyInfo>,
}

impl LayoutFrCh {
    /// Initialize the layout with its key association table.
    pub fn new() -> (r: Self)
        ensures
            r.layout@.len() == LAYOUT_FR_CH_KEY_COUNT,
    {
        Self { layout: layout_info_fr_ch() }
    }

    /// Get the key association table.
    pub fn layout_key_info(&self) -> (r: &Vec<KeyInfo>)
        ensures
            r@ == self.layout@,
    {
        &self.layout
    }
}

impl Default for LayoutFrCh {
    /// The layout with its key association table.
    fn default() -> (r: Self)
        ensures
            r.layout@.len() == LAYOUT_FR_CH_KEY_COUNT,
    {
        Self::new()
    }
}

impl Layout for LayoutFrCh {
    open spec fn spec_layout(&self) -> Seq<KeyInfo> {
        self.layout@
    }

    fn layout(&self) -> (r: Vec<KeyInfo>) {
        let mut r: Vec<KeyInfo> = Vec::new();
        let mut i: usize = 0;
        while i < self.layout.len()
            invariant
                i <= self.layout@.len(),
                r@ == self.layout@.subrange(0, i as int),
            decreases self.layout@.len() - i,
        {
            r.push(self.layout[i]);
            proof {
                assert(r@ =~= self.layout@.subrange(0, i + 1));
            }
            i = i + 1;
        }
        proof {
            assert(r@ =~= self.layout@);
        }
        r
    }

    fn find_from_key_name(&self, key_name: KeyName) -> (r: Option<KeyInfo>) {
        let mut i: usize = 0;
        while i < self.layout.len()
            invariant
                i <= self.layout@.len(),
                forall|j: int|
                    0 <= j < i ==> (#[trigger] self.layout@[j]).key_name != key_name,
            decreases self.layout@.len() - i,
        {
            if self.layout[i].key_name == key_name {
                return Some(self.layout[i]);
            }
            i = i + 1;
        }
        None
    }

    fn find_from_key_code(&self, key_code: KeyCode) -> (r: Option<KeyInfo>) {
        let mut i: usize = 0;
        while i < self.layout.len()
            invariant
                i <= self.layout@.len(),
                forall|j: int|
                    0 <= j < i ==> (#[trigger] self.layout@[j]).key_code_press != key_code,
            decreases self.layout@.len() - i,
        {
            if self.layout[i].key_code_press == key_code {
                return Some(self.layout[i]);
            }
            i = i + 1;
        }
        None
    }

    fn find_from_key_light(&self, key_code: KeyLight) -> (r: Option<KeyInfo>) {
        let mut i: usize = 0;
        while i < self.layout.len()
            invariant
                i <= self.layout@.len(),
                forall|j: int|
                    0 <= j < i ==> (#[trigger] self.layout@[j]).key_code_light != key_code,
            decreases self.layout@.len() - i,
        {
            if self.layout[i].key_code_light == key_code {
                return Some(self.layout[i]);
            }
            i = i + 1;
        }
        None
    }
}

} // verus!
