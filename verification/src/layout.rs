//! Key association data: light codes, the per-key association record
//! [`KeyInfo`], and the [`Layout`] lookup capability.

use vstd::prelude::*;

use crate::key_name::KeyName;
use crate::keypress::KeyCode;

verus! {

/// Code for a key light: the key's index into the color buffer. A distinct
/// numbering space from [`KeyCode`], assigned by hardware wiring, with
/// gaps.
#[derive(Debug, Clone, Copy, PartialEq, Eq, PartialOrd, Ord, Hash, Structural)]
pub struct KeyLight {
    /// The light code
    pub code: u8,
}

impl KeyLight {
    /// Create a new [`KeyLight`].
    pub fn new(n: u8) -> (r: Self)
        ensures
            r == (KeyLight { code: n }),
    {
        Self { code: n }
    }

    /// Get the light code.
    pub fn code(self) -> (r: u8)
        ensures
            r == self.code,
    {
        self.code
    }

    /// Get a mutable reference to the light code.
    pub fn code_mut(&mut self) -> (r: &mut u8)
        ensures
            *r == old(self).code,
            *final(self) == (KeyLight { code: *final(r) }),
    {
        &mut self.code
    }
}

impl Default for KeyLight {
    /// The zero light code.
    fn default() -> (r: Self)
        ensures
            r == (KeyLight { code: 0 }),
    {
        KeyLight::new(0)
    }
}

/// Associative data for one physical key: its name, its light code and its
/// key-event code. The key's on-keyboard position is kept by the caller
/// that draws layouts; the lookup logic here never reads it.
#[derive(Debug, Clone, Copy, PartialEq, Eq, Hash, Structural)]
pub struct KeyInfo {
    /// Symbolic name of the key
    pub key_name: KeyName,
    /// The key's index into the color buffer
    pub key_code_light: KeyLight,
    /// The code the read channel emits for the key
    pub key_code_press: KeyCode,
}

impl KeyInfo {
    /// Create a new key info.
    pub fn new(key_code_light: KeyLight, key_code_press: KeyCode, key_name: KeyName) -> (r: Self)
        ensures
            r == (KeyInfo { key_name, key_code_light, key_code_press }),
    {
        Self { key_name, key_code_light, key_code_press }
    }

    /// Get the key's light code.
    pub fn key_code_light(&self) -> (r: &KeyLight)
        ensures
            *r == self.key_code_light,
    {
        &self.key_code_light
    }

    /// Get the key's event code.
    pub fn key_code_press(&self) -> (r: &KeyCode)
        ensures
            *r == self.key_code_press,
    {
        &self.key_code_press
    }

    /// Get the key's name.
    pub fn key_name(&self) -> (r: &KeyName)
        ensures
            *r == self.key_name,
    {
        &self.key_name
    }

    /// Get a mutable reference to the key's light code.
    pub fn key_code_light_mut(&mut self) -> (r: &mut KeyLight)
        ensures
            *r == old(self).key_code_light,
            *final(self) == (KeyInfo { key_code_light: *final(r), ..*old(self) }),
    {
        &mut self.key_code_light
    }

    /// Get a mutable reference to the key's event code.
    pub fn key_code_press_mut(&mut self) -> (r: &mut KeyCode)
        ensures
            *r == old(self).key_code_press,
            *final(self) == (KeyInfo { key_code_press: *final(r), ..*old(self) }),
    {
        &mut self.key_code_press
    }

    /// Get a mutable reference to the key's name.
    pub fn key_name_mut(&mut self) -> (r: &mut KeyName)
        ensures
            *r == old(self).key_name,
            *final(self) == (KeyInfo { key_name: *final(r), ..*old(self) }),
    {
        &mut self.key_name
    }
}

/// A keyboard layout: a table of key associations with exact first-match
/// lookup by name, by event code or by light code.
pub trait Layout: Sized {
    /// The table of key associations this layout exposes.
    spec fn spec_layout(&self) -> Seq<KeyInfo>;

    /// Get the table of key associations.
    fn layout(&self) -> (r: Vec<KeyInfo>)
        ensures
            r@ == self.spec_layout(),
    ;

    /// Find the first entry carrying this key name, if any.
    fn find_from_key_name(&self, key_name: KeyName) -> (r: Option<KeyInfo>)
        ensures
            match r {
                Some(info) => exists|i: int|
                    0 <= i < self.spec_layout().len() && #[trigger] self.spec_layout()[i] == info
                        && info.key_name == key_name && (forall|j: int|
                        0 <= j < i ==> (#[trigger] self.spec_layout()[j]).key_name != key_name),
                None => forall|i: int|
                    0 <= i < self.spec_layout().len() ==> (
                    #[trigger] self.spec_layout()[i]).key_name != key_name,
            },
    ;

    /// Find the first entry carrying this key-event code, if any.
    fn find_from_key_code(&self, key_code: KeyCode) -> (r: Option<KeyInfo>)
        ensures
            match r {
                Some(info) => exists|i: int|
                    0 <= i < self.spec_layout().len() && #[trigger] self.spec_layout()[i] == info
                        && info.key_code_press == key_code && (forall|j: int|
                        0 <= j < i ==> (#[trigger] self.spec_layout()[j]).key_code_press
                            != key_code),
                None => forall|i: int|
                    0 <= i < self.spec_layout().len() ==> (
                    #[trigger] self.spec_layout()[i]).key_code_press != key_code,
            },
    ;

    /// Find the first entry carrying this light code, if any.
    fn find_from_key_light(&self, key_code: KeyLight) -> (r: Option<KeyInfo>)
        ensures
            match r {
                Some(info) => exists|i: int|
                    0 <= i < self.spec_layout().len() && #[trigger] self.spec_layout()[i] == info
                        && info.key_code_light == key_code && (forall|j: int|
                        0 <= j < i ==> (#[trigger] self.spec_layout()[j]).key_code_light
                            != key_code),
                None => forall|i: int|
                    0 <= i < self.spec_layout().len() ==> (
                    #[trigger] self.spec_layout()[i]).key_code_light != key_code,
            },
    ;
}

} // verus!
