//! Base color types: [`ColorRgb`] and the [`Color`] capability trait.

use vstd::prelude::*;

verus! {

/// Capability of yielding an `(r, g, b)` representation with 8-bit channels.
pub trait Color: Sized {
    /// The red, green and blue intensities this color projects to.
    spec fn spec_rgb(&self) -> (u8, u8, u8);

    /// Get the projected red intensity.
    fn r(&self) -> (r: u8)
        ensures
            r == self.spec_rgb().0,
    ;

    /// Get the projected green intensity.
    fn g(&self) -> (g: u8)
        ensures
            g == self.spec_rgb().1,
    ;

    /// Get the projected blue intensity.
    fn b(&self) -> (b: u8)
        ensures
            b == self.spec_rgb().2,
    ;

    /// The three projected intensities as `[R, G, B]`.
    fn rgb(&self) -> (rgb: [u8; 3])
        ensures
            rgb[0] == self.spec_rgb().0,
            rgb[1] == self.spec_rgb().1,
            rgb[2] == self.spec_rgb().2,
    ;
}

/// RGB color representation: three 8-bit channels, no derived state.
#[derive(Clone, Debug, PartialEq, PartialOrd, Eq, Ord, Copy, Hash, Structural)]
pub struct ColorRgb {
    /// Red
    pub r: u8,
    /// Green
    pub g: u8,
    /// Blue
    pub b: u8,
}

impl ColorRgb {
    /// Create a new color from rgb values.
    pub fn new(r: u8, g: u8, b: u8) -> (c: Self)
        ensures
            c == (ColorRgb { r, g, b }),
    {
        Self { r, g, b }
    }

    /// Create a [`ColorRgb`] from `[R, G, B]`.
    pub fn new_from_array(array: [u8; 3]) -> (c: Self)
        ensures
            c == (ColorRgb { r: array[0], g: array[1], b: array[2] }),
    {
        Self { r: array[0], g: array[1], b: array[2] }
    }

    /// Get a mutable reference to the red intensity.
    pub fn r_mut(&mut self) -> (r: &mut u8)
        ensures
            *r == old(self).r,
            *final(self) == (ColorRgb { r: *final(r), ..*old(self) }),
    {
        &mut self.r
    }

    /// Get a mutable reference to the green intensity.
    pub fn g_mut(&mut self) -> (g: &mut u8)
        ensures
            *g == old(self).g,
            *final(self) == (ColorRgb { g: *final(g), ..*old(self) }),
    {
        &mut self.g
    }

    /// Get a mutable reference to the blue intensity.
    pub fn b_mut(&mut self) -> (b: &mut u8)
        ensures
            *b == old(self).b,
            *final(self) == (ColorRgb { b: *final(b), ..*old(self) }),
    {
        &mut self.b
    }

    /// Set the red intensity.
    pub fn set_r(&mut self, r: u8)
        ensures
            *final(self) == (ColorRgb { r, ..*old(self) }),
    {
        self.r = r;
    }

    /// Set the green intensity.
    pub fn set_g(&mut self, g: u8)
        ensures
            *final(self) == (ColorRgb { g, ..*old(self) }),
    {
        self.g = g;
    }

    /// Set the blue intensity.
    pub fn set_b(&mut self, b: u8)
        ensures
            *final(self) == (ColorRgb { b, ..*old(self) }),
    {
        self.b = b;
    }
}

impl Color for ColorRgb {
    open spec fn spec_rgb(&self) -> (u8, u8, u8) {
        (self.r, self.g, self.b)
    }

    fn r(&self) -> u8 {
        self.r
    }

    fn g(&self) -> u8 {
        self.g
    }

    fn b(&self) -> u8 {
        self.b
    }

    fn rgb(&self) -> [u8; 3] {
        [self.r, self.g, self.b]
    }
}

impl Default for ColorRgb {
    /// The black color: every channel 0.
    fn default() -> (c: Self)
        ensures
            c == (ColorRgb { r: 0, g: 0, b: 0 }),
    {
        ColorRgb::new(0, 0, 0)
    }
}

impl ColorRgb {
    /// Return the color as a u32 encoded as `0x00_RR_GG_BB`.
    pub fn into_u32(self) -> (n: u32)
        ensures
            n == self.r * 0x1_0000 + self.g * 0x100 + self.b,
    {
        (self.r as u32) * 0x1_0000 + (self.g as u32) * 0x100 + self.b as u32
    }

    /// Create the color from a u32 encoded as `0x**_RR_GG_BB`, where `**` is dropped.
    pub fn from_u32(c: u32) -> (color: Self)
        ensures
            color == (ColorRgb { r: (c >> 16u32) as u8, g: (c >> 8u32) as u8, b: c as u8 }),
    {
        Self::new((c >> 16u32) as u8, (c >> 8u32) as u8, c as u8)
    }
}

/// Alpha compositing against black: `floor(value * lum / 255)`, computed in
/// 16 bits so the product cannot overflow.
pub open spec fn spec_apply_luminosity(value: u8, lum: u8) -> u8 {
    ((value * lum) / 255) as u8
}

/// Color with an alpha parameter; channels project as if mixed with black.
#[derive(Clone, Copy, Debug, PartialEq, PartialOrd, Eq, Ord, Hash, Structural)]
pub struct ColorRgba {
    /// Base color
    pub color: ColorRgb,
    /// Opacity (0: transparent, 255: opaque)
    pub alpha: u8,
}

impl ColorRgba {
    /// Create a new RGBA color.
    pub fn new(r: u8, g: u8, b: u8, a: u8) -> (c: Self)
        ensures
            c == (ColorRgba { color: ColorRgb { r, g, b }, alpha: a }),
    {
        Self { color: ColorRgb::new(r, g, b), alpha: a }
    }

    /// Get the raw (uncomposited) red channel.
    pub fn r_raw(&self) -> (r: u8)
        ensures
            r == self.color.r,
    {
        self.color.r
    }

    /// Get the raw (uncomposited) green channel.
    pub fn g_raw(&self) -> (g: u8)
        ensures
            g == self.color.g,
    {
        self.color.g
    }

    /// Get the raw (uncomposited) blue channel.
    pub fn b_raw(&self) -> (b: u8)
        ensures
            b == self.color.b,
    {
        self.color.b
    }

    /// Get the transparency value (0: transparent, 255: opaque).
    pub fn a(&self) -> (a: u8)
        ensures
            a == self.alpha,
    {
        self.alpha
    }

    /// Get the transparency value (0: transparent, 255: opaque).
    pub fn alpha(&self) -> (a: u8)
        ensures
            a == self.alpha,
    {
        self.alpha
    }

    /// Get the raw color without the alpha.
    pub fn color(&self) -> (c: ColorRgb)
        ensures
            c == self.color,
    {
        self.color
    }

    /// Apply the opacity to one channel as if the color were mixed with black.
    pub fn apply_lumninosity(value: u8, lum: u8) -> (r: u8)
        ensures
            r == spec_apply_luminosity(value, lum),
    {
        assert((value as int) * (lum as int) <= 255 * 255) by (nonlinear_arith)
            requires
                value <= 255,
                lum <= 255,
        ;
        ((value as u16 * lum as u16) / 255u16) as u8
    }

    /// Convert the color into an RGB color, mixing it with black.
    pub fn into_color(self) -> (c: ColorRgb)
        ensures
            c.r == spec_apply_luminosity(self.color.r, self.alpha),
            c.g == spec_apply_luminosity(self.color.g, self.alpha),
            c.b == spec_apply_luminosity(self.color.b, self.alpha),
    {
        ColorRgb::new(self.r(), self.g(), self.b())
    }

    /// Convert the color to a u32: the raw `0x00_RR_GG_BB` encoding shifted
    /// left one nibble, with the alpha added in.
    pub fn into_u32(self) -> (n: u32)
        ensures
            n == (self.color.r * 0x1_0000 + self.color.g * 0x100 + self.color.b) * 0x10
                + self.alpha,
    {
        self.color.into_u32() * 0x10 + (self.alpha() as u32)
    }

    /// Convert a u32 back to a color, undoing the nibble shift of
    /// [`ColorRgba::into_u32`].
    pub fn from_u32(n: u32) -> (c: Self)
        ensures
            c.color == (ColorRgb {
                r: ((n >> 4u32) >> 16u32) as u8,
                g: ((n >> 4u32) >> 8u32) as u8,
                b: (n >> 4u32) as u8,
            }),
            c.alpha == n as u8,
    {
        Self { color: ColorRgb::from_u32(n >> 4u32), alpha: n as u8 }
    }
}

impl Color for ColorRgba {
    open spec fn spec_rgb(&self) -> (u8, u8, u8) {
        (
            spec_apply_luminosity(self.color.r, self.alpha),
            spec_apply_luminosity(self.color.g, self.alpha),
            spec_apply_luminosity(self.color.b, self.alpha),
        )
    }

    fn r(&self) -> u8 {
        Self::apply_lumninosity(self.color.r, self.alpha)
    }

    fn g(&self) -> u8 {
        Self::apply_lumninosity(self.color.g, self.alpha)
    }

    fn b(&self) -> u8 {
        Self::apply_lumninosity(self.color.b, self.alpha)
    }

    fn rgb(&self) -> [u8; 3] {
        [self.r(), self.g(), self.b()]
    }
}

impl Default for ColorRgba {
    /// Opaque black.
    fn default() -> (c: Self)
        ensures
            c == (ColorRgba { color: ColorRgb { r: 0, g: 0, b: 0 }, alpha: 0 }),
    {
        ColorRgba::new(0, 0, 0, 0)
    }
}

} // verus!
