//! Color RGBA del motor de anotación y su paso a `COLORREF` de GDI.

use vstd::prelude::*;

verus! {

#[derive(Clone, Copy, PartialEq, Eq, Debug, Structural)]
pub struct Color {
    pub r: u8,
    pub g: u8,
    pub b: u8,
    pub a: u8,
}

impl Color {
    /// Color opaco.
    pub fn rgb(r: u8, g: u8, b: u8) -> (c: Color)
        ensures
            c == (Color { r, g, b, a: 255 }),
    {
        Color { r, g, b, a: 255 }
    }

    pub fn rgba(r: u8, g: u8, b: u8, a: u8) -> (c: Color)
        ensures
            c == (Color { r, g, b, a }),
    {
        Color { r, g, b, a }
    }
}

/// `COLORREF` (0x00BBGGRR) de unos canales: BGR, sin alfa.
pub open spec fn colorref_de(r: u8, g: u8, b: u8) -> u32 {
    (r + g * 256 + b * 65536) as u32
}

/// Color del motor → `COLORREF` de GDI, que va en BGR (no RGB) y sin alfa.
pub fn colorref(c: Color) -> (v: u32)
    ensures
        v == colorref_de(c.r, c.g, c.b),
{
    let (r, g, b) = (c.r as u32, c.g as u32, c.b as u32);
    assert(r | (g << 8) | (b << 16) == r + g * 256 + b * 65536) by (bit_vector)
        requires
            r < 256,
            g < 256,
            b < 256,
    ;
    r | (g << 8) | (b << 16)
}

/// Color de anotación por defecto: el acento cálido del diseño (#D83B01).
pub fn color_por_defecto() -> (c: Color)
    ensures
        c == (Color { r: 0xD8, g: 0x3B, b: 0x01, a: 255 }),
{
    Color::rgb(0xD8, 0x3B, 0x01)
}

/// Color opaco de un `COLORREF` (0x00BBGGRR): el byte bajo es el rojo.
pub open spec fn color_de_colorref_spec(v: u32) -> Color {
    Color { r: (v % 256) as u8, g: ((v / 256) % 256) as u8, b: ((v / 65536) % 256) as u8, a: 255 }
}

/// `COLORREF` que devuelve el diálogo de color → color opaco del motor.
pub fn color_de_colorref(v: u32) -> (c: Color)
    ensures
        c == color_de_colorref_spec(v),
{
    assert((v & 0xFF) == v % 256) by (bit_vector);
    assert(((v >> 8) & 0xFF) == (v / 256) % 256) by (bit_vector);
    assert(((v >> 16) & 0xFF) == (v / 65536) % 256) by (bit_vector);
    Color::rgb((v & 0xFF) as u8, ((v >> 8) & 0xFF) as u8, ((v >> 16) & 0xFF) as u8)
}

/// Pasar un color a `COLORREF` y volver da el mismo color, opaco.
pub proof fn ley_colorref_ida_y_vuelta(c: Color)
    ensures
        color_de_colorref_spec(colorref_de(c.r, c.g, c.b)) == (Color { a: 255, ..c }),
{
    let v = c.r + c.g * 256 + c.b * 65536;
    assert(0 <= v < 0x1000000) by (nonlinear_arith)
        requires
            v == c.r + c.g * 256 + c.b * 65536,
            0 <= c.r < 256,
            0 <= c.g < 256,
            0 <= c.b < 256,
    ;
    assert(v % 256 == c.r && (v / 256) % 256 == c.g && (v / 65536) % 256 == c.b) by (nonlinear_arith)
        requires
            v == c.r + c.g * 256 + c.b * 65536,
            0 <= c.r < 256,
            0 <= c.g < 256,
            0 <= c.b < 256,
    ;
}

} // verus!
