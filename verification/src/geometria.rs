//! Rectángulo de píxeles en coordenadas de escritorio virtual: origen con
//! signo (los monitores pueden tener origen negativo) y lados sin signo.

use vstd::prelude::*;

verus! {

#[derive(Clone, Copy, PartialEq, Eq, Debug, Structural)]
pub struct Rect {
    pub x: i32,
    pub y: i32,
    pub width: u32,
    pub height: u32,
}

impl Rect {
    /// Borde derecho (exclusivo) sobre enteros.
    pub open spec fn fin_x(self) -> int {
        self.x + self.width
    }

    /// Borde inferior (exclusivo) sobre enteros.
    pub open spec fn fin_y(self) -> int {
        self.y + self.height
    }

    /// Sin área.
    pub open spec fn vacio(self) -> bool {
        self.width == 0 || self.height == 0
    }

    /// El punto cae dentro (bordes derecho e inferior excluidos).
    pub open spec fn tiene_punto(self, p: (i32, i32)) -> bool {
        self.x <= p.0 < self.fin_x() && self.y <= p.1 < self.fin_y()
    }

    /// Área en píxeles.
    pub open spec fn area(self) -> int {
        self.width * self.height
    }

    pub fn new(x: i32, y: i32, width: u32, height: u32) -> (r: Self)
        ensures
            r == (Rect { x, y, width, height }),
    {
        Rect { x, y, width, height }
    }

    pub fn is_empty(&self) -> (b: bool)
        ensures
            b == self.vacio(),
    {
        self.width == 0 || self.height == 0
    }

    /// Borde derecho (exclusivo); en 64 bits nunca desborda.
    pub fn right(&self) -> (r: i64)
        ensures
            r == self.fin_x(),
    {
        self.x as i64 + self.width as i64
    }

    /// Borde inferior (exclusivo); en 64 bits nunca desborda.
    pub fn bottom(&self) -> (r: i64)
        ensures
            r == self.fin_y(),
    {
        self.y as i64 + self.height as i64
    }

    pub fn contains_point(&self, p: (i32, i32)) -> (b: bool)
        ensures
            b == self.tiene_punto(p),
    {
        self.x <= p.0 && (p.0 as i64) < self.right() && self.y <= p.1 && (p.1 as i64)
            < self.bottom()
    }

    /// `otro` cabe entero dentro de este rectángulo.
    pub fn contains(&self, otro: &Rect) -> (b: bool)
        ensures
            b == (self.x <= otro.x && otro.fin_x() <= self.fin_x() && self.y <= otro.y
                && otro.fin_y() <= self.fin_y()),
    {
        self.x <= otro.x && otro.right() <= self.right() && self.y <= otro.y && otro.bottom()
            <= self.bottom()
    }
}

/// Rectángulo por bordes (el `RECT` de Win32): izquierda y arriba
/// incluidas, derecha y abajo excluidas.
#[derive(Clone, Copy, PartialEq, Eq, Debug, Structural)]
pub struct Zona {
    pub left: i32,
    pub top: i32,
    pub right: i32,
    pub bottom: i32,
}

impl Zona {
    /// El punto cae dentro (derecha y abajo excluidas).
    pub open spec fn tiene_punto(self, p: (i32, i32)) -> bool {
        self.left <= p.0 < self.right && self.top <= p.1 < self.bottom
    }

    pub fn contiene(&self, p: (i32, i32)) -> (b: bool)
        ensures
            b == self.tiene_punto(p),
    {
        p.0 >= self.left && p.0 < self.right && p.1 >= self.top && p.1 < self.bottom
    }
}

} // verus!
