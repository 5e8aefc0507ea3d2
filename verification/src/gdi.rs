//! Lo que decide la fuente de pantalla GDI: los rectángulos que salen de
//! las métricas y bordes que da el sistema, y qué regiones se pueden
//! capturar. Las llamadas a GDI las hace quien use esta biblioteca.

use vstd::prelude::*;
use crate::aritmetica::acotado;
use crate::geometria::Rect;

verus! {

/// Por qué no se pudo capturar.
#[derive(PartialEq, Eq, Debug)]
pub enum ScreenSourceError {
    /// La región está vacía o se sale del escritorio virtual.
    OutOfBounds(Rect),
    /// El sistema falló; lleva su mensaje.
    Platform(String),
}

/// Fuente de pantalla sobre GDI. Sin estado entre capturas.
pub struct GdiScreenSource;

/// `right - left` a la manera de `i32::saturating_sub` seguido de
/// `max(0)`: la diferencia acotada a `0..=i32::MAX`.
pub open spec fn lado_de_bordes(desde: i32, hasta: i32) -> u32 {
    acotado(hasta - desde, 0, i32::MAX as int) as u32
}

/// Rect de unos bordes izquierdo, superior, derecho e inferior.
pub open spec fn rect_de_bordes_spec(left: i32, top: i32, right: i32, bottom: i32) -> Rect {
    Rect { x: left, y: top, width: lado_de_bordes(left, right), height: lado_de_bordes(top, bottom) }
}

/// La región se puede capturar: tiene área y cabe entera en el escritorio.
pub open spec fn region_capturable(region: Rect, escritorio: Rect) -> bool {
    &&& !region.vacio()
    &&& escritorio.x <= region.x
    &&& region.fin_x() <= escritorio.fin_x()
    &&& escritorio.y <= region.y
    &&& region.fin_y() <= escritorio.fin_y()
}

fn lado(desde: i32, hasta: i32) -> (l: u32)
    ensures
        l == lado_de_bordes(desde, hasta),
{
    let d: i64 = hasta as i64 - desde as i64;
    if d < 0 {
        0
    } else if d > i32::MAX as i64 {
        i32::MAX as u32
    } else {
        d as u32
    }
}

impl GdiScreenSource {
    pub fn new() -> (s: Self)
        ensures
            s == GdiScreenSource,
    {
        GdiScreenSource
    }

    /// Escritorio virtual a partir de `SM_XVIRTUALSCREEN`,
    /// `SM_YVIRTUALSCREEN`, `SM_CXVIRTUALSCREEN` y `SM_CYVIRTUALSCREEN`;
    /// una métrica de tamaño negativa cuenta como 0 (rect vacío).
    pub fn rect_de_metricas(x: i32, y: i32, cx: i32, cy: i32) -> (r: Rect)
        ensures
            r == (Rect {
                x,
                y,
                width: if cx < 0 { 0 } else { cx as u32 },
                height: if cy < 0 { 0 } else { cy as u32 },
            }),
    {
        let w: u32 = if cx < 0 { 0 } else { cx as u32 };
        let h: u32 = if cy < 0 { 0 } else { cy as u32 };
        Rect::new(x, y, w, h)
    }

    /// Rect de un `RECT` de Win32 (monitor o ventana): los lados son las
    /// diferencias de bordes, nunca negativas.
    pub fn rect_de_bordes(left: i32, top: i32, right: i32, bottom: i32) -> (r: Rect)
        ensures
            r == rect_de_bordes_spec(left, top, right, bottom),
    {
        Rect::new(left, top, lado(left, right), lado(top, bottom))
    }

    /// Monitor activo: el de los bordes que dio el sistema o, si no dio
    /// ninguno (cursor o monitor ilocalizables), el escritorio entero.
    pub fn rect_de_monitor(bordes: Option<(i32, i32, i32, i32)>, escritorio: Rect) -> (r: Rect)
        ensures
            r == match bordes {
                Some(b) => rect_de_bordes_spec(b.0, b.1, b.2, b.3),
                None => escritorio,
            },
    {
        match bordes {
            Some(b) => GdiScreenSource::rect_de_bordes(b.0, b.1, b.2, b.3),
            None => escritorio,
        }
    }

    /// Comprobación previa a toda captura: la región no puede estar vacía
    /// ni salirse del escritorio virtual.
    pub fn validar_region(&self, region: Rect, escritorio: Rect) -> (r: Result<(), ScreenSourceError>)
        ensures
            r is Ok <==> region_capturable(region, escritorio),
            r is Err ==> r == Err::<(), ScreenSourceError>(ScreenSourceError::OutOfBounds(region)),
    {
        if region.is_empty() || !escritorio.contains(&region) {
            Err(ScreenSourceError::OutOfBounds(region))
        } else {
            Ok(())
        }
    }
}

} // verus!
