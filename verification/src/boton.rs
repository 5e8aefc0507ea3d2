//! El botón de icono: su estado de ratón (hover y rastreo de salida) y
//! cómo se pinta en cada estado. Crear el control y pintarlo con GDI
//! queda fuera.

use vstd::prelude::*;
use crate::aritmetica::cociente;
use crate::geometria::Zona;
use crate::iconos::{Icono, DESHABILITADO, OPACO};
use crate::tema::Paleta;

verus! {

/// Estado propio de un botón.
#[derive(Clone, Copy, PartialEq, Eq, Debug, Structural)]
pub struct EstadoBoton {
    pub icono: Icono,
    /// El ratón está encima.
    pub hover: bool,
    /// Ya se pidió aviso de salida del ratón (`TrackMouseEvent`).
    pub rastreando: bool,
    /// Herramienta seleccionada: fondo acento e icono blanco.
    pub activo: bool,
    /// Tinte de grabación en estado normal.
    pub grabacion: bool,
}

/// Qué hacer tras un `WM_MOUSEMOVE` sobre el botón.
#[derive(Clone, Copy, PartialEq, Eq, Debug, Structural)]
pub struct TrasMover {
    /// Acaba de entrar: hay que repintar.
    pub repintar: bool,
    /// Hay que pedir el aviso de salida.
    pub pedir_rastreo: bool,
}

impl EstadoBoton {
    /// Estado inicial de un botón recién creado.
    pub fn nuevo(icono: Icono, grabacion: bool) -> (e: Self)
        ensures
            e == (EstadoBoton { icono, hover: false, rastreando: false, activo: false, grabacion }),
    {
        EstadoBoton { icono, hover: false, rastreando: false, activo: false, grabacion }
    }

    /// El ratón se movió sobre el botón.
    pub fn al_mover(&mut self) -> (t: TrasMover)
        ensures
            t == (TrasMover { repintar: !old(self).hover, pedir_rastreo: !old(self).rastreando }),
            *final(self) == (EstadoBoton { hover: true, ..*old(self) }),
    {
        let t = TrasMover { repintar: !self.hover, pedir_rastreo: !self.rastreando };
        self.hover = true;
        t
    }

    /// Resultado de pedir el aviso de salida.
    pub fn rastreo_pedido(&mut self, aceptado: bool)
        ensures
            *final(self) == (EstadoBoton { rastreando: aceptado, ..*old(self) }),
    {
        self.rastreando = aceptado;
    }

    /// El ratón salió (`WM_MOUSELEAVE`): hay que repintar.
    pub fn al_salir(&mut self)
        ensures
            *final(self) == (EstadoBoton { hover: false, rastreando: false, ..*old(self) }),
    {
        self.hover = false;
        self.rastreando = false;
    }
}

/// `ODS_SELECTED` y `ODS_DISABLED` del `itemState` de un `DRAWITEMSTRUCT`.
pub const ODS_SELECTED: u32 = 0x0001;
pub const ODS_DISABLED: u32 = 0x0004;

/// Colores con que se pinta un botón: el fondo de estado (si lo hay, con
/// esquinas redondeadas), el tinte del icono y su opacidad.
#[derive(Clone, Copy, PartialEq, Eq, Debug, Structural)]
pub struct Aspecto {
    pub fondo: Option<u32>,
    pub color_icono: u32,
    pub opacidad: u8,
}

/// El aspecto de un botón: activo manda; luego pulsado; el hover solo
/// cuenta si está habilitado; deshabilitado atenúa el icono; la grabación
/// lo tiñe.
pub open spec fn aspecto_spec(e: EstadoBoton, pulsado: bool, deshabilitado: bool, p: Paleta) -> Aspecto {
    let fondo = if e.activo {
        Some(p.acento)
    } else if pulsado {
        Some(p.pressed)
    } else if e.hover && !deshabilitado {
        Some(p.hover)
    } else {
        None
    };
    let (color_icono, opacidad) = if e.activo {
        (0x00FFFFFFu32, OPACO)
    } else if deshabilitado {
        (p.texto, DESHABILITADO)
    } else if e.grabacion {
        (p.grabacion, OPACO)
    } else {
        (p.texto, OPACO)
    };
    Aspecto { fondo, color_icono, opacidad }
}

/// Aspecto del botón para el `itemState` que trae `WM_DRAWITEM`.
pub fn aspecto(e: &EstadoBoton, item_state: u32, p: &Paleta) -> (a: Aspecto)
    ensures
        a == aspecto_spec(*e, item_state & ODS_SELECTED != 0, item_state & ODS_DISABLED != 0, *p),
{
    let pulsado = item_state & ODS_SELECTED != 0;
    let deshabilitado = item_state & ODS_DISABLED != 0;
    let fondo = if e.activo {
        Some(p.acento)
    } else if pulsado {
        Some(p.pressed)
    } else if e.hover && !deshabilitado {
        Some(p.hover)
    } else {
        None
    };
    let (color_icono, opacidad) = if e.activo {
        (0x00FFFFFFu32, OPACO)
    } else if deshabilitado {
        (p.texto, DESHABILITADO)
    } else if e.grabacion {
        (p.grabacion, OPACO)
    } else {
        (p.texto, OPACO)
    };
    Aspecto { fondo, color_icono, opacidad }
}

/// Esquina del icono de `talla` centrado en `rc`.
pub fn posicion_icono(rc: &Zona, talla: u32) -> (p: (i32, i32))
    requires
        talla <= i32::MAX,
        i32::MIN <= rc.right - rc.left - talla <= i32::MAX,
        i32::MIN <= rc.bottom - rc.top - talla <= i32::MAX,
        i32::MIN <= rc.right - rc.left <= i32::MAX,
        i32::MIN <= rc.bottom - rc.top <= i32::MAX,
        i32::MIN <= rc.left + cociente(rc.right - rc.left - talla, 2) <= i32::MAX,
        i32::MIN <= rc.top + cociente(rc.bottom - rc.top - talla, 2) <= i32::MAX,
    ensures
        p.0 == rc.left + cociente(rc.right - rc.left - talla, 2),
        p.1 == rc.top + cociente(rc.bottom - rc.top - talla, 2),
{
    (
        rc.left + (rc.right - rc.left - talla as i32) / 2,
        rc.top + (rc.bottom - rc.top - talla as i32) / 2,
    )
}

} // verus!
