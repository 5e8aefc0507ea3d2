//! Fuentes de la UI (tokens del diseño): Segoe UI 13/12/11 y Consolas 10,
//! en unidades lógicas.

use vstd::prelude::*;

verus! {

#[derive(Clone, Copy, PartialEq, Eq, Hash, Debug, Structural)]
pub enum Rol {
    /// Segoe UI 13: cuerpo.
    Cuerpo,
    /// Segoe UI 12: denso / chips.
    Denso,
    /// Segoe UI 11: secundario / status bar.
    Secundario,
    /// Consolas 10: coordenadas y valores hex.
    Mono,
}

impl Rol {
    /// Tamaño lógico de la fuente del rol.
    pub fn tam_logico(self) -> (t: i32)
        ensures
            t == match self {
                Rol::Cuerpo => 13int,
                Rol::Denso => 12int,
                Rol::Secundario => 11int,
                Rol::Mono => 10int,
            },
    {
        match self {
            Rol::Cuerpo => 13,
            Rol::Denso => 12,
            Rol::Secundario => 11,
            Rol::Mono => 10,
        }
    }

    /// Familia tipográfica del rol.
    pub fn familia(self) -> (f: &'static str)
        ensures
            f@ == (if self == Rol::Mono {
                "Consolas"@
            } else {
                "Segoe UI"@
            }),
    {
        match self {
            Rol::Mono => "Consolas",
            _ => "Segoe UI",
        }
    }
}

} // verus!
