//! Fila declarativa de una botonera: botones con su icono y estado,
//! asas, separadores y muelles; y su traducción a items de layout.

use vstd::prelude::*;
use crate::iconos::Icono;
use crate::layout::Item;

verus! {

#[derive(Clone, Copy, Debug)]
pub struct BotonDef {
    pub id: u16,
    pub icono: Icono,
    pub nombre: &'static str,
    /// false = sin lógica todavía: se muestra deshabilitado.
    pub habilitado: bool,
    /// Tinte #D83B01 (grabación) en reposo.
    pub grabacion: bool,
}

#[derive(Clone, Copy, Debug)]
pub enum Elemento {
    Asa,
    Separador,
    Muelle,
    Boton(BotonDef),
}

/// Un botón normal (sin tinte de grabación).
pub open spec fn boton_spec(id: u16, icono: Icono, nombre: &'static str, habilitado: bool) -> Elemento {
    Elemento::Boton(BotonDef { id, icono, nombre, habilitado, grabacion: false })
}

pub fn boton(id: u16, icono: Icono, nombre: &'static str, habilitado: bool) -> (e: Elemento)
    ensures
        e == boton_spec(id, icono, nombre, habilitado),
{
    Elemento::Boton(BotonDef { id, icono, nombre, habilitado, grabacion: false })
}

/// El item de layout que ocupa un elemento.
pub open spec fn item_de(e: Elemento) -> Item {
    match e {
        Elemento::Asa => Item::Asa,
        Elemento::Separador => Item::Separador,
        Elemento::Muelle => Item::Muelle,
        Elemento::Boton(_) => Item::Boton,
    }
}

/// Items de layout de la fila, uno por elemento y en el mismo orden.
pub fn a_items(fila: &[Elemento]) -> (items: Vec<Item>)
    ensures
        items@ == fila@.map_values(|e: Elemento| item_de(e)),
{
    let mut items: Vec<Item> = Vec::new();
    let mut i: usize = 0;
    while i < fila.len()
        invariant
            i <= fila@.len(),
            items@ == fila@.take(i as int).map_values(|e: Elemento| item_de(e)),
        decreases fila@.len() - i,
    {
        let item = match fila[i] {
            Elemento::Asa => Item::Asa,
            Elemento::Separador => Item::Separador,
            Elemento::Muelle => Item::Muelle,
            Elemento::Boton(_) => Item::Boton,
        };
        items.push(item);
        assert(fila@.take(i + 1).map_values(|e: Elemento| item_de(e)) =~= fila@.take(
            i as int,
        ).map_values(|e: Elemento| item_de(e)).push(item_de(fila@[i as int])));
        i = i + 1;
    }
    assert(fila@.take(fila@.len() as int) == fila@);
    items
}

/// Ids de los botones de la fila, en orden.
pub open spec fn ids_de(fila: Seq<Elemento>) -> Seq<u16>
    decreases fila.len(),
{
    if fila.len() == 0 {
        Seq::empty()
    } else {
        let resto = ids_de(fila.drop_last());
        match fila.last() {
            Elemento::Boton(b) => resto.push(b.id),
            _ => resto,
        }
    }
}

} // verus!
