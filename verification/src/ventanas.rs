//! Elección del objeto bajo el cursor entre los rectángulos de una
//! instantánea del árbol de ventanas (ventanas y sus controles).

use vstd::prelude::*;
use crate::geometria::Rect;

verus! {

/// Un rect candidato. `profundidad` 0 = ventana de nivel superior, 1 =
/// algún control de su interior; solo se usa para desempatar áreas iguales.
#[derive(Clone, Copy, PartialEq, Eq, Debug, Structural)]
pub struct Candidato {
    pub rect: Rect,
    pub profundidad: u16,
}

/// `a` gana a `b`: menos área, o igual área y más profundo.
pub open spec fn gana(a: Candidato, b: Candidato) -> bool {
    a.rect.area() < b.rect.area() || (a.rect.area() == b.rect.area() && a.profundidad
        > b.profundidad)
}

/// El candidato `i` es el elegido para el punto `p`: lo contiene, ninguno
/// que lo contenga le gana, y todos los anteriores que lo contienen
/// pierden frente a él (a igualdad completa vale el primero).
pub open spec fn es_el_elegido(cs: Seq<Candidato>, p: (i32, i32), i: int) -> bool {
    &&& 0 <= i < cs.len()
    &&& cs[i].rect.tiene_punto(p)
    &&& forall|j: int| 0 <= j < cs.len() && cs[j].rect.tiene_punto(p) ==> !gana(cs[j], cs[i])
    &&& forall|j: int| 0 <= j < i && cs[j].rect.tiene_punto(p) ==> gana(cs[i], cs[j])
}

fn area(r: &Rect) -> (a: u64)
    ensures
        a == r.area(),
{
    assert(r.width * r.height <= 0xffff_ffff * 0xffff_ffff) by (nonlinear_arith)
        requires
            r.width <= 0xffff_ffff,
            r.height <= 0xffff_ffff,
    ;
    r.width as u64 * r.height as u64
}

/// El rect MÁS PEQUEÑO que contiene el punto, o `None` si ninguno lo hace.
/// Así un botón gana a su diálogo y el diálogo al escritorio; a igual
/// área gana el más profundo (el hijo antes que su padre).
pub fn bajo_el_cursor(candidatos: &[Candidato], p: (i32, i32)) -> (r: Option<Rect>)
    ensures
        match r {
            None => forall|i: int|
                0 <= i < candidatos@.len() ==> !(#[trigger] candidatos@[i]).rect.tiene_punto(p),
            Some(rect) => exists|i: int|
                es_el_elegido(candidatos@, p, i) && (#[trigger] candidatos@[i]).rect == rect,
        },
{
    let mut mejor: Option<usize> = None;
    let mut i: usize = 0;
    while i < candidatos.len()
        invariant
            i <= candidatos@.len(),
            match mejor {
                None => forall|j: int| 0 <= j < i ==> !candidatos@[j].rect.tiene_punto(p),
                Some(m) => m < i && es_el_elegido(candidatos@.take(i as int), p, m as int),
            },
        decreases candidatos@.len() - i,
    {
        let c = candidatos[i];
        let ghost previo = candidatos@.take(i as int);
        assert(candidatos@.take(i + 1) =~= previo.push(c));
        if c.rect.contains_point(p) {
            match mejor {
                None => {
                    mejor = Some(i);
                },
                Some(m) => {
                    let b = candidatos[m];
                    let (ac, ab) = (area(&c.rect), area(&b.rect));
                    if ac < ab || (ac == ab && c.profundidad > b.profundidad) {
                        mejor = Some(i);
                    }
                },
            }
        }
        i = i + 1;
    }
    assert(candidatos@.take(candidatos@.len() as int) =~= candidatos@);
    match mejor {
        None => None,
        Some(m) => {
            assert(es_el_elegido(candidatos@, p, m as int));
            Some(candidatos[m].rect)
        },
    }
}

/// Una ventana no se ofrece si es invisible o está «cloaked» (las apps
/// UWP suspendidas siguen existiendo pero no se ven). `cloaked` es lo que
/// dio la consulta a DWM, si respondió.
pub fn descartable(visible: bool, cloaked: Option<u32>) -> (b: bool)
    ensures
        b == (!visible || (cloaked matches Some(v) && v != 0)),
{
    if !visible {
        return true;
    }
    match cloaked {
        Some(v) => v != 0,
        None => false,
    }
}

/// Rect de una ventana a partir de su `RECT`; `None` si no tiene área.
pub fn rect_de_ventana(left: i32, top: i32, right: i32, bottom: i32) -> (r: Option<Rect>)
    requires
        i32::MIN <= right - left <= i32::MAX,
        i32::MIN <= bottom - top <= i32::MAX,
    ensures
        r == (if right - left > 0 && bottom - top > 0 {
            Some(Rect { x: left, y: top, width: (right - left) as u32, height: (bottom - top) as u32 })
        } else {
            None
        }),
{
    let w = right - left;
    let h = bottom - top;
    if w > 0 && h > 0 {
        Some(Rect::new(left, top, w as u32, h as u32))
    } else {
        None
    }
}

} // verus!
