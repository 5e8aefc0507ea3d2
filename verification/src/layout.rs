//! Layout de botoneras en unidades lógicas (rejilla 4n del diseño). Las
//! cajas devueltas ya están en píxeles físicos del DPI pedido.

use vstd::prelude::*;
use crate::aritmetica::cociente;
use crate::dpi::Escala;

verus! {

/// Lado del botón estándar de toolbar (lógico).
pub const BOTON: i32 = 28;
/// Espaciado base de la rejilla (lógico).
pub const ESPACIO: i32 = 4;
/// Ancho del asa de arrastre (lógico).
pub const ASA: i32 = 16;
/// Alto de la línea de un separador (lógico).
pub const SEPARADOR_ALTO: i32 = 20;
/// Margen a cada lado de la línea del separador (lógico).
pub const SEPARADOR_MARGEN: i32 = 3;

#[derive(Clone, Copy, PartialEq, Eq, Debug, Structural)]
pub enum Item {
    /// Botón cuadrado de 28×28 lógicos.
    Boton,
    /// Asa de arrastre: 16 de ancho, alto de botón.
    Asa,
    /// Línea vertical de 1 lógico con márgenes.
    Separador,
    /// Hueco flexible: el primero de la fila absorbe el ancho sobrante
    /// (0 si no se da ancho).
    Muelle,
}

/// Caja en píxeles físicos.
#[derive(Clone, Copy, PartialEq, Eq, Debug, Structural)]
pub struct Caja {
    pub x: i32,
    pub y: i32,
    pub ancho: i32,
    pub alto: i32,
}

/// Ancho propio de un item sin contar el sobrante (el muelle no ocupa).
pub open spec fn ancho_fijo(item: Item, e: Escala) -> int {
    match item {
        Item::Boton => e.px_spec(BOTON as int),
        Item::Asa => e.px_spec(ASA as int),
        Item::Separador => e.px_spec(SEPARADOR_MARGEN as int) * 2 + e.px_spec(1),
        Item::Muelle => 0,
    }
}

/// El item `i` es un muelle y no hay otro antes.
pub open spec fn es_primer_muelle(items: Seq<Item>, i: int) -> bool {
    items[i] == Item::Muelle && forall|k: int| 0 <= k < i ==> items[k] != Item::Muelle
}

/// Ancho del item `i` de la fila cuando sobra `sobrante`.
pub open spec fn ancho_en(items: Seq<Item>, e: Escala, sobrante: int, i: int) -> int {
    if items[i] == Item::Muelle {
        if es_primer_muelle(items, i) {
            sobrante
        } else {
            0
        }
    } else {
        ancho_fijo(items[i], e)
    }
}

/// Lo que avanzan los `n` primeros items: su ancho más un espaciado cada uno.
pub open spec fn avance(items: Seq<Item>, e: Escala, sobrante: int, n: int) -> int
    decreases n,
{
    if n <= 0 {
        0
    } else {
        avance(items, e, sobrante, n - 1) + ancho_en(items, e, sobrante, n - 1) + e.px_spec(
            ESPACIO as int,
        )
    }
}

/// Ancho de la fila sin muelle: margen izquierdo + items + espaciados.
pub open spec fn ancho_natural_de(items: Seq<Item>, e: Escala) -> int {
    e.px_spec(ESPACIO as int) + avance(items, e, 0, items.len() as int)
}

/// Lo que el muelle absorbe para llegar a `ancho_total` (nunca negativo).
pub open spec fn sobrante_de(items: Seq<Item>, e: Escala, ancho_total: Option<i32>) -> int {
    match ancho_total {
        Some(total) => if total - ancho_natural_de(items, e) > 0 {
            total - ancho_natural_de(items, e)
        } else {
            0
        },
        None => 0,
    }
}

/// Borde izquierdo del item `i`.
pub open spec fn x_de(items: Seq<Item>, e: Escala, sobrante: int, i: int) -> int {
    e.px_spec(ESPACIO as int) + avance(items, e, sobrante, i)
}

/// La caja del item `i` en una fila de `alto` px físicos: centrada en
/// vertical; la del separador es su línea, tras su margen.
pub open spec fn caja_de(items: Seq<Item>, e: Escala, alto: int, sobrante: int, i: int) -> Caja {
    let x = x_de(items, e, sobrante, i);
    match items[i] {
        Item::Boton => Caja {
            x: x as i32,
            y: cociente(alto - e.px_spec(BOTON as int), 2) as i32,
            ancho: e.px_spec(BOTON as int) as i32,
            alto: e.px_spec(BOTON as int) as i32,
        },
        Item::Asa => Caja {
            x: x as i32,
            y: cociente(alto - e.px_spec(BOTON as int), 2) as i32,
            ancho: e.px_spec(ASA as int) as i32,
            alto: e.px_spec(BOTON as int) as i32,
        },
        Item::Separador => Caja {
            x: (x + e.px_spec(SEPARADOR_MARGEN as int)) as i32,
            y: cociente(alto - e.px_spec(SEPARADOR_ALTO as int), 2) as i32,
            ancho: e.px_spec(1) as i32,
            alto: e.px_spec(SEPARADOR_ALTO as int) as i32,
        },
        Item::Muelle => Caja {
            x: x as i32,
            y: 0,
            ancho: ancho_en(items, e, sobrante, i) as i32,
            alto: alto as i32,
        },
    }
}

/// Los px de las medidas de la rejilla caben holgadamente en 32 bits.
proof fn lema_px_acotado(e: Escala, l: int)
    requires
        e.dpi_spec() > 0,
        0 <= l <= 28,
    ensures
        0 <= e.px_spec(l) <= e.px_spec(28) <= 0x5000_0000,
        e.px_spec(l) == (l * e.dpi_spec() + 48) / 96,
{
    let d = e.dpi_spec() as int;
    assert(0 <= l * d <= 28 * d) by (nonlinear_arith)
        requires
            0 <= l <= 28,
            d > 0,
    ;
    assert((l * d + 48) / 96 <= (28 * d + 48) / 96) by (nonlinear_arith)
        requires
            0 <= l * d <= 28 * d,
    ;
    assert((28 * d + 48) / 96 <= 0x5000_0000) by (nonlinear_arith)
        requires
            0 < d <= 0xffff_ffff,
    ;
    assert(e.px_spec(l) == (l * d + 48) / 96);
    assert(e.px_spec(28) == (28 * d + 48) / 96);
}

proof fn lema_px_medidas(e: Escala)
    requires
        e.dpi_spec() > 0,
    ensures
        0 <= e.px_spec(1) <= e.px_spec(28) <= 0x5000_0000,
        0 <= e.px_spec(3) <= e.px_spec(28),
        0 <= e.px_spec(4) <= e.px_spec(28),
        0 <= e.px_spec(16) <= e.px_spec(28),
        0 <= e.px_spec(20) <= e.px_spec(28),
{
    lema_px_acotado(e, 1);
    lema_px_acotado(e, 3);
    lema_px_acotado(e, 4);
    lema_px_acotado(e, 16);
    lema_px_acotado(e, 20);
}

/// Cada paso del avance suma algo no negativo: el avance crece.
proof fn lema_avance_crece(items: Seq<Item>, e: Escala, sobrante: int, n: int, m: int)
    requires
        e.dpi_spec() > 0,
        sobrante >= 0,
        0 <= n <= m <= items.len(),
    ensures
        avance(items, e, sobrante, n) <= avance(items, e, sobrante, m),
    decreases m - n,
{
    if n < m {
        lema_px_medidas(e);
        lema_avance_crece(items, e, sobrante, n, m - 1);
    }
}

/// Hay algún muelle entre los `n` primeros items.
pub open spec fn hay_muelle(items: Seq<Item>, n: int) -> bool {
    exists|k: int| 0 <= k < n && items[k] == Item::Muelle
}

/// El sobrante solo lo absorbe el primer muelle: avanzar con sobrante es
/// avanzar sin él, más el sobrante si ya pasó un muelle.
proof fn lema_avance_con_sobrante(items: Seq<Item>, e: Escala, sobrante: int, n: int)
    requires
        0 <= n <= items.len(),
    ensures
        avance(items, e, sobrante, n) == avance(items, e, 0, n) + (if hay_muelle(items, n) {
            sobrante
        } else {
            0
        }),
    decreases n,
{
    if n > 0 {
        lema_avance_con_sobrante(items, e, sobrante, n - 1);
        if items[n - 1] == Item::Muelle {
            if hay_muelle(items, n - 1) {
                let k = choose|k: int| 0 <= k < n - 1 && items[k] == Item::Muelle;
                assert(!es_primer_muelle(items, n - 1));
            } else {
                assert(es_primer_muelle(items, n - 1));
            }
            assert(hay_muelle(items, n));
        } else {
            if hay_muelle(items, n) {
                let k = choose|k: int| 0 <= k < n && items[k] == Item::Muelle;
                assert(hay_muelle(items, n - 1));
            }
        }
    }
}

/// Con un ancho total fijado y algún muelle en la fila, el último item
/// acaba justo en el margen derecho: la fila ocupa exactamente el ancho
/// pedido (si no es menor que el natural). Sin muelle, ocupa el natural.
pub proof fn ley_la_fila_llena_el_ancho(items: Seq<Item>, e: Escala, ancho_total: Option<i32>)
    ensures
        ({
            let fin = x_de(
                items,
                e,
                sobrante_de(items, e, ancho_total),
                items.len() as int,
            );
            &&& (ancho_total matches Some(t) ==> (hay_muelle(items, items.len() as int) && t
                >= ancho_natural_de(items, e) ==> fin == t))
            &&& !hay_muelle(items, items.len() as int) ==> fin == ancho_natural_de(items, e)
        }),
{
    lema_avance_con_sobrante(items, e, sobrante_de(items, e, ancho_total), items.len() as int);
}

/// Ancho que ocupan los items sin muelle: márgenes + items + espaciados.
pub fn ancho_natural(items: &[Item], escala: Escala) -> (r: i32)
    requires
        ancho_natural_de(items@, escala) <= i32::MAX,
    ensures
        r == ancho_natural_de(items@, escala),
{
    proof {
        use_type_invariant(&escala);
        escala.lema_dpi_positivo();
        lema_px_medidas(escala);
    }
    let espacio = escala.px(ESPACIO);
    let mut ancho = espacio;
    let mut i: usize = 0;
    while i < items.len()
        invariant
            escala.dpi_spec() > 0,
            i <= items@.len(),
            espacio == escala.px_spec(ESPACIO as int),
            ancho == espacio + avance(items@, escala, 0, i as int),
            ancho_natural_de(items@, escala) <= i32::MAX,
        decreases items@.len() - i,
    {
        proof {
            lema_px_medidas(escala);
            lema_avance_crece(items@, escala, 0, i + 1, items@.len() as int);
        }
        let item = items[i];
        let w = match item {
            Item::Boton => escala.px(BOTON),
            Item::Asa => escala.px(ASA),
            Item::Separador => escala.px(SEPARADOR_MARGEN) * 2 + escala.px(1),
            Item::Muelle => 0,
        };
        assert(w == ancho_en(items@, escala, 0, i as int));
        ancho = ancho + w + espacio;
        i = i + 1;
    }
    ancho
}

/// Mitad con la división entera de Rust.
fn mitad(v: i32) -> (r: i32)
    ensures
        r == cociente(v as int, 2),
{
    let q = v / 2;
    assert(q == cociente(v as int, 2)) by {
        if v < 0 {
            assert(q == -((-v) / 2));
        }
    }
    q
}

/// Reparte los items en una fila de `alto_fisico` px. Devuelve una caja
/// por item (la del separador es su línea de 1 px lógico) y el ancho
/// total. Con `ancho_total` fijado, el primer `Muelle` absorbe el resto.
pub fn distribuir(items: &[Item], escala: Escala, alto_fisico: i32, ancho_total: Option<i32>) -> (r:
    (Vec<Caja>, i32))
    requires
        ancho_natural_de(items@, escala) <= i32::MAX,
        alto_fisico - escala.px_spec(BOTON as int) >= i32::MIN,
        ancho_total matches Some(t) ==> t - ancho_natural_de(items@, escala) >= i32::MIN,
    ensures
        r.0@.len() == items@.len(),
        forall|i: int|
            0 <= i < items@.len() ==> #[trigger] r.0@[i] == caja_de(
                items@,
                escala,
                alto_fisico as int,
                sobrante_de(items@, escala, ancho_total),
                i,
            ),
        r.1 == match ancho_total {
            Some(t) => t as int,
            None => ancho_natural_de(items@, escala),
        },
{
    proof {
        use_type_invariant(&escala);
        escala.lema_dpi_positivo();
        lema_px_medidas(escala);
    }
    let espacio = escala.px(ESPACIO);
    let natural = ancho_natural(items, escala);
    proof {
        lema_avance_crece(items@, escala, 0, 0, items@.len() as int);
    }
    let sobrante: i32 = match ancho_total {
        Some(total) => {
            let d = total - natural;
            if d > 0 {
                d
            } else {
                0
            }
        },
        None => 0,
    };
    let ghost s = sobrante as int;
    assert(s == sobrante_de(items@, escala, ancho_total));
    proof {
        lema_avance_con_sobrante(items@, escala, s, items@.len() as int);
    }
    let mut cajas: Vec<Caja> = Vec::new();
    let mut x = espacio;
    let mut visto_muelle = false;
    let mut i: usize = 0;
    while i < items.len()
        invariant
            escala.dpi_spec() > 0,
            i <= items@.len(),
            espacio == escala.px_spec(ESPACIO as int),
            s == sobrante,
            s >= 0,
            natural == ancho_natural_de(items@, escala),
            espacio + avance(items@, escala, s, items@.len() as int) <= i32::MAX,
            alto_fisico - escala.px_spec(BOTON as int) >= i32::MIN,
            x == x_de(items@, escala, s, i as int),
            visto_muelle == hay_muelle(items@, i as int),
            cajas@.len() == i,
            forall|k: int|
                0 <= k < i ==> #[trigger] cajas@[k] == caja_de(
                    items@,
                    escala,
                    alto_fisico as int,
                    s,
                    k,
                ),
        decreases items@.len() - i,
    {
        proof {
            lema_px_medidas(escala);
            lema_avance_crece(items@, escala, s, i + 1, items@.len() as int);
        }
        let item = items[i];
        let ghost ancho_esperado = ancho_en(items@, escala, s, i as int);
        let (ancho_item, caja) = match item {
            Item::Boton => {
                let lado = escala.px(BOTON);
                (lado, Caja { x, y: mitad(alto_fisico - lado), ancho: lado, alto: lado })
            },
            Item::Asa => {
                let ancho = escala.px(ASA);
                let alto = escala.px(BOTON);
                (ancho, Caja { x, y: mitad(alto_fisico - alto), ancho, alto })
            },
            Item::Separador => {
                let margen = escala.px(SEPARADOR_MARGEN);
                let linea = escala.px(1);
                let alto = escala.px(SEPARADOR_ALTO);
                (
                    margen * 2 + linea,
                    Caja { x: x + margen, y: mitad(alto_fisico - alto), ancho: linea, alto },
                )
            },
            Item::Muelle => {
                proof {
                    if visto_muelle {
                        let k = choose|k: int| 0 <= k < i && items@[k] == Item::Muelle;
                        assert(!es_primer_muelle(items@, i as int));
                    } else {
                        assert(es_primer_muelle(items@, i as int));
                    }
                }
                let ancho = if visto_muelle {
                    0
                } else {
                    sobrante
                };
                (ancho, Caja { x, y: 0, ancho, alto: alto_fisico })
            },
        };
        assert(ancho_item == ancho_esperado);
        assert(caja == caja_de(items@, escala, alto_fisico as int, s, i as int));
        cajas.push(caja);
        proof {
            if item == Item::Muelle {
                assert(hay_muelle(items@, i + 1));
            } else if hay_muelle(items@, i + 1) {
                let k = choose|k: int| 0 <= k < i + 1 && items@[k] == Item::Muelle;
                assert(hay_muelle(items@, i as int));
            }
        }
        x = x + ancho_item + espacio;
        visto_muelle = visto_muelle || item == Item::Muelle;
        i = i + 1;
    }
    let total = match ancho_total {
        Some(t) => t,
        None => natural,
    };
    (cajas, total)
}

} // verus!
