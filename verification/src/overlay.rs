//! Geometría del overlay de selección (coordenadas locales de la
//! ventana): la región fija y su rueda, el rectángulo de arrastre, la
//! fuente y la caja de la lupa y el color que muestra.

use vstd::prelude::*;
use crate::aritmetica::{acotado, acotar, cociente, maximo, minimo};
use crate::geometria::Rect;
use crate::texto::{cadena, caracteres};

verus! {

/// Lado (impar) de la fuente del zoom: el píxel del cursor queda en la
/// celda central exacta.
pub const LUPA_SRC: i32 = 21;
/// Lado LÓGICO de cada celda de zoom (≈6×).
pub const LUPA_CELDA: i32 = 6;
/// Alto LÓGICO del bloque de información (dos líneas de Consolas 10).
pub const LUPA_INFO_H: i32 = 36;
/// Separación LÓGICA de la caja respecto al cursor.
pub const LUPA_OFFSET: i32 = 16;
/// Píxeles que mueve cada paso de rueda en la región fija.
pub const PASO_FIJO: i32 = 10;
/// Lado mínimo de la región fija, para que la rueda no la deje en nada.
pub const MINIMO_FIJO: u32 = 8;

/// Lado de la región fija: el pedido, sin pasar del límite y nunca 0.
pub open spec fn lado_fijo(pedido: u32, limite: u32) -> int {
    maximo(minimo(pedido as int, limite as int), 1)
}

/// Rect de `tam` centrado en el cursor y empujado dentro de `limite`
/// (los bordes se leen en 32 bits con signo, como al calcularlo).
pub open spec fn rect_fijo_spec(cursor: (i32, i32), tam: (u32, u32), limite: Rect) -> Rect {
    let w = lado_fijo(tam.0, limite.width);
    let h = lado_fijo(tam.1, limite.height);
    let max_x = maximo((limite.fin_x() as i32) - (w as i32), limite.x as int);
    let max_y = maximo((limite.fin_y() as i32) - (h as i32), limite.y as int);
    Rect {
        x: acotado(cursor.0 - cociente((w as i32) as int, 2), limite.x as int, max_x) as i32,
        y: acotado(cursor.1 - cociente((h as i32) as int, 2), limite.y as int, max_y) as i32,
        width: w as u32,
        height: h as u32,
    }
}

/// Las restas de 32 bits de `rect_fijo` no desbordan.
pub open spec fn rect_fijo_sin_desborde(cursor: (i32, i32), tam: (u32, u32), limite: Rect) -> bool {
    let w = lado_fijo(tam.0, limite.width);
    let h = lado_fijo(tam.1, limite.height);
    &&& i32::MIN <= (limite.fin_x() as i32) - (w as i32) <= i32::MAX
    &&& i32::MIN <= (limite.fin_y() as i32) - (h as i32) <= i32::MAX
    &&& i32::MIN <= cursor.0 - cociente((w as i32) as int, 2) <= i32::MAX
    &&& i32::MIN <= cursor.1 - cociente((h as i32) as int, 2) <= i32::MAX
}

fn lado(pedido: u32, limite: u32) -> (r: u32)
    ensures
        r == lado_fijo(pedido, limite),
{
    let m = if pedido < limite {
        pedido
    } else {
        limite
    };
    if m > 1 {
        m
    } else {
        1
    }
}

fn a_i32(v: i64) -> (r: i32)
    ensures
        r == (v as i32),
{
    #[verifier::truncate]
    (v as i32)
}

fn u_a_i32(v: u32) -> (r: i32)
    ensures
        r == (v as i32),
{
    #[verifier::truncate]
    (v as i32)
}

fn mitad(v: i32) -> (r: i32)
    ensures
        r == cociente(v as int, 2),
{
    let q = v / 2;
    assert(q == cociente(v as int, 2)) by {
        if v < 0 {
            assert(q == -((-v) / 2));
        }
    }
    q
}

/// Rect de `tam` centrado en el cursor y empujado dentro de `limite`. Si
/// no cabe, se recorta al límite: mejor eso que devolver algo fuera de
/// pantalla.
pub fn rect_fijo(cursor: (i32, i32), tam: (u32, u32), limite: Rect) -> (r: Rect)
    requires
        rect_fijo_sin_desborde(cursor, tam, limite),
    ensures
        r == rect_fijo_spec(cursor, tam, limite),
{
    let w = lado(tam.0, limite.width);
    let h = lado(tam.1, limite.height);
    let dx = a_i32(limite.right()) - u_a_i32(w);
    let dy = a_i32(limite.bottom()) - u_a_i32(h);
    let max_x = if dx > limite.x {
        dx
    } else {
        limite.x
    };
    let max_y = if dy > limite.y {
        dy
    } else {
        limite.y
    };
    Rect::new(
        acotar(cursor.0 - mitad(u_a_i32(w)), limite.x, max_x),
        acotar(cursor.1 - mitad(u_a_i32(h)), limite.y, max_y),
        w,
        h,
    )
}

/// Con un límite no degenerado y en coordenadas de 32 bits, la región
/// fija queda siempre dentro del límite, y si el tamaño pedido cabe se
/// respeta tal cual.
pub proof fn ley_la_region_fija_no_se_sale(cursor: (i32, i32), tam: (u32, u32), limite: Rect)
    requires
        limite.width >= 1,
        limite.height >= 1,
        limite.width <= i32::MAX,
        limite.height <= i32::MAX,
        limite.fin_x() <= i32::MAX,
        limite.fin_y() <= i32::MAX,
    ensures
        ({
            let r = rect_fijo_spec(cursor, tam, limite);
            &&& limite.x <= r.x && r.fin_x() <= limite.fin_x()
            &&& limite.y <= r.y && r.fin_y() <= limite.fin_y()
            &&& 1 <= tam.0 <= limite.width ==> r.width == tam.0
            &&& 1 <= tam.1 <= limite.height ==> r.height == tam.1
        }),
{
}

/// Tamaño tras `pasos` de rueda: cada paso suma `PASO_FIJO`, sin bajar
/// del mínimo ni pasar de `u32::MAX`.
pub open spec fn tam_movido(v: u32, pasos: i32) -> int {
    acotado(v + pasos * PASO_FIJO, MINIMO_FIJO as int, u32::MAX as int)
}

/// Ajusta el tamaño con la rueda; `solo_ancho` = Shift pulsado.
pub fn ajustar_tam(tam: (u32, u32), pasos: i32, solo_ancho: bool) -> (r: (u32, u32))
    requires
        i32::MIN <= pasos * PASO_FIJO <= i32::MAX,
    ensures
        r.0 == tam_movido(tam.0, pasos),
        r.1 == if solo_ancho {
            tam.1 as int
        } else {
            tam_movido(tam.1, pasos)
        },
        r.0 >= MINIMO_FIJO,
        !solo_ancho ==> r.1 >= MINIMO_FIJO,
{
    let delta = (pasos * PASO_FIJO) as i64;
    let ancho = tam.0 as i64 + delta;
    let nuevo_ancho = if ancho < MINIMO_FIJO as i64 {
        MINIMO_FIJO
    } else if ancho > u32::MAX as i64 {
        u32::MAX
    } else {
        ancho as u32
    };
    if solo_ancho {
        (nuevo_ancho, tam.1)
    } else {
        let alto = tam.1 as i64 + delta;
        let nuevo_alto = if alto < MINIMO_FIJO as i64 {
            MINIMO_FIJO
        } else if alto > u32::MAX as i64 {
            u32::MAX
        } else {
            alto as u32
        };
        (nuevo_ancho, nuevo_alto)
    }
}

/// Valor absoluto.
pub open spec fn abs(v: int) -> int {
    if v < 0 {
        -v
    } else {
        v
    }
}

/// Rect normalizado entre dos puntos de arrastre; mínimo 1×1.
pub open spec fn rect_entre(a: (i32, i32), b: (i32, i32)) -> Rect {
    Rect {
        x: minimo(a.0 as int, b.0 as int) as i32,
        y: minimo(a.1 as int, b.1 as int) as i32,
        width: maximo(abs(a.0 - b.0), 1) as u32,
        height: maximo(abs(a.1 - b.1), 1) as u32,
    }
}

/// Rect normalizado entre dos puntos de arrastre; mínimo 1×1.
pub fn rect_between(a: (i32, i32), b: (i32, i32)) -> (r: Rect)
    requires
        i32::MIN <= a.0 - b.0 <= i32::MAX,
        i32::MIN <= a.1 - b.1 <= i32::MAX,
    ensures
        r == rect_entre(a, b),
{
    let dx = a.0 - b.0;
    let dy = a.1 - b.1;
    let w: u32 = if dx < 0 {
        (0 - (dx as i64)) as u32
    } else {
        dx as u32
    };
    let h: u32 = if dy < 0 {
        (0 - (dy as i64)) as u32
    } else {
        dy as u32
    };
    Rect::new(
        if a.0 < b.0 {
            a.0
        } else {
            b.0
        },
        if a.1 < b.1 {
            a.1
        } else {
            b.1
        },
        if w > 1 {
            w
        } else {
            1
        },
        if h > 1 {
            h
        } else {
            1
        },
    )
}

/// El rect de arrastre no depende de la dirección: cualquiera de los
/// cuatro pares de esquinas opuestas da el mismo; va de la menor
/// coordenada a la mayor (un clic sin arrastre es un píxel).
pub proof fn ley_el_arrastre_se_normaliza(a: (i32, i32), b: (i32, i32))
    ensures
        rect_entre(a, b) == rect_entre(b, a),
        rect_entre(a, b) == rect_entre((a.0, b.1), (b.0, a.1)),
        rect_entre(a, b).x == minimo(a.0 as int, b.0 as int),
        rect_entre(a, b).y == minimo(a.1 as int, b.1 as int),
        a.0 != b.0 ==> rect_entre(a, b).fin_x() == maximo(a.0 as int, b.0 as int),
        a.1 != b.1 ==> rect_entre(a, b).fin_y() == maximo(a.1 as int, b.1 as int),
        a == b ==> rect_entre(a, b).width == 1 && rect_entre(a, b).height == 1,
{
}

/// Fuente del zoom: 21×21 centrado en el cursor, sin salirse del frame.
pub open spec fn lupa_fuente(cursor: (i32, i32), frame_w: u32, frame_h: u32) -> Rect {
    let max_x = maximo((frame_w as i32) - LUPA_SRC, 0);
    let max_y = maximo((frame_h as i32) - LUPA_SRC, 0);
    Rect {
        x: acotado(cursor.0 - LUPA_SRC / 2, 0, max_x) as i32,
        y: acotado(cursor.1 - LUPA_SRC / 2, 0, max_y) as i32,
        width: LUPA_SRC as u32,
        height: LUPA_SRC as u32,
    }
}

/// Fuente del zoom: 21×21 centrado en el cursor, sin salirse del frame.
pub fn lupa_source(cursor: (i32, i32), frame_w: u32, frame_h: u32) -> (r: Rect)
    requires
        (frame_w as i32) - LUPA_SRC >= i32::MIN,
        (frame_h as i32) - LUPA_SRC >= i32::MIN,
        cursor.0 - LUPA_SRC / 2 >= i32::MIN,
        cursor.1 - LUPA_SRC / 2 >= i32::MIN,
    ensures
        r == lupa_fuente(cursor, frame_w, frame_h),
{
    let mx = u_a_i32(frame_w) - LUPA_SRC;
    let my = u_a_i32(frame_h) - LUPA_SRC;
    let max_x = if mx > 0 {
        mx
    } else {
        0
    };
    let max_y = if my > 0 {
        my
    } else {
        0
    };
    Rect::new(
        acotar(cursor.0 - LUPA_SRC / 2, 0, max_x),
        acotar(cursor.1 - LUPA_SRC / 2, 0, max_y),
        LUPA_SRC as u32,
        LUPA_SRC as u32,
    )
}

/// Con el cursor dentro de un frame de al menos 21×21 (y de lados que
/// caben en 32 bits con signo), la fuente del zoom no se sale del frame e
/// incluye siempre el píxel del cursor.
pub proof fn ley_la_lupa_ve_el_cursor(cursor: (i32, i32), frame_w: u32, frame_h: u32)
    requires
        LUPA_SRC <= frame_w <= i32::MAX,
        LUPA_SRC <= frame_h <= i32::MAX,
        0 <= cursor.0 < frame_w,
        0 <= cursor.1 < frame_h,
    ensures
        ({
            let r = lupa_fuente(cursor, frame_w, frame_h);
            &&& 0 <= r.x && r.fin_x() <= frame_w
            &&& 0 <= r.y && r.fin_y() <= frame_h
            &&& r.tiene_punto(cursor)
        }),
{
}

/// Esquina de la caja de lupa: junto al cursor con `offset`, al otro lado
/// si no cabe hacia la derecha/abajo, y nunca antes del origen del monitor.
pub open spec fn caja_lupa(monitor: Rect, cursor: (i32, i32), caja: (i32, i32), offset: i32) -> (
    int,
    int,
) {
    let x0 = cursor.0 + offset;
    let x = if x0 + caja.0 > (monitor.fin_x() as i32) {
        cursor.0 - offset - caja.0
    } else {
        x0
    };
    let y0 = cursor.1 + offset;
    let y = if y0 + caja.1 > (monitor.fin_y() as i32) {
        cursor.1 - offset - caja.1
    } else {
        y0
    };
    (maximo(x, monitor.x as int), maximo(y, monitor.y as int))
}

/// Las sumas y restas de 32 bits de `lupa_box_pos` no desbordan.
pub open spec fn caja_lupa_sin_desborde(cursor: (i32, i32), caja: (i32, i32), offset: i32) -> bool {
    &&& i32::MIN <= cursor.0 + offset <= i32::MAX
    &&& i32::MIN <= cursor.0 + offset + caja.0 <= i32::MAX
    &&& i32::MIN <= cursor.0 - offset <= i32::MAX
    &&& i32::MIN <= cursor.0 - offset - caja.0 <= i32::MAX
    &&& i32::MIN <= cursor.1 + offset <= i32::MAX
    &&& i32::MIN <= cursor.1 + offset + caja.1 <= i32::MAX
    &&& i32::MIN <= cursor.1 - offset <= i32::MAX
    &&& i32::MIN <= cursor.1 - offset - caja.1 <= i32::MAX
}

/// Esquina de la caja de lupa: junto al cursor con `offset`, con FLIP al
/// otro lado cuando no cabe hacia la derecha/abajo del monitor. Todo en
/// px físicos.
pub fn lupa_box_pos(monitor: Rect, cursor: (i32, i32), caja: (i32, i32), offset: i32) -> (r: (
    i32,
    i32,
))
    requires
        caja_lupa_sin_desborde(cursor, caja, offset),
    ensures
        (r.0 as int, r.1 as int) == caja_lupa(monitor, cursor, caja, offset),
{
    let mut x = cursor.0 + offset;
    if x + caja.0 > a_i32(monitor.right()) {
        x = cursor.0 - offset - caja.0;
    }
    let mut y = cursor.1 + offset;
    if y + caja.1 > a_i32(monitor.bottom()) {
        y = cursor.1 - offset - caja.1;
    }
    (
        if x > monitor.x {
            x
        } else {
            monitor.x
        },
        if y > monitor.y {
            y
        } else {
            monitor.y
        },
    )
}

/// La caja de la lupa nunca empieza por encima ni a la izquierda del
/// monitor, aunque se dé la vuelta junto a un borde.
pub proof fn ley_la_lupa_no_empieza_fuera_del_monitor(
    monitor: Rect,
    cursor: (i32, i32),
    caja: (i32, i32),
    offset: i32,
)
    ensures
        caja_lupa(monitor, cursor, caja, offset).0 >= monitor.x,
        caja_lupa(monitor, cursor, caja, offset).1 >= monitor.y,
{
}

/// Dígito hexadecimal en mayúscula de `n < 16`.
pub open spec fn digito_hex(n: int) -> char {
    if n < 10 {
        (('0' as int) + n) as char
    } else {
        (('A' as int) + n - 10) as char
    }
}

/// `#RRGGBB` en mayúsculas de un color dado por sus canales.
pub open spec fn hex_spec(b: u8, g: u8, r: u8) -> Seq<char> {
    seq![
        '#',
        digito_hex(r as int / 16),
        digito_hex(r as int % 16),
        digito_hex(g as int / 16),
        digito_hex(g as int % 16),
        digito_hex(b as int / 16),
        digito_hex(b as int % 16),
    ]
}

fn digito(n: u8) -> (c: char)
    requires
        n < 16,
    ensures
        c == digito_hex(n as int),
{
    if n < 10 {
        (48u8 + n) as char
    } else {
        (55u8 + n) as char
    }
}

/// Color de un píxel BGRA como `#RRGGBB` (lo que muestra la lupa).
pub fn hex_de_bgra(b: u8, g: u8, r: u8) -> (s: String)
    ensures
        s@ == hex_spec(b, g, r),
{
    let mut v: Vec<char> = Vec::new();
    v.push('#');
    v.push(digito(r / 16));
    v.push(digito(r % 16));
    v.push(digito(g / 16));
    v.push(digito(g % 16));
    v.push(digito(b / 16));
    v.push(digito(b % 16));
    assert(v@ =~= hex_spec(b, g, r));
    cadena(&v)
}

} // verus!
