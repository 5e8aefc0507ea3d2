//! Lo que viaja empaquetado en los parámetros de los mensajes de ventana.

use vstd::prelude::*;

verus! {

/// Los 16 bits de `v` desde la posición `desde`, leídos con signo.
pub open spec fn palabra_con_signo(v: int, desde: nat) -> int {
    let w = (v / vstd::arithmetic::power2::pow2(desde) as int) % 65536;
    if w >= 32768 {
        w - 65536
    } else {
        w
    }
}

/// Coordenadas del cursor empaquetadas en el `lparam` de los mensajes de
/// ratón: x en la palabra baja e y en la siguiente, ambas con signo (los
/// monitores pueden tener origen negativo).
pub fn punto(lparam: isize) -> (p: (i32, i32))
    ensures
        -32768 <= p.0 <= 32767,
        -32768 <= p.1 <= 32767,
        p.0 == palabra_con_signo(lparam as int, 0),
        p.1 == palabra_con_signo(lparam as int, 16),
{
    let bajo = (lparam & 0xFFFF) as i64;
    let alto = ((lparam >> 16) & 0xFFFF) as i64;
    proof {
        vstd::arithmetic::power2::lemma2_to64();
        assert((lparam & 0xFFFF) == lparam % 65536) by (bit_vector);
        assert(((lparam >> 16) & 0xFFFF) == (lparam / 65536) % 65536) by (bit_vector);
    }
    let x = if bajo >= 32768 {
        bajo - 65536
    } else {
        bajo
    };
    let y = if alto >= 32768 {
        alto - 65536
    } else {
        alto
    };
    (x as i32, y as i32)
}

/// Identificador de control de un `WM_COMMAND`: la palabra baja del
/// `wparam`.
pub fn id_de_comando(wparam: usize) -> (id: u16)
    ensures
        id == wparam % 65536,
{
    assert((wparam & 0xFFFF) == wparam % 65536) by (bit_vector);
    (wparam & 0xFFFF) as u16
}

/// Código de notificación de un `WM_COMMAND`: la palabra alta (de 32
/// bits) del `wparam`.
pub fn codigo_de_comando(wparam: usize) -> (c: u32)
    ensures
        c == (wparam / 65536) % 65536,
{
    assert(((wparam >> 16) & 0xFFFF) == (wparam / 65536) % 65536) by (bit_vector);
    ((wparam >> 16) & 0xFFFF) as u32
}

/// `HTCLIENT`: el punto cae en el área de cliente.
pub const HTCLIENT: isize = 1;
/// `HTCAPTION`: el punto cae en la barra de título.
pub const HTCAPTION: isize = 2;

/// Respuesta a `WM_NCHITTEST` de una ventana que se arrastra desde
/// cualquier punto del fondo: el cliente pasa por barra de título.
pub fn golpe_arrastrable(golpe: isize) -> (r: isize)
    ensures
        r == (if golpe == HTCLIENT {
            HTCAPTION
        } else {
            golpe
        }),
{
    if golpe == HTCLIENT {
        HTCAPTION
    } else {
        golpe
    }
}

} // verus!
