//! Conversiones de píxel puras.

use vstd::prelude::*;
use vstd::arithmetic::div_mod::lemma_fundamental_div_mod_converse;

verus! {

/// Valor del byte `i` de un buffer BGRA tras pasarlo a RGBA opaco: dentro
/// de los píxeles completos se intercambian B y R y el alfa vale 255; los
/// bytes sobrantes de un píxel incompleto quedan como estaban.
pub open spec fn rgba_opaco_en(viejo: Seq<u8>, i: int) -> u8 {
    let completos = (viejo.len() / 4) * 4;
    if i < completos {
        if i % 4 == 0 {
            viejo[i + 2]
        } else if i % 4 == 1 {
            viejo[i]
        } else if i % 4 == 2 {
            viejo[i - 2]
        } else {
            255u8
        }
    } else {
        viejo[i]
    }
}

/// Convierte BGRA8 (nativo de GDI/DXGI) a RGBA8 in situ y fuerza alfa
/// opaco. Ignora los bytes sobrantes si la longitud no es múltiplo de 4.
pub fn bgra_to_rgba_opaque(pixels: &mut [u8])
    ensures
        final(pixels)@.len() == old(pixels)@.len(),
        forall|i: int|
            0 <= i < old(pixels)@.len() ==> final(pixels)@[i] == #[trigger] rgba_opaco_en(
                old(pixels)@,
                i,
            ),
{
    let n = pixels.len();
    let completos = n / 4 * 4;
    let mut i: usize = 0;
    while i < completos
        invariant
            completos == (old(pixels)@.len() / 4) * 4,
            n == old(pixels)@.len(),
            pixels@.len() == n,
            i % 4 == 0,
            i <= completos,
            forall|j: int| 0 <= j < i ==> pixels@[j] == #[trigger] rgba_opaco_en(old(pixels)@, j),
            forall|j: int| i <= j < n ==> pixels@[j] == old(pixels)@[j],
        decreases completos - i,
    {
        let b = pixels[i];
        let r = pixels[i + 2];
        pixels[i] = r;
        pixels[i + 2] = b;
        pixels[i + 3] = 255;
        i = i + 4;
    }
}

/// Valor del byte `i` tras intercambiar R y B en cada píxel completo; el
/// alfa y los bytes sobrantes de un píxel incompleto no cambian.
pub open spec fn intercambio_rb_en(viejo: Seq<u8>, i: int) -> u8 {
    let completos = (viejo.len() / 4) * 4;
    if i < completos && i % 4 == 0 {
        viejo[i + 2]
    } else if i < completos && i % 4 == 2 {
        viejo[i - 2]
    } else {
        viejo[i]
    }
}

/// RGBA8 a BGRA8 in situ (intercambia R y B, el alfa se conserva).
/// Ignora los bytes sobrantes si la longitud no es múltiplo de 4.
pub fn rgba_to_bgra(pixels: &mut [u8])
    ensures
        final(pixels)@.len() == old(pixels)@.len(),
        forall|i: int|
            0 <= i < old(pixels)@.len() ==> final(pixels)@[i] == #[trigger] intercambio_rb_en(
                old(pixels)@,
                i,
            ),
{
    let n = pixels.len();
    let completos = n / 4 * 4;
    let mut i: usize = 0;
    while i < completos
        invariant
            completos == (old(pixels)@.len() / 4) * 4,
            n == old(pixels)@.len(),
            pixels@.len() == n,
            i % 4 == 0,
            i <= completos,
            forall|j: int|
                0 <= j < i ==> pixels@[j] == #[trigger] intercambio_rb_en(old(pixels)@, j),
            forall|j: int| i <= j < n ==> pixels@[j] == old(pixels)@[j],
        decreases completos - i,
    {
        let b = pixels[i];
        let r = pixels[i + 2];
        pixels[i] = r;
        pixels[i + 2] = b;
        i = i + 4;
    }
}

/// El buffer entero tras `rgba_to_bgra`.
pub open spec fn con_rb_intercambiado(p: Seq<u8>) -> Seq<u8> {
    Seq::new(p.len(), |i: int| intercambio_rb_en(p, i))
}

/// Intercambiar R y B dos veces devuelve el buffer de partida.
pub proof fn ley_el_intercambio_rb_se_deshace(p: Seq<u8>)
    ensures
        con_rb_intercambiado(con_rb_intercambiado(p)) == p,
{
    assert(con_rb_intercambiado(con_rb_intercambiado(p)) =~= p);
}

/// Las filas de una imagen `ancho × alto` RGBA en orden inverso: la
/// última fila pasa a ser la primera (el orden de los DIB bottom-up).
pub open spec fn de_abajo_arriba(p: Seq<u8>, ancho: nat, alto: nat) -> Seq<u8> {
    let fila = (ancho * 4) as int;
    Seq::new(p.len(), |k: int| p[(alto - 1 - k / fila) * fila + k % fila])
}

/// Posición del byte `c` de la fila `r` con filas de `fila` bytes.
spec fn k_de(r: usize, fila: usize, c: usize) -> int {
    r * fila + c
}

proof fn lema_fila_columna(r: int, c: int, fila: int)
    requires
        0 <= r,
        0 <= c < fila,
    ensures
        (r * fila + c) / fila == r,
        (r * fila + c) % fila == c,
{
    lemma_fundamental_div_mod_converse(r * fila + c, fila, r, c);
}

/// Copia de `pixels` (RGBA `width × height`) con las filas de abajo
/// arriba.
pub fn rows_bottom_up(pixels: &[u8], width: u32, height: u32) -> (r: Vec<u8>)
    requires
        pixels@.len() == width * height * 4,
    ensures
        r@ == de_abajo_arriba(pixels@, width as nat, height as nat),
{
    let ghost objetivo = de_abajo_arriba(pixels@, width as nat, height as nat);
    let mut out: Vec<u8> = Vec::new();
    if pixels.len() == 0 {
        assert(out@ =~= objetivo);
        return out;
    }
    assert(width * 4 <= width * height * 4) by (nonlinear_arith)
        requires
            width * height * 4 > 0,
    ;
    let fila = width as usize * 4;
    let alto = height as usize;
    assert(pixels@.len() == alto * fila) by (nonlinear_arith)
        requires
            pixels@.len() == width * height * 4,
            fila == width * 4,
            alto == height,
    ;
    let mut r: usize = 0;
    while r < alto
        invariant
            fila == width * 4,
            fila > 0,
            alto == height,
            r <= alto,
            pixels@.len() == alto * fila,
            alto * fila <= usize::MAX,
            objetivo == de_abajo_arriba(pixels@, width as nat, height as nat),
            out@ == objetivo.take((r * fila) as int),
        decreases alto - r,
    {
        let origen = alto - 1 - r;
        let mut c: usize = 0;
        while c < fila
            invariant
                fila == width * 4,
                fila > 0,
                alto == height,
                r < alto,
                origen == alto - 1 - r,
                c <= fila,
                pixels@.len() == alto * fila,
                alto * fila <= usize::MAX,
                objetivo == de_abajo_arriba(pixels@, width as nat, height as nat),
                out@ == objetivo.take((r * fila + c) as int),
            decreases fila - c,
        {
            assert(origen * fila + c < alto * fila) by (nonlinear_arith)
                requires
                    origen < alto,
                    c < fila,
            ;
            assert(k_de(r, fila, c) < alto * fila) by (nonlinear_arith)
                requires
                    r < alto,
                    c < fila,
            ;
            let k: usize = r * fila + c;
            proof {
                lema_fila_columna(r as int, c as int, fila as int);
            }
            assert(objetivo[k as int] == pixels@[origen * fila + c]);
            out.push(pixels[origen * fila + c]);
            assert(objetivo.take(k + 1) =~= objetivo.take(k as int).push(objetivo[k as int]));
            c = c + 1;
        }
        assert(r * fila + fila == (r + 1) * fila) by (nonlinear_arith);
        r = r + 1;
    }
    assert(objetivo.take((alto * fila) as int) =~= objetivo);
    out
}

/// Invertir el orden de las filas dos veces devuelve la imagen de partida.
pub proof fn ley_invertir_filas_dos_veces(p: Seq<u8>, ancho: nat, alto: nat)
    requires
        p.len() == ancho * alto * 4,
    ensures
        de_abajo_arriba(de_abajo_arriba(p, ancho, alto), ancho, alto) == p,
{
    let fila = (ancho * 4) as int;
    let q = de_abajo_arriba(p, ancho, alto);
    let s = de_abajo_arriba(q, ancho, alto);
    assert forall|k: int| 0 <= k < p.len() implies #[trigger] s[k] == p[k] by {
        let r = k / fila;
        let c = k % fila;
        assert(fila > 0) by (nonlinear_arith)
            requires
                fila == ancho * 4,
                p.len() == ancho * alto * 4,
                0 <= k < p.len(),
        ;
        assert(p.len() == alto * fila) by (nonlinear_arith)
            requires
                fila == ancho * 4,
                p.len() == ancho * alto * 4,
        ;
        assert(0 <= r < alto) by (nonlinear_arith)
            requires
                fila > 0,
                r == k / fila,
                0 <= k < alto * fila,
        ;
        assert(k == r * fila + c) by (nonlinear_arith)
            requires
                fila > 0,
                r == k / fila,
                c == k % fila,
        ;
        let k2 = (alto - 1 - r) * fila + c;
        lema_fila_columna(alto - 1 - r, c, fila);
        assert(0 <= k2 < p.len()) by (nonlinear_arith)
            requires
                0 <= r < alto,
                0 <= c < fila,
                k2 == (alto - 1 - r) * fila + c,
                p.len() == alto * fila,
        ;
        assert(q[k2] == p[(alto - 1 - (alto - 1 - r)) * fila + c]);
    }
    assert(s =~= p);
}

/// Valor del byte `i` tras la máscara blanca al 50 %: en cada píxel
/// completo, R, G y B quedan a medio camino del blanco (redondeo hacia
/// abajo) y el alfa no cambia; los bytes sobrantes tampoco.
pub open spec fn blanqueado_en(viejo: Seq<u8>, i: int) -> u8 {
    let completos = (viejo.len() / 4) * 4;
    if i < completos && i % 4 != 3 {
        ((viejo[i] + 255) / 2) as u8
    } else {
        viejo[i]
    }
}

/// Máscara blanca al 50 % del overlay de selección, in situ.
pub fn whiten_half(pixels: &mut [u8])
    ensures
        final(pixels)@.len() == old(pixels)@.len(),
        forall|i: int|
            0 <= i < old(pixels)@.len() ==> final(pixels)@[i] == #[trigger] blanqueado_en(
                old(pixels)@,
                i,
            ),
{
    let n = pixels.len();
    let completos = n / 4 * 4;
    let mut i: usize = 0;
    while i < completos
        invariant
            completos == (old(pixels)@.len() / 4) * 4,
            n == old(pixels)@.len(),
            pixels@.len() == n,
            i <= completos,
            forall|j: int| 0 <= j < i ==> pixels@[j] == #[trigger] blanqueado_en(old(pixels)@, j),
            forall|j: int| i <= j < n ==> pixels@[j] == old(pixels)@[j],
        decreases completos - i,
    {
        if i % 4 != 3 {
            let v = pixels[i] as u16;
            pixels[i] = ((v + 255) / 2) as u8;
        }
        i = i + 1;
    }
}

/// Canal alfa de un buffer RGBA: un byte por píxel completo (los bytes
/// sueltos del final, si los hay, no cuentan).
pub open spec fn alfas(p: Seq<u8>) -> Seq<u8> {
    Seq::new(p.len() / 4, |i: int| p[4 * i + 3])
}

/// Cobertura A8 de una imagen RGBA: se queda con el alfa de cada píxel.
pub fn canal_alfa(rgba: &[u8]) -> (a: Vec<u8>)
    ensures
        a@ == alfas(rgba@),
{
    let largo = rgba.len();
    let n = largo / 4;
    let mut a: Vec<u8> = Vec::new();
    let mut i: usize = 0;
    while i < n
        invariant
            largo == rgba@.len(),
            n == rgba@.len() / 4,
            i <= n,
            a@.len() == i,
            forall|k: int| 0 <= k < i ==> a@[k] == rgba@[4 * k + 3],
        decreases n - i,
    {
        assert(4 * i + 3 < rgba@.len()) by (nonlinear_arith)
            requires
                i < n,
                n == rgba@.len() / 4,
        ;
        a.push(rgba[4 * i + 3]);
        i = i + 1;
    }
    assert(a@ =~= alfas(rgba@));
    a
}

} // verus!
