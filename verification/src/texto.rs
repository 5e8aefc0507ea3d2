//! Texto como secuencia de caracteres: conversión desde y hacia cadenas
//! de Rust y las operaciones de búsqueda y recorte que usan los parsers.

use vstd::prelude::*;

verus! {

/// Los caracteres de `s`, en orden.
pub fn caracteres(s: &str) -> (v: Vec<char>)
    ensures
        v@ == s@,
{
    broadcast use vstd::string::group_string_axioms;

    let mut v: Vec<char> = Vec::new();
    for c in it: s.chars()
        invariant
            v@ == it.seq().take(it.index() as int),
    {
        v.push(c);
    }
    v
}

/// `String::push`: añade un carácter al final.
#[verifier::external_body]
pub(crate) fn empujar(s: &mut String, c: char)
    ensures
        final(s)@ == old(s)@.push(c),
{
    s.push(c);
}

/// La cadena formada por los caracteres de `v`.
pub fn cadena(v: &[char]) -> (s: String)
    ensures
        s@ == v@,
{
    let mut s = String::new();
    let mut i: usize = 0;
    while i < v.len()
        invariant
            i <= v@.len(),
            s@ == v@.take(i as int),
        decreases v@.len() - i,
    {
        empujar(&mut s, v[i]);
        assert(v@.take(i + 1) == v@.take(i as int).push(v@[i as int]));
        i = i + 1;
    }
    assert(v@.take(v@.len() as int) == v@);
    s
}

/// Añade al final de `v` todos los caracteres de `w`.
pub fn anadir(v: &mut Vec<char>, w: &[char])
    ensures
        final(v)@ == old(v)@ + w@,
{
    let mut i: usize = 0;
    while i < w.len()
        invariant
            i <= w@.len(),
            v@ == old(v)@ + w@.take(i as int),
        decreases w@.len() - i,
    {
        v.push(w[i]);
        assert(w@.take(i + 1) == w@.take(i as int).push(w@[i as int]));
        i = i + 1;
    }
    assert(w@.take(w@.len() as int) == w@);
}

/// Espacio en blanco de Unicode (propiedad White_Space), el criterio de
/// `char::is_whitespace` y por tanto de `str::trim`.
pub open spec fn es_blanco(c: char) -> bool {
    ||| '\u{9}' <= c <= '\u{d}'
    ||| c == ' '
    ||| c == '\u{85}'
    ||| c == '\u{a0}'
    ||| c == '\u{1680}'
    ||| '\u{2000}' <= c <= '\u{200a}'
    ||| c == '\u{2028}'
    ||| c == '\u{2029}'
    ||| c == '\u{202f}'
    ||| c == '\u{205f}'
    ||| c == '\u{3000}'
}

pub fn blanco(c: char) -> (b: bool)
    ensures
        b == es_blanco(c),
{
    ('\u{9}' <= c && c <= '\u{d}') || c == ' ' || c == '\u{85}' || c == '\u{a0}' || c
        == '\u{1680}' || ('\u{2000}' <= c && c <= '\u{200a}') || c == '\u{2028}' || c
        == '\u{2029}' || c == '\u{202f}' || c == '\u{205f}' || c == '\u{3000}'
}

/// Número de blancos con que empieza `s`.
pub open spec fn blancos_al_inicio(s: Seq<char>) -> nat
    decreases s.len(),
{
    if s.len() > 0 && es_blanco(s[0]) {
        1 + blancos_al_inicio(s.drop_first())
    } else {
        0
    }
}

/// Número de blancos con que acaba `s`.
pub open spec fn blancos_al_final(s: Seq<char>) -> nat
    decreases s.len(),
{
    if s.len() > 0 && es_blanco(s.last()) {
        1 + blancos_al_final(s.drop_last())
    } else {
        0
    }
}

/// `s` sin los blancos de ambos extremos (`str::trim`).
pub open spec fn recorte(s: Seq<char>) -> Seq<char> {
    let sin_inicio = s.skip(blancos_al_inicio(s) as int);
    sin_inicio.take(sin_inicio.len() - blancos_al_final(sin_inicio))
}

proof fn lema_blancos_al_inicio(s: Seq<char>, a: int)
    requires
        0 <= a <= s.len(),
        forall|k: int| 0 <= k < a ==> es_blanco(#[trigger] s[k]),
        a == s.len() || !es_blanco(s[a]),
    ensures
        blancos_al_inicio(s) == a,
    decreases a,
{
    if a > 0 {
        assert(es_blanco(s[0]));
        let t = s.drop_first();
        assert forall|k: int| 0 <= k < a - 1 implies es_blanco(#[trigger] t[k]) by {
            assert(t[k] == s[k + 1]);
        }
        if a - 1 < t.len() {
            assert(t[a - 1] == s[a]);
        }
        lema_blancos_al_inicio(t, a - 1);
    }
}

proof fn lema_blancos_al_final(s: Seq<char>, b: int)
    requires
        0 <= b <= s.len(),
        forall|k: int| b <= k < s.len() ==> es_blanco(#[trigger] s[k]),
        b == 0 || !es_blanco(s[b - 1]),
    ensures
        blancos_al_final(s) == s.len() - b,
    decreases s.len() - b,
{
    if b < s.len() {
        assert(es_blanco(s.last()));
        let t = s.drop_last();
        assert forall|k: int| b <= k < t.len() implies es_blanco(#[trigger] t[k]) by {
            assert(t[k] == s[k]);
        }
        if b > 0 {
            assert(t[b - 1] == s[b - 1]);
        }
        lema_blancos_al_final(t, b);
    }
}

/// `s` sin blancos en los extremos (`str::trim`).
pub fn recortar(s: &[char]) -> (r: Vec<char>)
    ensures
        r@ == recorte(s@),
{
    let n = s.len();
    let mut a: usize = 0;
    while a < n && blanco(s[a])
        invariant
            a <= n,
            n == s@.len(),
            forall|k: int| 0 <= k < a ==> es_blanco(#[trigger] s@[k]),
        decreases n - a,
    {
        a = a + 1;
    }
    let mut b: usize = n;
    while b > a && blanco(s[b - 1])
        invariant
            a <= b <= n,
            n == s@.len(),
            forall|k: int| b <= k < n ==> es_blanco(#[trigger] s@[k]),
        decreases b - a,
    {
        b = b - 1;
    }
    proof {
        lema_blancos_al_inicio(s@, a as int);
        let t = s@.skip(a as int);
        assert forall|k: int| b - a <= k < t.len() implies es_blanco(#[trigger] t[k]) by {
            assert(t[k] == s@[k + a]);
        }
        if b - a > 0 {
            assert(t[b - a - 1] == s@[b - 1]);
        }
        lema_blancos_al_final(t, b - a);
    }
    let mut r: Vec<char> = Vec::new();
    let mut i: usize = a;
    while i < b
        invariant
            a <= i <= b <= n,
            n == s@.len(),
            r@ == s@.subrange(a as int, i as int),
        decreases b - i,
    {
        r.push(s[i]);
        assert(s@.subrange(a as int, i + 1) == s@.subrange(a as int, i as int).push(s@[i as int]));
        i = i + 1;
    }
    assert(r@ == recorte(s@));
    r
}

/// `s` acaba en `sufijo`.
pub open spec fn termina_en(s: Seq<char>, sufijo: Seq<char>) -> bool {
    sufijo.len() <= s.len() && s.subrange(s.len() - sufijo.len(), s.len() as int) == sufijo
}

/// `s` sin sus últimos `sufijo.len()` caracteres.
pub open spec fn sin_sufijo(s: Seq<char>, sufijo: Seq<char>) -> Seq<char> {
    s.take(s.len() - sufijo.len())
}

pub fn acaba_en(s: &[char], sufijo: &[char]) -> (b: bool)
    ensures
        b == termina_en(s@, sufijo@),
{
    if sufijo.len() > s.len() {
        return false;
    }
    let base = s.len() - sufijo.len();
    let mut i: usize = 0;
    while i < sufijo.len()
        invariant
            base + sufijo@.len() == s@.len(),
            s@.len() == s.len(),
            i <= sufijo@.len(),
            forall|k: int| 0 <= k < i ==> s@[base + k] == sufijo@[k],
        decreases sufijo@.len() - i,
    {
        if s[base + i] != sufijo[i] {
            assert(s@.subrange(base as int, s@.len() as int)[i as int] != sufijo@[i as int]);
            return false;
        }
        i = i + 1;
    }
    assert(s@.subrange(base as int, s@.len() as int) =~= sufijo@);
    true
}

/// Los primeros `n` caracteres de `s`.
pub fn prefijo(s: &[char], n: usize) -> (r: Vec<char>)
    requires
        n <= s@.len(),
    ensures
        r@ == s@.take(n as int),
{
    let mut r: Vec<char> = Vec::new();
    let mut i: usize = 0;
    while i < n
        invariant
            i <= n <= s@.len(),
            r@ == s@.take(i as int),
        decreases n - i,
    {
        r.push(s[i]);
        assert(s@.take(i + 1) == s@.take(i as int).push(s@[i as int]));
        i = i + 1;
    }
    r
}

/// Los caracteres de `s` desde la posición `n`.
pub fn sufijo_desde(s: &[char], n: usize) -> (r: Vec<char>)
    requires
        n <= s@.len(),
    ensures
        r@ == s@.skip(n as int),
{
    let mut r: Vec<char> = Vec::new();
    let mut i: usize = n;
    while i < s.len()
        invariant
            n <= i <= s@.len(),
            r@ == s@.subrange(n as int, i as int),
        decreases s@.len() - i,
    {
        r.push(s[i]);
        assert(s@.subrange(n as int, i + 1) == s@.subrange(n as int, i as int).push(s@[i as int]));
        i = i + 1;
    }
    r
}

/// `patron` aparece en `s` empezando en la posición `i`.
pub open spec fn aparece_en(s: Seq<char>, patron: Seq<char>, i: int) -> bool {
    0 <= i && i + patron.len() <= s.len() && s.subrange(i, i + patron.len()) == patron
}

/// `patron` aparece en algún punto de `s`.
pub open spec fn contiene(s: Seq<char>, patron: Seq<char>) -> bool {
    exists|i: int| aparece_en(s, patron, i)
}

/// Primera posición `>= i` donde aparece `patron`; `s.len()` si no hay.
pub open spec fn primera_aparicion_desde(s: Seq<char>, patron: Seq<char>, i: int) -> int
    decreases s.len() + 1 - i,
{
    if i < 0 || i > s.len() {
        s.len() as int
    } else if aparece_en(s, patron, i) {
        i
    } else {
        primera_aparicion_desde(s, patron, i + 1)
    }
}

/// Lo que hay antes de la primera aparición de `separador`, o todo `s`
/// si no aparece (el primer trozo de `str::split`).
pub open spec fn antes_de(s: Seq<char>, separador: Seq<char>) -> Seq<char> {
    s.take(primera_aparicion_desde(s, separador, 0))
}

fn aparece_aqui(s: &[char], patron: &[char], i: usize) -> (b: bool)
    ensures
        b == aparece_en(s@, patron@, i as int),
{
    if i > s.len() || patron.len() > s.len() - i {
        return false;
    }
    let mut k: usize = 0;
    while k < patron.len()
        invariant
            i + patron@.len() <= s@.len(),
            s@.len() == s.len(),
            k <= patron@.len(),
            forall|j: int| 0 <= j < k ==> s@[i + j] == patron@[j],
        decreases patron@.len() - k,
    {
        if s[i + k] != patron[k] {
            assert(s@.subrange(i as int, i + patron@.len())[k as int] != patron@[k as int]);
            return false;
        }
        k = k + 1;
    }
    assert(s@.subrange(i as int, i + patron@.len()) =~= patron@);
    true
}

proof fn lema_primera_aparicion(s: Seq<char>, patron: Seq<char>, i: int, k: int)
    requires
        0 <= i <= k <= s.len(),
        forall|j: int| i <= j < k ==> !#[trigger] aparece_en(s, patron, j),
    ensures
        primera_aparicion_desde(s, patron, i) == primera_aparicion_desde(s, patron, k),
    decreases k - i,
{
    if i < k {
        lema_primera_aparicion(s, patron, i + 1, k);
    }
}

/// Posición de la primera aparición de `patron` en `s`, o `s.len()`.
pub fn buscar(s: &[char], patron: &[char]) -> (r: usize)
    ensures
        r == primera_aparicion_desde(s@, patron@, 0),
        r <= s@.len(),
        r < s@.len() ==> aparece_en(s@, patron@, r as int),
        forall|j: int| 0 <= j < r ==> !#[trigger] aparece_en(s@, patron@, j),
{
    let mut i: usize = 0;
    while i <= s.len()
        invariant
            i <= s@.len() + 1,
            forall|j: int| 0 <= j < i ==> !#[trigger] aparece_en(s@, patron@, j),
        decreases s@.len() + 1 - i,
    {
        if aparece_aqui(s, patron, i) {
            proof {
                lema_primera_aparicion(s@, patron@, 0, i as int);
            }
            return i;
        }
        if i == s.len() {
            proof {
                lema_primera_aparicion(s@, patron@, 0, i as int);
                assert(primera_aparicion_desde(s@, patron@, i + 1) == s@.len());
            }
            return i;
        }
        i = i + 1;
    }
    proof {
        lema_primera_aparicion(s@, patron@, 0, s@.len() as int);
        assert(primera_aparicion_desde(s@, patron@, s@.len() as int + 1) == s@.len());
    }
    s.len()
}

/// Lo que hay antes de la primera aparición de `separador`.
pub fn trozo_inicial(s: &[char], separador: &[char]) -> (r: Vec<char>)
    ensures
        r@ == antes_de(s@, separador@),
{
    let k = buscar(s, separador);
    prefijo(s, k)
}

/// `patron` aparece en `s`.
pub fn incluye(s: &[char], patron: &[char]) -> (b: bool)
    ensures
        b == contiene(s@, patron@),
{
    if patron.len() == 0 {
        assert(s@.subrange(0, 0) =~= patron@);
        assert(aparece_en(s@, patron@, 0));
        return true;
    }
    let k = buscar(s, patron);
    if k < s.len() {
        true
    } else {
        assert forall|j: int| !aparece_en(s@, patron@, j) by {
            if 0 <= j < k {
            } else if aparece_en(s@, patron@, j) {
                assert(j + patron@.len() <= s@.len());
            }
        }
        false
    }
}

/// Minúscula ASCII: `A`..`Z` pasan a `a`..`z`; el resto no cambia.
pub open spec fn minuscula(c: char) -> char {
    if 'A' <= c <= 'Z' {
        ((c as u32) + 32) as char
    } else {
        c
    }
}

/// Mayúscula ASCII: `a`..`z` pasan a `A`..`Z`; el resto no cambia.
pub open spec fn mayuscula(c: char) -> char {
    if 'a' <= c <= 'z' {
        ((c as u32) - 32) as char
    } else {
        c
    }
}

/// `str::to_ascii_lowercase` sobre una secuencia.
pub open spec fn minusculas(s: Seq<char>) -> Seq<char> {
    s.map_values(|c: char| minuscula(c))
}

/// Minúscula ASCII de un carácter (lo que hace `char::to_ascii_lowercase`).
pub(crate) fn a_minuscula(c: char) -> (r: char)
    ensures
        r == minuscula(c),
{
    if 'A' <= c && c <= 'Z' {
        ((c as u8) + 32) as char
    } else {
        c
    }
}

/// Mayúscula ASCII de un carácter (lo que hace `char::to_ascii_uppercase`).
pub(crate) fn a_mayuscula(c: char) -> (r: char)
    ensures
        r == mayuscula(c),
{
    if 'a' <= c && c <= 'z' {
        ((c as u8) - 32) as char
    } else {
        c
    }
}

/// `s` en minúsculas ASCII.
pub fn en_minusculas(s: &[char]) -> (r: Vec<char>)
    ensures
        r@ == minusculas(s@),
{
    let mut r: Vec<char> = Vec::new();
    let mut i: usize = 0;
    while i < s.len()
        invariant
            i <= s@.len(),
            r@ == minusculas(s@.take(i as int)),
        decreases s@.len() - i,
    {
        r.push(a_minuscula(s[i]));
        assert(minusculas(s@.take(i + 1)) =~= minusculas(s@.take(i as int)).push(
            minuscula(s@[i as int]),
        ));
        i = i + 1;
    }
    assert(s@.take(s@.len() as int) == s@);
    r
}

/// Dígito decimal de `n < 10`.
pub open spec fn digito_decimal(n: int) -> char {
    (('0' as int) + n) as char
}

/// Escritura decimal de `n`, sin ceros a la izquierda (`Display` de los
/// enteros sin signo).
pub open spec fn decimal(n: nat) -> Seq<char>
    decreases n,
{
    if n < 10 {
        seq![digito_decimal(n as int)]
    } else {
        decimal(n / 10).push(digito_decimal((n % 10) as int))
    }
}

/// Añade a `v` la escritura decimal de `n`.
pub fn escribir_decimal(v: &mut Vec<char>, n: u64)
    ensures
        final(v)@ == old(v)@ + decimal(n as nat),
    decreases n,
{
    if n >= 10 {
        escribir_decimal(v, n / 10);
    }
    let d = (n % 10) as u8;
    v.push((48u8 + d) as char);
    assert(old(v)@ + decimal(n as nat) =~= v@);
}

/// Escritura decimal de un entero con signo (`Display` de los enteros):
/// un `-` delante de los negativos.
pub open spec fn entero(n: int) -> Seq<char> {
    if n < 0 {
        seq!['-'] + decimal((-n) as nat)
    } else {
        decimal(n as nat)
    }
}

/// Añade a `v` la escritura decimal de `n`, con su signo.
pub fn escribir_entero(v: &mut Vec<char>, n: i64)
    ensures
        final(v)@ == old(v)@ + entero(n as int),
{
    if n < 0 {
        v.push('-');
        let m: u64 = (-(n + 1)) as u64 + 1;
        escribir_decimal(v, m);
        assert(final(v)@ =~= old(v)@ + entero(n as int));
    } else {
        escribir_decimal(v, n as u64);
    }
}

/// Codificación UTF-16 de un carácter: una unidad en el plano básico, un
/// par sustituto fuera de él.
pub open spec fn utf16_de(c: char) -> Seq<u16> {
    if (c as int) < 0x10000 {
        seq![(c as int) as u16]
    } else {
        let v = (c as int) - 0x10000;
        seq![(0xD800 + v / 0x400) as u16, (0xDC00 + v % 0x400) as u16]
    }
}

/// Codificación UTF-16 de una secuencia de caracteres.
pub open spec fn utf16(s: Seq<char>) -> Seq<u16>
    decreases s.len(),
{
    if s.len() == 0 {
        Seq::empty()
    } else {
        utf16(s.drop_last()) + utf16_de(s.last())
    }
}

/// Punto de código de un carácter.
pub fn codigo(c: char) -> (u: u32)
    ensures
        u == c as int,
        u <= 0x10FFFF,
{
    c as u32
}

/// UTF-16 terminado en nulo para las APIs *W de Windows.
pub fn wide(s: &str) -> (w: Vec<u16>)
    ensures
        w@ == utf16(s@).push(0u16),
{
    let v = caracteres(s);
    let mut w: Vec<u16> = Vec::new();
    let mut i: usize = 0;
    while i < v.len()
        invariant
            i <= v@.len(),
            w@ == utf16(v@.take(i as int)),
        decreases v@.len() - i,
    {
        let c = v[i];
        let u = codigo(c);
        let ghost antes = w@;
        if u < 0x10000 {
            w.push(u as u16);
        } else {
            let d = u - 0x10000;
            assert(d < 0x100000);
            w.push((0xD800 + d / 0x400) as u16);
            w.push((0xDC00 + d % 0x400) as u16);
        }
        assert(w@ =~= antes + utf16_de(c));
        assert(v@.take(i + 1).drop_last() == v@.take(i as int));
        assert(v@.take(i + 1).last() == c);
        i = i + 1;
    }
    assert(v@.take(v@.len() as int) == v@);
    w.push(0);
    w
}

/// Las dos secuencias son iguales.
pub fn iguales(a: &[char], b: &[char]) -> (r: bool)
    ensures
        r == (a@ == b@),
{
    if a.len() != b.len() {
        return false;
    }
    let mut i: usize = 0;
    while i < a.len()
        invariant
            a@.len() == b@.len(),
            i <= a@.len(),
            forall|j: int| 0 <= j < i ==> a@[j] == b@[j],
        decreases a@.len() - i,
    {
        if a[i] != b[i] {
            return false;
        }
        i = i + 1;
    }
    assert(a@ =~= b@);
    true
}

} // verus!
