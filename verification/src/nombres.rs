//! Nombres de fuente del registro de Windows y de los archivos de la
//! carpeta portable: de ellos salen la familia y si la cara es negrita.

use vstd::prelude::*;
use crate::texto::{
    acaba_en, antes_de, aparece_en, blancos_al_final, blancos_al_inicio, es_blanco,
    primera_aparicion_desde, cadena, caracteres, contiene, en_minusculas, iguales, incluye, minusculas,
    prefijo, recortar, recorte, sin_sufijo, sufijo_desde, termina_en, trozo_inicial,
};

verus! {

/// El nombre visible sin su sufijo de tipo (" (TrueType)", " (OpenType)"
/// o " (VarType)"); `None` si no lleva ninguno.
pub open spec fn sin_tipo(valor: Seq<char>) -> Option<Seq<char>> {
    if termina_en(valor, " (TrueType)"@) {
        Some(sin_sufijo(valor, " (TrueType)"@))
    } else if termina_en(valor, " (OpenType)"@) {
        Some(sin_sufijo(valor, " (OpenType)"@))
    } else if termina_en(valor, " (VarType)"@) {
        Some(sin_sufijo(valor, " (VarType)"@))
    } else {
        None
    }
}

/// Acaba en un peso que no es ni la cara normal ni la negrita.
pub open spec fn es_peso_intermedio(nombre: Seq<char>) -> bool {
    ||| termina_en(nombre, " Light"@)
    ||| termina_en(nombre, " Semilight"@)
    ||| termina_en(nombre, " Semibold"@)
    ||| termina_en(nombre, " Black"@)
    ||| termina_en(nombre, " Thin"@)
    ||| termina_en(nombre, " Medium"@)
}

/// "Familia Regular" es la cara normal de "Familia" si queda algo delante.
pub open spec fn sin_regular(nombre: Seq<char>) -> Seq<char> {
    if termina_en(nombre, " Regular"@) && recorte(sin_sufijo(nombre, " Regular"@)).len() > 0 {
        recorte(sin_sufijo(nombre, " Regular"@))
    } else {
        nombre
    }
}

/// Familia y negrita de un nombre del registro, o `None` para cursivas,
/// pesos intermedios y nombres sin sufijo de tipo.
pub open spec fn familia_de_registro(valor: Seq<char>) -> Option<(Seq<char>, bool)> {
    match sin_tipo(valor) {
        None => None,
        Some(resto) => {
            let primera = recorte(antes_de(resto, " & "@));
            if primera.len() == 0 {
                None
            } else if contiene(minusculas(primera), "italic"@) || contiene(
                minusculas(primera),
                "oblique"@,
            ) {
                None
            } else if es_peso_intermedio(primera) {
                None
            } else {
                let base = sin_regular(primera);
                if termina_en(base, " Bold"@) && recorte(sin_sufijo(base, " Bold"@)).len() > 0 {
                    Some((recorte(sin_sufijo(base, " Bold"@)), true))
                } else {
                    Some((base, false))
                }
            }
        },
    }
}

/// Los pesos que no se ofrecen como familia.
pub open spec fn pesos_descartados() -> Seq<Seq<char>> {
    seq![" Light"@, " Semilight"@, " Semibold"@, " Black"@, " Thin"@, " Medium"@]
}

/// Un nombre del registro cuya primera familia acaba en Light, Semilight,
/// Semibold, Black, Thin o Medium no da familia: esos pesos no se ofrecen.
pub proof fn ley_los_pesos_intermedios_no_dan_familia(valor: Seq<char>, k: int)
    requires
        0 <= k < 6,
        sin_tipo(valor) matches Some(resto) && termina_en(
            recorte(antes_de(resto, " & "@)),
            pesos_descartados()[k],
        ),
    ensures
        familia_de_registro(valor) is None,
{
    reveal_strlit(" Light");
    reveal_strlit(" Semilight");
    reveal_strlit(" Semibold");
    reveal_strlit(" Black");
    reveal_strlit(" Thin");
    reveal_strlit(" Medium");
}

/// Con una familia que tiene algo visible y ningún `&`, el nombre
/// «familia + peso intermedio» con cualquier sufijo de tipo no da familia:
/// p. ej. «Segoe UI Semilight (TrueType)».
pub proof fn ley_familia_con_peso_intermedio(f: Seq<char>, k: int, visible: int, tipo: Seq<char>)
    requires
        0 <= k < 6,
        0 <= visible < f.len(),
        !es_blanco(f[visible]),
        forall|i: int| 0 <= i < f.len() ==> f[i] != '&',
        tipo == " (TrueType)"@ || tipo == " (OpenType)"@ || tipo == " (VarType)"@,
    ensures
        familia_de_registro(f + pesos_descartados()[k] + tipo) is None,
{
    reveal_strlit(" Light");
    reveal_strlit(" Semilight");
    reveal_strlit(" Semibold");
    reveal_strlit(" Black");
    reveal_strlit(" Thin");
    reveal_strlit(" Medium");
    reveal_strlit(" (TrueType)");
    reveal_strlit(" (OpenType)");
    reveal_strlit(" (VarType)");
    let peso = pesos_descartados()[k];
    let nombre = f + peso;
    let valor = nombre + tipo;
    assert(valor.subrange(valor.len() - tipo.len(), valor.len() as int) =~= tipo);
    assert(sin_sufijo(valor, tipo) =~= nombre);
    assert(valor[valor.len() - 6] == tipo[tipo.len() - 6]);
    let tt = " (TrueType)"@;
    let ot = " (OpenType)"@;
    if termina_en(valor, tt) {
        assert(valor.subrange(valor.len() - tt.len(), valor.len() as int)[tt.len() - 6] == valor[valor.len() - 6]);
    }
    if termina_en(valor, ot) {
        assert(valor.subrange(valor.len() - ot.len(), valor.len() as int)[ot.len() - 6] == valor[valor.len() - 6]);
    }
    assert(sin_tipo(valor) == Some(nombre));
    assert forall|i: int| 0 <= i < nombre.len() implies nombre[i] != '&' by {
        if i >= f.len() {
            assert(nombre[i] == peso[i - f.len()]);
        }
    }
    lema_sin_separador(nombre);
    assert(nombre.subrange(nombre.len() - peso.len(), nombre.len() as int) =~= peso);
    assert(nombre[visible] == f[visible]);
    lema_recorte_conserva_final(nombre, peso, visible);
    ley_los_pesos_intermedios_no_dan_familia(valor, k);
}

/// Sin ningún `&`, el primer trozo de `s` por " & " es todo `s`.
proof fn lema_sin_separador(s: Seq<char>)
    requires
        forall|i: int| 0 <= i < s.len() ==> s[i] != '&',
    ensures
        antes_de(s, " & "@) == s,
{
    lema_sin_aparicion(s, 0);
    assert(s.take(s.len() as int) =~= s);
}

proof fn lema_sin_aparicion(s: Seq<char>, i: int)
    requires
        0 <= i <= s.len() + 1,
        forall|k: int| 0 <= k < s.len() ==> s[k] != '&',
    ensures
        primera_aparicion_desde(s, " & "@, i) == s.len(),
    decreases s.len() + 1 - i,
{
    reveal_strlit(" & ");
    if i <= s.len() {
        if aparece_en(s, " & "@, i) {
            assert(s.subrange(i, i + 3)[1] == s[i + 1]);
        }
        lema_sin_aparicion(s, i + 1);
    }
}

/// Quitar los blancos de los extremos no toca un final que acaba en algo
/// visible si antes de él queda algo visible.
proof fn lema_recorte_conserva_final(s: Seq<char>, w: Seq<char>, visible: int)
    requires
        termina_en(s, w),
        w.len() > 0,
        !es_blanco(w.last()),
        0 <= visible < s.len() - w.len(),
        !es_blanco(s[visible]),
    ensures
        termina_en(recorte(s), w),
{
    lema_blancos_hasta(s, visible);
    let a = blancos_al_inicio(s) as int;
    let u = s.skip(a);
    assert(s[s.len() - 1] == w[w.len() - 1]) by {
        assert(s.subrange(s.len() - w.len(), s.len() as int)[w.len() - 1] == s[s.len() - 1]);
    }
    assert(u.last() == s.last());
    assert(blancos_al_final(u) == 0);
    assert(recorte(s) =~= u);
    assert(u.subrange(u.len() - w.len(), u.len() as int) =~= s.subrange(
        s.len() - w.len(),
        s.len() as int,
    ));
}

/// Los blancos del principio no pasan de un carácter visible.
proof fn lema_blancos_hasta(s: Seq<char>, j: int)
    requires
        0 <= j < s.len(),
        !es_blanco(s[j]),
    ensures
        blancos_al_inicio(s) <= j,
    decreases j,
{
    if j > 0 && es_blanco(s[0]) {
        assert(s.drop_first()[j - 1] == s[j]);
        lema_blancos_hasta(s.drop_first(), j - 1);
    }
}

/// Quita `sufijo` y los blancos de los extremos de lo que queda.
fn recortar_sin(s: &[char], sufijo: &[char]) -> (r: Vec<char>)
    requires
        termina_en(s@, sufijo@),
    ensures
        r@ == recorte(sin_sufijo(s@, sufijo@)),
{
    let base = prefijo(s, s.len() - sufijo.len());
    recortar(&base)
}

/// Familia y negrita de un nombre del registro. `None` para lo que no se
/// sabe rasterizar o no se quiere ofrecer: cursivas, pesos que no son ni
/// normal ni negrita, y nombres sin sufijo de tipo (las `.fon` antiguas).
pub fn analizar(valor: &str) -> (r: Option<(String, bool)>)
    ensures
        match r {
            None => familia_de_registro(valor@) is None,
            Some((familia, negrita)) => familia_de_registro(valor@) == Some((familia@, negrita)),
        },
{
    let v = caracteres(valor);
    let truetype = caracteres(" (TrueType)");
    let opentype = caracteres(" (OpenType)");
    let vartype = caracteres(" (VarType)");
    let resto = if acaba_en(&v, &truetype) {
        prefijo(&v, v.len() - truetype.len())
    } else if acaba_en(&v, &opentype) {
        prefijo(&v, v.len() - opentype.len())
    } else if acaba_en(&v, &vartype) {
        prefijo(&v, v.len() - vartype.len())
    } else {
        return None;
    };
    let primera = recortar(&trozo_inicial(&resto, &caracteres(" & ")));
    if primera.len() == 0 {
        return None;
    }
    let minuscula = en_minusculas(&primera);
    if incluye(&minuscula, &caracteres("italic")) || incluye(&minuscula, &caracteres("oblique")) {
        return None;
    }
    if acaba_en(&primera, &caracteres(" Light")) || acaba_en(&primera, &caracteres(" Semilight"))
        || acaba_en(&primera, &caracteres(" Semibold")) || acaba_en(
        &primera,
        &caracteres(" Black"),
    ) || acaba_en(&primera, &caracteres(" Thin")) || acaba_en(
        &primera,
        &caracteres(" Medium"),
    ) {
        return None;
    }
    let regular = caracteres(" Regular");
    let base = if acaba_en(&primera, &regular) {
        let sin = recortar_sin(&primera, &regular);
        if sin.len() > 0 {
            sin
        } else {
            primera
        }
    } else {
        primera
    };
    let bold = caracteres(" Bold");
    if acaba_en(&base, &bold) {
        let familia = recortar_sin(&base, &bold);
        if familia.len() > 0 {
            return Some((cadena(&familia), true));
        }
    }
    Some((cadena(&base), false))
}

/// `-` y `_` pasan a ser espacios.
pub open spec fn guiones_a_espacios(s: Seq<char>) -> Seq<char> {
    s.map_values(|c: char| if c == '-' || c == '_' { ' ' } else { c })
}

/// Posición del último `c` entre los `n` primeros caracteres, o -1.
pub open spec fn ultima_posicion(s: Seq<char>, c: char, n: int) -> int
    decreases n,
{
    if n <= 0 {
        -1
    } else if s[n - 1] == c {
        n - 1
    } else {
        ultima_posicion(s, c, n - 1)
    }
}

/// Familia y negrita del nombre de archivo (sin extensión) de una fuente
/// portable: guiones y subrayados son espacios, y una última palabra
/// "bold" en cualquier capitalización marca la negrita.
pub open spec fn familia_de_archivo(tallo: Seq<char>) -> Option<(Seq<char>, bool)> {
    let limpio = recorte(guiones_a_espacios(tallo));
    let k = ultima_posicion(limpio, ' ', limpio.len() as int);
    if limpio.len() == 0 {
        None
    } else if k >= 0 && minusculas(limpio.skip(k + 1)) == "bold"@ && recorte(limpio.take(k)).len()
        > 0 {
        Some((recorte(limpio.take(k)), true))
    } else {
        Some((limpio, false))
    }
}

fn ultimo_espacio(s: &[char]) -> (k: Option<usize>)
    ensures
        match k {
            None => ultima_posicion(s@, ' ', s@.len() as int) == -1,
            Some(k) => ultima_posicion(s@, ' ', s@.len() as int) == k && k < s@.len(),
        },
{
    let mut n: usize = s.len();
    while n > 0
        invariant
            n <= s@.len(),
            ultima_posicion(s@, ' ', s@.len() as int) == ultima_posicion(s@, ' ', n as int),
        decreases n,
    {
        if s[n - 1] == ' ' {
            return Some(n - 1);
        }
        n = n - 1;
    }
    None
}

/// Familia y negrita del nombre de ARCHIVO de una fuente de la carpeta
/// portable (`MiFuente-Bold` → familia `MiFuente`, negrita).
pub fn de_archivo(tallo: &str) -> (r: Option<(String, bool)>)
    ensures
        match r {
            None => familia_de_archivo(tallo@) is None,
            Some((familia, negrita)) => familia_de_archivo(tallo@) == Some((familia@, negrita)),
        },
{
    let t = caracteres(tallo);
    let mut espaciado: Vec<char> = Vec::new();
    let mut i: usize = 0;
    while i < t.len()
        invariant
            i <= t@.len(),
            espaciado@ == guiones_a_espacios(t@.take(i as int)),
        decreases t@.len() - i,
    {
        let c = t[i];
        espaciado.push(if c == '-' || c == '_' { ' ' } else { c });
        assert(guiones_a_espacios(t@.take(i + 1)) =~= guiones_a_espacios(t@.take(i as int)).push(
            if c == '-' || c == '_' { ' ' } else { c },
        ));
        i = i + 1;
    }
    assert(t@.take(t@.len() as int) == t@);
    let limpio = recortar(&espaciado);
    if limpio.len() == 0 {
        return None;
    }
    if let Some(k) = ultimo_espacio(&limpio) {
        let ultima = en_minusculas(&sufijo_desde(&limpio, k + 1));
        if iguales(&ultima, &caracteres("bold")) {
            let familia = recortar(&prefijo(&limpio, k));
            if familia.len() > 0 {
                return Some((cadena(&familia), true));
            }
        }
    }
    Some((cadena(&limpio), false))
}

/// Extensiones que el rasterizador sabe leer: `ttf` y `otf`, en cualquier
/// capitalización.
pub open spec fn es_extension_valida(extension: Option<Seq<char>>) -> bool {
    match extension {
        Some(e) => minusculas(e) == "ttf"@ || minusculas(e) == "otf"@,
        None => false,
    }
}

/// ¿La extensión del archivo (sin el punto) es de una fuente utilizable?
pub fn extension_valida(extension: Option<&str>) -> (b: bool)
    ensures
        b == es_extension_valida(
            match extension {
                Some(e) => Some(e@),
                None => None,
            },
        ),
{
    match extension {
        Some(e) => {
            let m = en_minusculas(&caracteres(e));
            iguales(&m, &caracteres("ttf")) || iguales(&m, &caracteres("otf"))
        },
        None => false,
    }
}

} // verus!
