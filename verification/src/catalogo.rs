//! Catálogo de fuentes del editor: las caras que se van encontrando (del
//! registro del sistema, del de usuario y de la carpeta portable, en ese
//! orden de prioridad) y las familias que salen de ellas, por orden de
//! nombre. Leer el registro y el disco queda fuera.

use vstd::prelude::*;
use crate::texto::{cadena, caracteres, codigo, iguales};

verus! {

/// `a` va antes que `b` en el orden de las cadenas de Rust: lexicográfico
/// por punto de código (el mismo que el de sus bytes UTF-8).
pub open spec fn precede(a: Seq<char>, b: Seq<char>) -> bool
    decreases a.len(),
{
    if a.len() == 0 {
        b.len() > 0
    } else if b.len() == 0 {
        false
    } else if a[0] != b[0] {
        (a[0] as int) < (b[0] as int)
    } else {
        precede(a.drop_first(), b.drop_first())
    }
}

proof fn lema_precede_irreflexivo(a: Seq<char>)
    ensures
        !precede(a, a),
    decreases a.len(),
{
    if a.len() > 0 {
        lema_precede_irreflexivo(a.drop_first());
    }
}

proof fn lema_precede_transitivo(a: Seq<char>, b: Seq<char>, c: Seq<char>)
    requires
        precede(a, b),
        precede(b, c),
    ensures
        precede(a, c),
    decreases a.len(),
{
    if a.len() > 0 && b.len() > 0 && c.len() > 0 && a[0] == b[0] && b[0] == c[0] {
        lema_precede_transitivo(a.drop_first(), b.drop_first(), c.drop_first());
    }
}

proof fn lema_precede_total(a: Seq<char>, b: Seq<char>)
    ensures
        a == b || precede(a, b) || precede(b, a),
    decreases a.len(),
{
    if a.len() == 0 && b.len() == 0 {
        assert(a =~= b);
    } else if a.len() == 0 || b.len() == 0 {
    } else if a[0] != b[0] {
        assert((a[0] as int) != (b[0] as int));
    } else {
        lema_precede_total(a.drop_first(), b.drop_first());
        if a.drop_first() == b.drop_first() {
            assert(a =~= seq![a[0]] + a.drop_first());
            assert(b =~= seq![b[0]] + b.drop_first());
            assert(a =~= b);
        }
    }
}

/// ¿`a` va antes que `b`?
pub fn va_antes(a: &[char], b: &[char]) -> (r: bool)
    ensures
        r == precede(a@, b@),
{
    let mut i: usize = 0;
    assert(a@.skip(0) =~= a@);
    assert(b@.skip(0) =~= b@);
    while i < a.len() && i < b.len() && a[i] == b[i]
        invariant
            i <= a@.len(),
            i <= b@.len(),
            precede(a@, b@) == precede(a@.skip(i as int), b@.skip(i as int)),
        decreases a@.len() - i,
    {
        assert(a@.skip(i as int).drop_first() =~= a@.skip(i + 1));
        assert(b@.skip(i as int).drop_first() =~= b@.skip(i + 1));
        i = i + 1;
    }
    let ghost sa = a@.skip(i as int);
    let ghost sb = b@.skip(i as int);
    if i == a.len() {
        assert(sa.len() == 0);
        i < b.len()
    } else if i == b.len() {
        false
    } else {
        assert(sa[0] == a@[i as int] && sb[0] == b@[i as int]);
        codigo(a[i]) < codigo(b[i])
    }
}

/// Una cara encontrada: familia, si es la negrita, y su archivo.
pub struct Cara {
    pub familia: String,
    pub negrita: bool,
    pub ruta: String,
}

pub open spec fn vista_cara(c: Cara) -> (Seq<char>, bool, Seq<char>) {
    (c.familia@, c.negrita, c.ruta@)
}

/// Archivo de la cara (`familia`, `negrita`): el de la última que se
/// añadió con esa clave, que es la de más prioridad.
pub open spec fn ruta_de(s: Seq<(Seq<char>, bool, Seq<char>)>, familia: Seq<char>, negrita: bool) -> Option<Seq<char>>
    decreases s.len(),
{
    if s.len() == 0 {
        None
    } else if s.last().0 == familia && s.last().1 == negrita {
        Some(s.last().2)
    } else {
        ruta_de(s.drop_last(), familia, negrita)
    }
}

/// Caras encontradas, por orden de llegada.
pub struct Caras {
    caras: Vec<Cara>,
}

impl View for Caras {
    type V = Seq<(Seq<char>, bool, Seq<char>)>;

    closed spec fn view(&self) -> Seq<(Seq<char>, bool, Seq<char>)> {
        self.caras@.map_values(|c: Cara| vista_cara(c))
    }
}

/// Una familia del catálogo: su cara normal y, si la hay, la negrita.
pub struct Familia {
    pub nombre: String,
    pub normal: String,
    pub bold: Option<String>,
}

/// Las familias que ofrece el catálogo: las que tienen cara normal.
pub open spec fn es_familia(s: Seq<(Seq<char>, bool, Seq<char>)>, nombre: Seq<char>) -> bool {
    ruta_de(s, nombre, false) is Some
}

/// La familia `f` es la que el catálogo da para su nombre.
pub open spec fn familia_ok(s: Seq<(Seq<char>, bool, Seq<char>)>, f: Familia) -> bool {
    &&& ruta_de(s, f.nombre@, false) == Some(f.normal@)
    &&& match f.bold {
        Some(b) => ruta_de(s, f.nombre@, true) == Some(b@),
        None => ruta_de(s, f.nombre@, true) is None,
    }
}

proof fn lema_ruta_de_push(
    s: Seq<(Seq<char>, bool, Seq<char>)>,
    c: (Seq<char>, bool, Seq<char>),
    familia: Seq<char>,
    negrita: bool,
)
    ensures
        ruta_de(s.push(c), familia, negrita) == (if c.0 == familia && c.1 == negrita {
            Some(c.2)
        } else {
            ruta_de(s, familia, negrita)
        }),
{
    assert(s.push(c).drop_last() =~= s);
}

fn ruta_en(caras: &Vec<Cara>, familia: &[char], negrita: bool) -> (r: Option<String>)
    ensures
        match r {
            Some(p) => ruta_de(caras@.map_values(|c: Cara| vista_cara(c)), familia@, negrita)
                == Some(p@),
            None => ruta_de(caras@.map_values(|c: Cara| vista_cara(c)), familia@, negrita)
                is None,
        },
{
    let ghost s = caras@.map_values(|c: Cara| vista_cara(c));
    let mut n: usize = caras.len();
    assert(s.take(n as int) =~= s);
    while n > 0
        invariant
            n <= caras@.len(),
            s == caras@.map_values(|c: Cara| vista_cara(c)),
            ruta_de(s, familia@, negrita) == ruta_de(s.take(n as int), familia@, negrita),
        decreases n,
    {
        let ghost t = s.take(n as int);
        assert(t.drop_last() =~= s.take(n - 1));
        let c = &caras[n - 1];
        if c.negrita == negrita && iguales(&caracteres(c.familia.as_str()), familia) {
            assert(t.last() == vista_cara(caras@[n - 1]));
            return Some(cadena(&caracteres(c.ruta.as_str())));
        }
        n = n - 1;
    }
    None
}

impl Caras {
    pub fn nuevo() -> (c: Self)
        ensures
            c@ == Seq::<(Seq<char>, bool, Seq<char>)>::empty(),
    {
        let c = Caras { caras: Vec::new() };
        assert(c@ =~= Seq::<(Seq<char>, bool, Seq<char>)>::empty());
        c
    }

    /// Añade una cara; si ya había una con la misma familia y negrita, la
    /// nueva la sustituye.
    pub fn insertar(&mut self, cara: Cara)
        ensures
            final(self)@ == old(self)@.push(vista_cara(cara)),
            forall|f: Seq<char>, n: bool|
                #[trigger] ruta_de(final(self)@, f, n) == (if f == cara.familia@ && n == cara.negrita {
                    Some(cara.ruta@)
                } else {
                    ruta_de(old(self)@, f, n)
                }),
    {
        let ghost v = vista_cara(cara);
        self.caras.push(cara);
        assert(self@ =~= old(self)@.push(v));
        assert forall|f: Seq<char>, n: bool|
            #[trigger] ruta_de(self@, f, n) == (if f == v.0 && n == v.1 {
                Some(v.2)
            } else {
                ruta_de(old(self)@, f, n)
            }) by {
            lema_ruta_de_push(old(self)@, v, f, n);
        }
    }

    /// Archivo de una cara, si está.
    pub fn ruta(&self, familia: &str, negrita: bool) -> (r: Option<String>)
        ensures
            match r {
                Some(p) => ruta_de(self@, familia@, negrita) == Some(p@),
                None => ruta_de(self@, familia@, negrita) is None,
            },
    {
        ruta_en(&self.caras, &caracteres(familia), negrita)
    }

    /// Familias del catálogo por orden de nombre, cada una una vez, con
    /// sus caras; solo entran las que tienen cara normal.
    pub fn familias(&self) -> (r: Vec<Familia>)
        ensures
            forall|i: int, j: int|
                0 <= i < j < r@.len() ==> precede(#[trigger] r@[i].nombre@, #[trigger] r@[j].nombre@),
            forall|i: int| 0 <= i < r@.len() ==> familia_ok(self@, #[trigger] r@[i]),
            forall|nombre: Seq<char>|
                #[trigger] es_familia(self@, nombre) ==> exists|i: int|
                    0 <= i < r@.len() && r@[i].nombre@ == nombre,
    {
        let ghost s = self@;
        // Nombres con cara normal, ordenados y sin repetir.
        let mut nombres: Vec<Vec<char>> = Vec::new();
        let mut k: usize = 0;
        while k < self.caras.len()
            invariant
                k <= self.caras@.len(),
                s == self@,
                forall|i: int, j: int|
                    0 <= i < j < nombres@.len() ==> precede(#[trigger] nombres@[i]@, #[trigger] nombres@[j]@),
                forall|i: int| 0 <= i < nombres@.len() ==> es_familia(s, #[trigger] nombres@[i]@),
                forall|q: int|
                    0 <= q < k && !s[q].1 && es_familia(s, s[q].0) ==> exists|i: int|
                        0 <= i < nombres@.len() && #[trigger] nombres@[i]@ == s[q].0,
            decreases self.caras@.len() - k,
        {
            assert(s[k as int] == vista_cara(self.caras@[k as int]));
            if !self.caras[k].negrita {
                let nombre = caracteres(self.caras[k].familia.as_str());
                proof {
                    lema_cara_normal_es_familia(s, k as int);
                }
                insertar_ordenado(&mut nombres, nombre, Ghost(s));
            }
            k = k + 1;
        }
        proof {
            assert forall|nombre: Seq<char>| #[trigger] es_familia(s, nombre) implies exists|i: int|
                0 <= i < nombres@.len() && nombres@[i]@ == nombre by {
                let q = lema_familia_tiene_cara(s, nombre);
                assert(!s[q].1 && s[q].0 == nombre);
            }
        }
        let mut r: Vec<Familia> = Vec::new();
        let mut i: usize = 0;
        while i < nombres.len()
            invariant
                i <= nombres@.len(),
                s == self@,
                r@.len() == i,
                forall|a: int, b: int|
                    0 <= a < b < nombres@.len() ==> precede(#[trigger] nombres@[a]@, #[trigger] nombres@[b]@),
                forall|a: int| 0 <= a < nombres@.len() ==> es_familia(s, #[trigger] nombres@[a]@),
                forall|a: int| 0 <= a < i ==> (#[trigger] r@[a]).nombre@ == nombres@[a]@,
                forall|a: int| 0 <= a < i ==> familia_ok(s, #[trigger] r@[a]),
            decreases nombres@.len() - i,
        {
            let n = &nombres[i];
            let normal = match ruta_en(&self.caras, n, false) {
                Some(p) => p,
                None => {
                    assert(es_familia(s, nombres@[i as int]@));
                    return r;
                },
            };
            let bold = ruta_en(&self.caras, n, true);
            r.push(Familia { nombre: cadena(n), normal, bold });
            i = i + 1;
        }
        proof {
            assert forall|nombre: Seq<char>| #[trigger] es_familia(s, nombre) implies exists|a: int|
                0 <= a < r@.len() && r@[a].nombre@ == nombre by {
                let a = choose|a: int| 0 <= a < nombres@.len() && nombres@[a]@ == nombre;
                assert(r@[a].nombre@ == nombres@[a]@);
            }
        }
        r
    }
}

proof fn lema_cara_normal_es_familia(s: Seq<(Seq<char>, bool, Seq<char>)>, q: int)
    requires
        0 <= q < s.len(),
        !s[q].1,
    ensures
        es_familia(s, s[q].0),
    decreases s.len(),
{
    if q < s.len() - 1 {
        if !(s.last().0 == s[q].0 && !s.last().1) {
            assert(s.drop_last()[q] == s[q]);
            lema_cara_normal_es_familia(s.drop_last(), q);
        }
    }
}

proof fn lema_familia_tiene_cara(s: Seq<(Seq<char>, bool, Seq<char>)>, nombre: Seq<char>) -> (q: int)
    requires
        es_familia(s, nombre),
    ensures
        0 <= q < s.len(),
        !s[q].1,
        s[q].0 == nombre,
    decreases s.len(),
{
    if s.last().0 == nombre && !s.last().1 {
        s.len() - 1
    } else {
        let q = lema_familia_tiene_cara(s.drop_last(), nombre);
        assert(s.drop_last()[q] == s[q]);
        q
    }
}

/// Inserta `nombre` en su sitio en una lista ordenada y sin repetidos, si
/// no estaba.
fn insertar_ordenado(
    nombres: &mut Vec<Vec<char>>,
    nombre: Vec<char>,
    Ghost(s): Ghost<Seq<(Seq<char>, bool, Seq<char>)>>,
)
    requires
        forall|i: int, j: int|
            0 <= i < j < old(nombres)@.len() ==> precede(#[trigger] old(nombres)@[i]@, #[trigger] old(nombres)@[j]@),
        forall|i: int| 0 <= i < old(nombres)@.len() ==> es_familia(s, #[trigger] old(nombres)@[i]@),
        es_familia(s, nombre@),
    ensures
        forall|i: int, j: int|
            0 <= i < j < final(nombres)@.len() ==> precede(#[trigger] final(nombres)@[i]@, #[trigger] final(nombres)@[j]@),
        forall|i: int| 0 <= i < final(nombres)@.len() ==> es_familia(s, #[trigger] final(nombres)@[i]@),
        exists|i: int| 0 <= i < final(nombres)@.len() && #[trigger] final(nombres)@[i]@ == nombre@,
        forall|i: int|
            0 <= i < old(nombres)@.len() ==> exists|j: int|
                0 <= j < final(nombres)@.len() && #[trigger] final(nombres)@[j]@ == (#[trigger] old(nombres)@[i])@,
{
    let mut i: usize = 0;
    while i < nombres.len() && va_antes(&nombres[i], &nombre)
        invariant
            i <= nombres@.len(),
            nombres@ == old(nombres)@,
            forall|a: int| 0 <= a < i ==> precede(#[trigger] nombres@[a]@, nombre@),
        decreases nombres@.len() - i,
    {
        i = i + 1;
    }
    if i < nombres.len() && iguales(&nombres[i], &nombre) {
        assert(nombres@[i as int]@ == nombre@);
        assert forall|a: int| 0 <= a < old(nombres)@.len() implies exists|j: int|
            0 <= j < nombres@.len() && #[trigger] nombres@[j]@ == (#[trigger] old(nombres)@[a])@ by {
            assert(nombres@[a]@ == old(nombres)@[a]@);
        }
        return;
    }
    proof {
        if i < nombres@.len() {
            lema_precede_total(nombres@[i as int]@, nombre@);
        }
    }
    let ghost viejo = nombres@;
    nombres.insert(i, nombre);
    proof {
        assert forall|a: int, b: int|
            0 <= a < b < nombres@.len() implies precede(#[trigger] nombres@[a]@, #[trigger] nombres@[b]@) by {
            if b < i {
                assert(nombres@[a] == viejo[a] && nombres@[b] == viejo[b]);
            } else if b == i {
                assert(nombres@[a] == viejo[a]);
            } else if a == i {
                assert(nombres@[b] == viejo[b - 1]);
                if b - 1 > i {
                    lema_precede_transitivo(nombre@, viejo[i as int]@, viejo[b - 1]@);
                }
            } else if a < i {
                assert(nombres@[a] == viejo[a] && nombres@[b] == viejo[b - 1]);
                if i < viejo.len() {
                    lema_precede_transitivo(viejo[a]@, nombre@, viejo[i as int]@);
                    if b - 1 > i {
                        lema_precede_transitivo(viejo[a]@, viejo[i as int]@, viejo[b - 1]@);
                    }
                }
            } else {
                assert(nombres@[a] == viejo[a - 1] && nombres@[b] == viejo[b - 1]);
            }
        }
        assert forall|a: int| 0 <= a < nombres@.len() implies es_familia(s, #[trigger] nombres@[a]@) by {
            if a < i {
                assert(nombres@[a] == viejo[a]);
            } else if a > i {
                assert(nombres@[a] == viejo[a - 1]);
            }
        }
        assert(nombres@[i as int]@ == nombre@);
        assert forall|a: int| 0 <= a < viejo.len() implies exists|j: int|
            0 <= j < nombres@.len() && #[trigger] nombres@[j]@ == (#[trigger] viejo[a])@ by {
            if a < i {
                assert(nombres@[a] == viejo[a]);
            } else {
                assert(nombres@[a + 1] == viejo[a]);
            }
        }
    }
}

/// Texto de un valor `REG_SZ` leído en `buffer`: como mucho los
/// `bytes / 2` caracteres escritos, y hasta el primer nulo.
pub fn texto_de_valor(buffer: &[u16], bytes: u32) -> (r: Vec<u16>)
    ensures
        ({
            let escritos = if (bytes / 2) as int <= buffer@.len() {
                (bytes / 2) as int
            } else {
                buffer@.len() as int
            };
            &&& r@.len() <= escritos
            &&& r@ == buffer@.take(r@.len() as int)
            &&& forall|j: int| 0 <= j < r@.len() ==> r@[j] != 0
            &&& r@.len() < escritos ==> buffer@[r@.len() as int] == 0
        }),
{
    let mitad = (bytes / 2) as usize;
    let escritos = if mitad <= buffer.len() {
        mitad
    } else {
        buffer.len()
    };
    let mut r: Vec<u16> = Vec::new();
    let mut i: usize = 0;
    while i < escritos && buffer[i] != 0
        invariant
            escritos <= buffer@.len(),
            i <= escritos,
            r@ == buffer@.take(i as int),
            forall|j: int| 0 <= j < i ==> buffer@[j] != 0,
        decreases escritos - i,
    {
        r.push(buffer[i]);
        assert(buffer@.take(i + 1) == buffer@.take(i as int).push(buffer@[i as int]));
        i = i + 1;
    }
    r
}

} // verus!
