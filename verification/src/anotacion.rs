//! De la interacción a las anotaciones: el arrastre en curso y la forma
//! que describe, y el texto que deja una caja de texto al confirmarse. El
//! motor que pinta y guarda las anotaciones recibe estos valores.

use vstd::prelude::*;
use crate::color::Color;
use crate::dibujo::{controles_de_texto_activos, AccionDibujo, Tool};
use crate::geometria::Rect;
use crate::overlay::{rect_between, rect_entre};
use crate::texto::{cadena, recortar, recorte};

verus! {

/// Punto de un frame: coordenadas de píxel, nunca negativas.
pub open spec fn en_frame(p: (i32, i32)) -> bool {
    p.0 >= 0 && p.1 >= 0
}

/// Arrastre del ratón sobre el frame.
pub struct Arrastre {
    pub start: (i32, i32),
    pub current: (i32, i32),
    /// Todos los puntos recorridos (solo los usa el lápiz).
    pub points: Vec<(i32, i32)>,
}

impl Arrastre {
    /// Todos sus puntos están en el frame.
    pub open spec fn bien_formado(&self) -> bool {
        &&& en_frame(self.start)
        &&& en_frame(self.current)
        &&& forall|i: int| 0 <= i < self.points@.len() ==> en_frame(#[trigger] self.points@[i])
    }

    /// Arrastre que empieza en `p`.
    pub fn empezar(p: (i32, i32)) -> (a: Self)
        requires
            en_frame(p),
        ensures
            a.start == p,
            a.current == p,
            a.points@ == seq![p],
            a.bien_formado(),
    {
        let mut points: Vec<(i32, i32)> = Vec::new();
        points.push(p);
        Arrastre { start: p, current: p, points }
    }

    /// El ratón llegó a `p`; el lápiz apunta además el punto.
    pub fn mover(&mut self, p: (i32, i32), tool: Tool)
        requires
            old(self).bien_formado(),
            en_frame(p),
        ensures
            final(self).bien_formado(),
            final(self).start == old(self).start,
            final(self).current == p,
            final(self).points@ == (if tool == Tool::Pen {
                old(self).points@.push(p)
            } else {
                old(self).points@
            }),
    {
        self.current = p;
        if tool == Tool::Pen {
            self.points.push(p);
        }
    }
}

/// La anotación que describe un arrastre, como valores.
pub enum Forma {
    Rect { rect: Rect, color: Color, grosor: u32 },
    Elipse { rect: Rect, color: Color, grosor: u32 },
    Linea { desde: (i32, i32), hasta: (i32, i32), color: Color, grosor: u32 },
    Flecha { desde: (i32, i32), hasta: (i32, i32), color: Color, grosor: u32 },
    Lapiz { puntos: Vec<(i32, i32)>, color: Color, grosor: u32 },
    /// Rect semitransparente: el color con alfa 128.
    Resaltado { rect: Rect, color: Color },
}

/// La forma en curso, salvo con la herramienta Texto (que no arrastra).
pub open spec fn forma_ok(
    f: Option<Forma>,
    tool: Tool,
    start: (i32, i32),
    current: (i32, i32),
    puntos: Seq<(i32, i32)>,
    color: Color,
    grosor: u32,
) -> bool {
    let rect = rect_entre(start, current);
    match tool {
        Tool::Rect => f == Some(Forma::Rect { rect, color, grosor }),
        Tool::Ellipse => f == Some(Forma::Elipse { rect, color, grosor }),
        Tool::Line => f == Some(Forma::Linea { desde: start, hasta: current, color, grosor }),
        Tool::Arrow => f == Some(Forma::Flecha { desde: start, hasta: current, color, grosor }),
        Tool::Pen => f matches Some(Forma::Lapiz { puntos: p, color: c, grosor: g }) && p@
            == puntos && c == color && g == grosor,
        Tool::Highlight => f == Some(
            Forma::Resaltado { rect, color: Color { a: 128, ..color } },
        ),
        Tool::Text => f is None,
    }
}

/// Anotación provisional del arrastre: la que se pinta mientras se
/// arrastra y se añade al soltar.
pub fn forma_en_curso(tool: Tool, arrastre: &Arrastre, color: Color, grosor: u32) -> (f: Option<
    Forma,
>)
    requires
        arrastre.bien_formado(),
    ensures
        forma_ok(
            f,
            tool,
            arrastre.start,
            arrastre.current,
            arrastre.points@,
            color,
            grosor,
        ),
{
    let rect = rect_between(arrastre.start, arrastre.current);
    match tool {
        Tool::Rect => Some(Forma::Rect { rect, color, grosor }),
        Tool::Ellipse => Some(Forma::Elipse { rect, color, grosor }),
        Tool::Line => Some(
            Forma::Linea { desde: arrastre.start, hasta: arrastre.current, color, grosor },
        ),
        Tool::Arrow => Some(
            Forma::Flecha { desde: arrastre.start, hasta: arrastre.current, color, grosor },
        ),
        Tool::Pen => Some(Forma::Lapiz { puntos: copiar_puntos(&arrastre.points), color, grosor }),
        Tool::Highlight => Some(
            Forma::Resaltado { rect, color: Color::rgba(color.r, color.g, color.b, 128) },
        ),
        Tool::Text => None,
    }
}

fn copiar_puntos(v: &Vec<(i32, i32)>) -> (r: Vec<(i32, i32)>)
    ensures
        r@ == v@,
{
    let mut r: Vec<(i32, i32)> = Vec::new();
    let mut i: usize = 0;
    while i < v.len()
        invariant
            i <= v@.len(),
            r@ == v@.take(i as int),
        decreases v@.len() - i,
    {
        r.push(v[i]);
        assert(v@.take(i + 1) == v@.take(i as int).push(v@[i as int]));
        i = i + 1;
    }
    assert(v@.take(v@.len() as int) == v@);
    r
}

/// `s` con cada `\r\n` cambiado por `\n`, de izquierda a derecha
/// (`str::replace("\r\n", "\n")`): lo que devuelve un control EDIT pasa
/// al convenio del documento.
pub open spec fn sin_crlf(s: Seq<char>) -> Seq<char>
    decreases s.len(),
{
    if s.len() == 0 {
        Seq::empty()
    } else if s.len() >= 2 && s[0] == '\r' && s[1] == '\n' {
        seq!['\n'] + sin_crlf(s.skip(2))
    } else {
        seq![s[0]] + sin_crlf(s.drop_first())
    }
}

/// `s` con cada `\n` cambiado por `\r\n` (`str::replace('\n', "\r\n")`):
/// el texto del documento pasa al convenio del control EDIT.
pub open spec fn con_crlf(s: Seq<char>) -> Seq<char>
    decreases s.len(),
{
    if s.len() == 0 {
        Seq::empty()
    } else if s[0] == '\n' {
        seq!['\r', '\n'] + con_crlf(s.drop_first())
    } else {
        seq![s[0]] + con_crlf(s.drop_first())
    }
}

/// Texto del control EDIT → texto del documento.
pub fn quitar_crlf(s: &[char]) -> (r: Vec<char>)
    ensures
        r@ == sin_crlf(s@),
{
    let mut r: Vec<char> = Vec::new();
    let mut i: usize = 0;
    assert(s@.skip(0) =~= s@);
    assert(r@ + sin_crlf(s@) =~= sin_crlf(s@));
    while i < s.len()
        invariant
            i <= s@.len(),
            r@ + sin_crlf(s@.skip(i as int)) == sin_crlf(s@),
        decreases s@.len() - i,
    {
        let ghost t = s@.skip(i as int);
        if i + 1 < s.len() && s[i] == '\r' && s[i + 1] == '\n' {
            assert(t[0] == '\r' && t[1] == '\n');
            assert(t.skip(2) =~= s@.skip(i + 2));
            r.push('\n');
            assert(r@ + sin_crlf(s@.skip(i + 2)) =~= sin_crlf(s@));
            i = i + 2;
        } else {
            assert(t.drop_first() =~= s@.skip(i + 1));
            assert(t[0] == s@[i as int]);
            r.push(s[i]);
            assert(r@ + sin_crlf(s@.skip(i + 1)) =~= sin_crlf(s@));
            i = i + 1;
        }
    }
    assert(s@.skip(s@.len() as int) =~= Seq::<char>::empty());
    assert(r@ + Seq::<char>::empty() =~= r@);
    r
}

/// Texto del documento → texto del control EDIT.
pub fn poner_crlf(s: &[char]) -> (r: Vec<char>)
    ensures
        r@ == con_crlf(s@),
{
    let mut r: Vec<char> = Vec::new();
    let mut i: usize = 0;
    assert(s@.skip(0) =~= s@);
    assert(r@ + con_crlf(s@) =~= con_crlf(s@));
    while i < s.len()
        invariant
            i <= s@.len(),
            r@ + con_crlf(s@.skip(i as int)) == con_crlf(s@),
        decreases s@.len() - i,
    {
        let ghost t = s@.skip(i as int);
        assert(t.drop_first() =~= s@.skip(i + 1));
        assert(t[0] == s@[i as int]);
        if s[i] == '\n' {
            r.push('\r');
            r.push('\n');
        } else {
            r.push(s[i]);
        }
        assert(r@ + con_crlf(s@.skip(i + 1)) =~= con_crlf(s@));
        i = i + 1;
    }
    assert(s@.skip(s@.len() as int) =~= Seq::<char>::empty());
    assert(r@ + Seq::<char>::empty() =~= r@);
    r
}

proof fn lema_con_crlf_no_empieza_por_salto(s: Seq<char>)
    requires
        s.len() > 0,
    ensures
        con_crlf(s).len() > 0,
        con_crlf(s)[0] != '\n',
{
}

/// Un texto que se pasa al control EDIT y se vuelve a leer sin tocarlo
/// queda como estaba: quitar los `\r\n` deshace el ponerlos.
pub proof fn ley_el_crlf_se_deshace(s: Seq<char>)
    ensures
        sin_crlf(con_crlf(s)) == s,
    decreases s.len(),
{
    if s.len() > 0 {
        let resto = s.drop_first();
        ley_el_crlf_se_deshace(resto);
        let c = con_crlf(resto);
        let t = con_crlf(s);
        if s[0] == '\n' {
            assert(t == seq!['\r', '\n'] + c);
            assert(t.skip(2) =~= c);
        } else {
            assert(t == seq![s[0]] + c);
            if c.len() > 0 {
                lema_con_crlf_no_empieza_por_salto(resto);
            }
            assert(t.drop_first() =~= c);
        }
        assert(sin_crlf(t) =~= s);
    }
}

/// Qué hacer con el documento al confirmar una caja de texto.
pub enum ComandoTexto {
    /// Texto nuevo con contenido: se añade.
    Anadir(String),
    /// Reedición con contenido: sustituye al objeto `i` (conserva su orden).
    Reemplazar(usize, String),
    /// Reedición dejada vacía: se borra el objeto `i`.
    Quitar(usize),
    /// Texto nuevo dejado vacío: nada.
    Ninguno,
}

/// Texto vacío a efectos de confirmar: solo blancos (`trim().is_empty()`).
pub open spec fn en_blanco(t: Seq<char>) -> bool {
    recorte(t).len() == 0
}

/// El comando que deja una caja de texto con el contenido `crudo` del
/// control (con `\r\n`), nueva o reeditando el objeto `editando`.
pub fn comando_de_texto(editando: Option<usize>, crudo: &[char]) -> (c: ComandoTexto)
    ensures
        ({
            let t = sin_crlf(crudo@);
            match editando {
                Some(i) => if en_blanco(t) {
                    c matches ComandoTexto::Quitar(j) && j == i
                } else {
                    c matches ComandoTexto::Reemplazar(j, s) && j == i && s@ == t
                },
                None => if en_blanco(t) {
                    c is Ninguno
                } else {
                    c matches ComandoTexto::Anadir(s) && s@ == t
                },
            }
        }),
{
    let texto = quitar_crlf(crudo);
    let vacio = recortar(&texto).len() == 0;
    match editando {
        Some(i) => if vacio {
            ComandoTexto::Quitar(i)
        } else {
            ComandoTexto::Reemplazar(i, cadena(&texto))
        },
        None => if vacio {
            ComandoTexto::Ninguno
        } else {
            ComandoTexto::Anadir(cadena(&texto))
        },
    }
}

/// Estado de la ventana de dibujo fuera del motor de anotación: la
/// herramienta y sus propiedades, y el arrastre en curso.
pub struct EstadoDibujo {
    pub tool: Tool,
    pub color: Color,
    pub grosor: u32,
    pub tamano: u32,
    pub negrita: bool,
    /// Hay fuente para pintar texto.
    pub tiene_fuente: bool,
    pub arrastre: Option<Arrastre>,
}

/// Lo que la ventana tiene que hacer tras un comando.
#[derive(Clone, Copy, PartialEq, Eq, Debug, Structural)]
pub enum EfectoDibujo {
    Nada,
    /// Habilitar o no los controles de tamaño y negrita.
    ControlesDeTexto(bool),
    /// Abrir el diálogo de color.
    PedirColor,
    Deshacer,
    Rehacer,
    /// Confirmar el texto abierto y cerrar devolviendo el frame.
    Aceptar,
    /// Cerrar descartando (con confirmación si hay anotaciones).
    Cancelar,
}

/// Lo que hace un clic sobre el lienzo.
#[derive(Clone, Copy, PartialEq, Eq, Debug)]
pub enum EfectoClic {
    /// Fuera de la imagen: nada.
    Nada,
    /// Con Texto: confirmar la caja abierta y abrir otra en ese píxel.
    AbrirTexto((i32, i32)),
    /// Con las demás: empieza un arrastre; capturar el ratón.
    Capturar,
}

impl EstadoDibujo {
    pub open spec fn bien_formado(&self) -> bool {
        self.arrastre matches Some(a) ==> a.bien_formado()
    }

    /// Herramienta y propiedades iguales a las de `otro`.
    pub open spec fn mismas_propiedades(&self, otro: EstadoDibujo) -> bool {
        &&& self.tool == otro.tool
        &&& self.color == otro.color
        &&& self.grosor == otro.grosor
        &&& self.tamano == otro.tamano
        &&& self.negrita == otro.negrita
        &&& self.tiene_fuente == otro.tiene_fuente
    }

    /// Estado al abrir la ventana: rectángulo rojo de 3 px, texto de 20
    /// sin negrita.
    pub fn nuevo(tiene_fuente: bool) -> (e: Self)
        ensures
            e.tool == Tool::Rect,
            e.color == (Color { r: 255, g: 0, b: 0, a: 255 }),
            e.grosor == 3,
            e.tamano == 20,
            !e.negrita,
            e.tiene_fuente == tiene_fuente,
            e.arrastre is None,
            e.bien_formado(),
    {
        EstadoDibujo {
            tool: Tool::Rect,
            color: Color::rgb(255, 0, 0),
            grosor: 3,
            tamano: 20,
            negrita: false,
            tiene_fuente,
            arrastre: None,
        }
    }

    /// Aplica un comando: los de propiedades cambian el estado; el resto
    /// pasa a la ventana.
    pub fn comando(&mut self, a: AccionDibujo) -> (ef: EfectoDibujo)
        requires
            old(self).bien_formado(),
        ensures
            final(self).bien_formado(),
            final(self).tiene_fuente == old(self).tiene_fuente,
            final(self).arrastre == old(self).arrastre,
            final(self).tool == (match a {
                AccionDibujo::Herramienta(t) => t,
                _ => old(self).tool,
            }),
            final(self).color == (match a {
                AccionDibujo::Color(c) => c,
                _ => old(self).color,
            }),
            final(self).grosor == (match a {
                AccionDibujo::Grosor(g) => g,
                _ => old(self).grosor,
            }),
            final(self).tamano == (match a {
                AccionDibujo::Tamano(t) => t,
                _ => old(self).tamano,
            }),
            final(self).negrita == (if a == AccionDibujo::Negrita {
                !old(self).negrita
            } else {
                old(self).negrita
            }),
            ef == match a {
                AccionDibujo::Herramienta(t) => EfectoDibujo::ControlesDeTexto(
                    t == Tool::Text && old(self).tiene_fuente,
                ),
                AccionDibujo::MasColor => EfectoDibujo::PedirColor,
                AccionDibujo::Deshacer => EfectoDibujo::Deshacer,
                AccionDibujo::Rehacer => EfectoDibujo::Rehacer,
                AccionDibujo::Aceptar => EfectoDibujo::Aceptar,
                AccionDibujo::Cancelar => EfectoDibujo::Cancelar,
                _ => EfectoDibujo::Nada,
            },
    {
        match a {
            AccionDibujo::Herramienta(t) => {
                self.tool = t;
                EfectoDibujo::ControlesDeTexto(controles_de_texto_activos(t, self.tiene_fuente))
            },
            AccionDibujo::Color(c) => {
                self.color = c;
                EfectoDibujo::Nada
            },
            AccionDibujo::Grosor(g) => {
                self.grosor = g;
                EfectoDibujo::Nada
            },
            AccionDibujo::Tamano(t) => {
                self.tamano = t;
                EfectoDibujo::Nada
            },
            AccionDibujo::Negrita => {
                self.negrita = !self.negrita;
                EfectoDibujo::Nada
            },
            AccionDibujo::MasColor => EfectoDibujo::PedirColor,
            AccionDibujo::Deshacer => EfectoDibujo::Deshacer,
            AccionDibujo::Rehacer => EfectoDibujo::Rehacer,
            AccionDibujo::Aceptar => EfectoDibujo::Aceptar,
            AccionDibujo::Cancelar => EfectoDibujo::Cancelar,
            AccionDibujo::Nada => EfectoDibujo::Nada,
        }
    }

    /// Botón pulsado en el píxel `pf` del frame (`None` fuera de la
    /// imagen).
    pub fn pulsar(&mut self, pf: Option<(i32, i32)>) -> (ef: EfectoClic)
        requires
            old(self).bien_formado(),
            pf matches Some(p) ==> en_frame(p),
        ensures
            final(self).bien_formado(),
            final(self).mismas_propiedades(*old(self)),
            match pf {
                None => ef == EfectoClic::Nada && final(self).arrastre == old(self).arrastre,
                Some(p) => if old(self).tool == Tool::Text {
                    ef == EfectoClic::AbrirTexto(p) && final(self).arrastre == old(self).arrastre
                } else {
                    &&& ef == EfectoClic::Capturar
                    &&& final(self).arrastre matches Some(a)
                    &&& a.start == p && a.current == p && a.points@ == seq![p]
                },
            },
    {
        match pf {
            None => EfectoClic::Nada,
            Some(p) => if self.tool == Tool::Text {
                EfectoClic::AbrirTexto(p)
            } else {
                self.arrastre = Some(Arrastre::empezar(p));
                EfectoClic::Capturar
            },
        }
    }

    /// El ratón se movió al píxel `pf`; `true` si hay que repintar.
    pub fn mover(&mut self, pf: Option<(i32, i32)>) -> (repintar: bool)
        requires
            old(self).bien_formado(),
            pf matches Some(p) ==> en_frame(p),
        ensures
            final(self).bien_formado(),
            final(self).mismas_propiedades(*old(self)),
            repintar == (old(self).arrastre is Some && pf is Some),
            match (old(self).arrastre, pf) {
                (Some(a), Some(p)) => final(self).arrastre matches Some(b) && b.start == a.start
                    && b.current == p && b.points@ == (if old(self).tool == Tool::Pen {
                    a.points@.push(p)
                } else {
                    a.points@
                }),
                _ => final(self).arrastre == old(self).arrastre,
            },
    {
        match pf {
            Some(p) => match self.arrastre.take() {
                Some(mut a) => {
                    a.mover(p, self.tool);
                    self.arrastre = Some(a);
                    true
                },
                None => false,
            },
            None => false,
        }
    }

    /// Botón soltado: termina el arrastre y da la anotación que deja
    /// (ninguna con Texto); `None` si no había arrastre.
    pub fn soltar(&mut self) -> (r: Option<Option<Forma>>)
        requires
            old(self).bien_formado(),
        ensures
            final(self).bien_formado(),
            final(self).arrastre is None,
            final(self).mismas_propiedades(*old(self)),
            match old(self).arrastre {
                None => r is None,
                Some(a) => r matches Some(f) && forma_ok(
                    f,
                    old(self).tool,
                    a.start,
                    a.current,
                    a.points@,
                    old(self).color,
                    old(self).grosor,
                ),
            },
    {
        match self.arrastre.take() {
            None => None,
            Some(a) => Some(forma_en_curso(self.tool, &a, self.color, self.grosor)),
        }
    }
}

/// Cómo acaba la ventana de dibujo.
#[derive(Clone, Copy, PartialEq, Eq, Debug, Structural)]
pub enum Desenlace {
    /// OK: se devuelve el frame con las anotaciones.
    Aceptado,
    /// Cancelada o cerrada: no se devuelve nada.
    Descartado,
}

/// Cierre de la ventana de dibujo: el bucle de mensajes sigue mientras no
/// haya desenlace.
pub struct Cierre {
    pub desenlace: Option<Desenlace>,
}

impl Cierre {
    /// Ventana recién abierta: sin desenlace.
    pub fn nuevo() -> (c: Self)
        ensures
            c.desenlace is None,
    {
        Cierre { desenlace: None }
    }

    /// OK: queda aceptado y la ventana se destruye.
    pub fn aceptar(&mut self)
        ensures
            final(self).desenlace == Some(Desenlace::Aceptado),
    {
        self.desenlace = Some(Desenlace::Aceptado);
    }

    /// Cancelar o cerrar la ventana: sin anotaciones se descarta sin
    /// preguntar; con anotaciones, solo si el usuario confirma
    /// (`confirmado`, su respuesta a «¿Descartar las anotaciones?»). Dice
    /// si hay que destruir la ventana; si no, nada cambia.
    pub fn cancelar(&mut self, sin_anotaciones: bool, confirmado: bool) -> (destruir: bool)
        ensures
            destruir == (sin_anotaciones || confirmado),
            destruir ==> final(self).desenlace == Some(Desenlace::Descartado),
            !destruir ==> final(self).desenlace == old(self).desenlace,
    {
        let descartar = sin_anotaciones || confirmado;
        if descartar {
            self.desenlace = Some(Desenlace::Descartado);
        }
        descartar
    }

    /// La ventana se destruyó: lo aceptado sigue aceptado; si aún no había
    /// desenlace, queda descartada.
    pub fn destruida(&mut self)
        ensures
            final(self).desenlace == Some(
                match old(self).desenlace {
                    Some(d) => d,
                    None => Desenlace::Descartado,
                },
            ),
    {
        if self.desenlace.is_none() {
            self.desenlace = Some(Desenlace::Descartado);
        }
    }

    /// El bucle de mensajes sigue mientras no haya desenlace.
    pub fn en_curso(&self) -> (r: bool)
        ensures
            r == self.desenlace is None,
    {
        self.desenlace.is_none()
    }

    /// Se devuelve el frame con las anotaciones solo si se cerró con OK.
    pub fn devuelve_frame(&self) -> (r: bool)
        ensures
            r == (self.desenlace == Some(Desenlace::Aceptado)),
    {
        match self.desenlace {
            Some(Desenlace::Aceptado) => true,
            _ => false,
        }
    }
}

} // verus!
