//! La selección interactiva de región como máquina de estados: qué hace
//! cada pulsación, movimiento, suelta o Esc, qué zonas hay que repintar
//! y qué región sale al final. También la caja de la lupa, el píxel bajo
//! el cursor y las dos líneas de texto que la acompañan. Las ventanas,
//! la captura del ratón y el pintado los hace quien use esta biblioteca.

use vstd::prelude::*;
use crate::aritmetica::{acotado, acotar, cociente, maximo};
use crate::dpi::Escala;
use crate::geometria::{Rect, Zona};
use crate::overlay::{
    caja_lupa, hex_de_bgra, hex_spec, lupa_box_pos, rect_between, rect_entre, LUPA_CELDA,
    LUPA_INFO_H, LUPA_OFFSET, LUPA_SRC,
};
use crate::texto::{anadir, cadena, caracteres, decimal, entero, escribir_decimal, escribir_entero};

verus! {

/// Coordenada de 16 bits con signo: lo que cabe en el `lparam` de un
/// mensaje de ratón.
pub open spec fn en_i16(v: i32) -> bool {
    -32768 <= v <= 32767
}

pub open spec fn punto_i16(p: (i32, i32)) -> bool {
    en_i16(p.0) && en_i16(p.1)
}

/// Estado del overlay mientras el usuario elige (coordenadas locales).
#[derive(Clone, Copy, Debug)]
pub struct Seleccion {
    /// Punto donde empezó el arrastre, si lo hay.
    pub drag_start: Option<(i32, i32)>,
    pub cursor: (i32, i32),
    /// `None` = en curso; `Some(None)` = cancelado; `Some(Some(r))` =
    /// región elegida.
    pub outcome: Option<Option<Rect>>,
    /// Última caja de lupa pintada.
    pub zona_lupa_previa: Option<Zona>,
    /// Última selección pintada.
    pub sel_previa: Option<Rect>,
}

/// Lo que llega del sistema.
pub enum EventoSeleccion {
    /// Botón izquierdo pulsado en un punto.
    Pulsar((i32, i32)),
    /// El ratón se movió; lleva la caja de lupa para el cursor nuevo.
    Mover((i32, i32), Zona),
    /// Botón izquierdo soltado.
    Soltar((i32, i32)),
    /// Tecla Esc.
    Escape,
}

/// Lo que hay que hacer con la ventana tras un evento.
#[derive(PartialEq, Eq, Debug)]
pub enum AccionSeleccion {
    Nada,
    /// Capturar el ratón y repintar entero.
    Capturar,
    /// Repintar solo estas zonas.
    Invalidar(Vec<Zona>),
    /// Cerrar el overlay (soltando antes la captura del ratón si se pide).
    Terminar { liberar_captura: bool },
}

/// Zona que cubre una selección y el marco de 1 px pintado alrededor.
pub open spec fn zona_de_seleccion_spec(s: Rect) -> Zona {
    Zona {
        left: (s.x - 2) as i32,
        top: (s.y - 2) as i32,
        right: (s.x + s.width + 2) as i32,
        bottom: (s.y + s.height + 2) as i32,
    }
}

/// Rect de selección de 16 bits: origen y lados como los que salen de dos
/// puntos de ratón.
pub open spec fn sel_i16(s: Rect) -> bool {
    en_i16(s.x) && en_i16(s.y) && s.width <= 65536 && s.height <= 65536
}

/// Zonas a repintar tras un movimiento: las cajas de lupa vieja y nueva y
/// las selecciones vieja y nueva, cada una solo si existe.
pub open spec fn zonas_a_repintar(
    lupa_previa: Option<Zona>,
    lupa: Zona,
    sel_previa: Option<Rect>,
    sel: Option<Rect>,
) -> Seq<Zona> {
    let a = match lupa_previa {
        Some(z) => seq![z],
        None => Seq::empty(),
    };
    let b = match sel_previa {
        Some(s) => seq![zona_de_seleccion_spec(s)],
        None => Seq::empty(),
    };
    let c = match sel {
        Some(s) => seq![zona_de_seleccion_spec(s)],
        None => Seq::empty(),
    };
    a + seq![lupa] + b + c
}

/// Selección en curso: la que va del inicio del arrastre al cursor.
pub open spec fn seleccion_en_curso(s: Seleccion) -> Option<Rect> {
    match s.drag_start {
        Some(d) => Some(rect_entre(d, s.cursor)),
        None => None,
    }
}

impl Seleccion {
    /// Puntos de ratón de 16 bits en todo el estado.
    pub open spec fn bien_formada(self) -> bool {
        &&& punto_i16(self.cursor)
        &&& (self.drag_start matches Some(d) ==> punto_i16(d))
        &&& (self.sel_previa matches Some(s) ==> sel_i16(s))
    }

    /// Estado inicial: sin arrastre y sin resultado.
    pub fn nueva() -> (s: Self)
        ensures
            s == (Seleccion {
                drag_start: None,
                cursor: (0, 0),
                outcome: None,
                zona_lupa_previa: None,
                sel_previa: None,
            }),
            s.bien_formada(),
    {
        Seleccion {
            drag_start: None,
            cursor: (0, 0),
            outcome: None,
            zona_lupa_previa: None,
            sel_previa: None,
        }
    }

    /// Aplica un evento y dice qué hacer con la ventana.
    pub fn paso(&mut self, evento: EventoSeleccion) -> (a: AccionSeleccion)
        requires
            old(self).bien_formada(),
            match evento {
                EventoSeleccion::Pulsar(p) => punto_i16(p),
                EventoSeleccion::Mover(p, _) => punto_i16(p),
                EventoSeleccion::Soltar(p) => punto_i16(p),
                EventoSeleccion::Escape => true,
            },
        ensures
            final(self).bien_formada(),
            match evento {
                EventoSeleccion::Pulsar(p) => {
                    &&& *final(self) == (Seleccion {
                        drag_start: Some(p),
                        cursor: p,
                        ..*old(self)
                    })
                    &&& a == AccionSeleccion::Capturar
                },
                EventoSeleccion::Mover(p, lupa) => {
                    let nuevo = Seleccion { cursor: p, ..*old(self) };
                    &&& *final(self) == (Seleccion {
                        zona_lupa_previa: Some(lupa),
                        sel_previa: seleccion_en_curso(nuevo),
                        ..nuevo
                    })
                    &&& a matches AccionSeleccion::Invalidar(zonas)
                    &&& zonas@ == zonas_a_repintar(
                        old(self).zona_lupa_previa,
                        lupa,
                        old(self).sel_previa,
                        seleccion_en_curso(nuevo),
                    )
                },
                EventoSeleccion::Soltar(p) => match old(self).drag_start {
                    Some(d) => {
                        &&& *final(self) == (Seleccion {
                            outcome: Some(Some(rect_entre(d, p))),
                            ..*old(self)
                        })
                        &&& a == AccionSeleccion::Terminar { liberar_captura: true }
                    },
                    None => *final(self) == *old(self) && a == AccionSeleccion::Nada,
                },
                EventoSeleccion::Escape => {
                    &&& *final(self) == (Seleccion { outcome: Some(None), ..*old(self) })
                    &&& a == AccionSeleccion::Terminar { liberar_captura: false }
                },
            },
    {
        match evento {
            EventoSeleccion::Pulsar(p) => {
                self.drag_start = Some(p);
                self.cursor = p;
                AccionSeleccion::Capturar
            },
            EventoSeleccion::Mover(p, lupa) => {
                let lupa_previa = self.zona_lupa_previa;
                let sel_previa = self.sel_previa;
                self.cursor = p;
                let sel = match self.drag_start {
                    Some(d) => Some(rect_between(d, p)),
                    None => None,
                };
                let mut zonas: Vec<Zona> = Vec::new();
                match lupa_previa {
                    Some(z) => zonas.push(z),
                    None => {},
                }
                zonas.push(lupa);
                match sel_previa {
                    Some(s) => zonas.push(zona_de_seleccion(s)),
                    None => {},
                }
                match sel {
                    Some(s) => zonas.push(zona_de_seleccion(s)),
                    None => {},
                }
                self.zona_lupa_previa = Some(lupa);
                self.sel_previa = sel;
                assert(zonas@ =~= zonas_a_repintar(
                    lupa_previa,
                    lupa,
                    sel_previa,
                    seleccion_en_curso(*self),
                ));
                AccionSeleccion::Invalidar(zonas)
            },
            EventoSeleccion::Soltar(p) => match self.drag_start {
                Some(d) => {
                    self.outcome = Some(Some(rect_between(d, p)));
                    AccionSeleccion::Terminar { liberar_captura: true }
                },
                None => AccionSeleccion::Nada,
            },
            EventoSeleccion::Escape => {
                self.outcome = Some(None);
                AccionSeleccion::Terminar { liberar_captura: false }
            },
        }
    }

    /// La región elegida en coordenadas de escritorio (`origen` es la
    /// esquina del escritorio virtual); `None` si se canceló o sigue en
    /// curso.
    pub fn resultado(&self, origen: (i32, i32)) -> (r: Option<Rect>)
        requires
            self.outcome matches Some(Some(l)) ==> i32::MIN <= l.x + origen.0 <= i32::MAX
                && i32::MIN <= l.y + origen.1 <= i32::MAX,
        ensures
            r == match self.outcome {
                Some(Some(l)) => Some(
                    Rect {
                        x: (l.x + origen.0) as i32,
                        y: (l.y + origen.1) as i32,
                        width: l.width,
                        height: l.height,
                    },
                ),
                _ => None,
            },
    {
        match self.outcome {
            Some(Some(l)) => Some(Rect::new(l.x + origen.0, l.y + origen.1, l.width, l.height)),
            _ => None,
        }
    }
}

/// Zona que cubre una selección y su marco (2 px alrededor).
pub fn zona_de_seleccion(s: Rect) -> (z: Zona)
    requires
        sel_i16(s),
    ensures
        z == zona_de_seleccion_spec(s),
{
    Zona {
        left: s.x - 2,
        top: s.y - 2,
        right: s.x + s.width as i32 + 2,
        bottom: s.y + s.height as i32 + 2,
    }
}

/// `Escala::px` tal como lo da en 32 bits.
pub open spec fn px32(e: Escala, logico: int) -> int {
    (e.px_spec(logico) as i32) as int
}

/// Lado de cada celda del zoom: nunca menos de un píxel.
pub open spec fn celda_lupa(e: Escala) -> int {
    maximo(px32(e, LUPA_CELDA as int), 1)
}

/// Caja de la lupa para el cursor: rejilla de zoom de `LUPA_SRC` celdas de
/// lado y, debajo, el bloque de información.
pub open spec fn zona_lupa_spec(monitor: Rect, cursor: (i32, i32), e: Escala) -> Zona {
    let zoom = LUPA_SRC * celda_lupa(e);
    let info = px32(e, LUPA_INFO_H as int);
    let esquina = caja_lupa(
        monitor,
        cursor,
        (zoom as i32, (zoom + info) as i32),
        px32(e, LUPA_OFFSET as int) as i32,
    );
    Zona {
        left: esquina.0 as i32,
        top: esquina.1 as i32,
        right: (esquina.0 + zoom) as i32,
        bottom: (esquina.1 + zoom + info) as i32,
    }
}

/// Las cuentas de 32 bits de `zona_lupa` no desbordan.
pub open spec fn zona_lupa_sin_desborde(monitor: Rect, cursor: (i32, i32), e: Escala) -> bool {
    let zoom = LUPA_SRC * celda_lupa(e);
    let info = px32(e, LUPA_INFO_H as int);
    let off = px32(e, LUPA_OFFSET as int);
    &&& zoom <= i32::MAX
    &&& i32::MIN <= zoom + info <= i32::MAX
    &&& i32::MIN <= cursor.0 + off <= i32::MAX
    &&& i32::MIN <= cursor.0 + off + zoom <= i32::MAX
    &&& i32::MIN <= cursor.0 - off <= i32::MAX
    &&& i32::MIN <= cursor.0 - off - zoom <= i32::MAX
    &&& i32::MIN <= cursor.1 + off <= i32::MAX
    &&& i32::MIN <= cursor.1 + off + zoom + info <= i32::MAX
    &&& i32::MIN <= cursor.1 - off <= i32::MAX
    &&& i32::MIN <= cursor.1 - off - zoom - info <= i32::MAX
    &&& caja_lupa(monitor, cursor, (zoom as i32, (zoom + info) as i32), off as i32).0 + zoom
        <= i32::MAX
    &&& caja_lupa(monitor, cursor, (zoom as i32, (zoom + info) as i32), off as i32).1 + zoom
        + info <= i32::MAX
}

/// Caja de la lupa (px físicos, coordenadas locales) para el cursor.
pub fn zona_lupa(monitor: Rect, cursor: (i32, i32), escala: Escala) -> (z: Zona)
    requires
        zona_lupa_sin_desborde(monitor, cursor, escala),
    ensures
        z == zona_lupa_spec(monitor, cursor, escala),
{
    let c = escala.px(LUPA_CELDA);
    let celda = if c > 1 {
        c
    } else {
        1
    };
    let zoom = LUPA_SRC * celda;
    let info = escala.px(LUPA_INFO_H);
    let off = escala.px(LUPA_OFFSET);
    let (bx, by) = lupa_box_pos(monitor, cursor, (zoom, zoom + info), off);
    Zona { left: bx, top: by, right: bx + zoom, bottom: by + zoom + info }
}

/// BGR del píxel bajo el cursor (acotado al frame) en un buffer BGRA de
/// `ancho × alto`; negro si el buffer no llega hasta él.
pub open spec fn pixel_spec(bits: Seq<u8>, cursor: (i32, i32), ancho: i32, alto: i32) -> (
    u8,
    u8,
    u8,
) {
    let x = acotado(cursor.0 as int, 0, ancho - 1);
    let y = acotado(cursor.1 as int, 0, alto - 1);
    let i = (y * ancho + x) * 4;
    if i + 3 <= bits.len() {
        (bits[i], bits[i + 1], bits[i + 2])
    } else {
        (0, 0, 0)
    }
}

/// BGR del píxel del frame congelado bajo el cursor.
pub fn pixel_bajo_el_cursor(bits: &[u8], cursor: (i32, i32), ancho: i32, alto: i32) -> (r: (
    u8,
    u8,
    u8,
))
    requires
        ancho >= 1,
        alto >= 1,
        ancho * alto * 4 <= usize::MAX,
    ensures
        r == pixel_spec(bits@, cursor, ancho, alto),
{
    let x = acotar(cursor.0, 0, ancho - 1);
    let y = acotar(cursor.1, 0, alto - 1);
    assert((y * ancho + x) * 4 < ancho * alto * 4) by (nonlinear_arith)
        requires
            0 <= y < alto,
            0 <= x < ancho,
    ;
    let i = (y as usize * ancho as usize + x as usize) * 4;
    if i + 3 <= bits.len() {
        (bits[i], bits[i + 1], bits[i + 2])
    } else {
        (0, 0, 0)
    }
}

/// Monitor bajo el cursor en coordenadas locales: los bordes que dio el
/// sistema menos el origen del escritorio o, si no dio ninguno, todo el
/// overlay.
pub open spec fn monitor_local_spec(bordes: Option<Zona>, origen: (i32, i32), ancho: i32, alto: i32) -> Rect {
    match bordes {
        Some(z) => Rect {
            x: (z.left - origen.0) as i32,
            y: (z.top - origen.1) as i32,
            width: maximo(z.right - z.left, 0) as u32,
            height: maximo(z.bottom - z.top, 0) as u32,
        },
        None => Rect { x: 0, y: 0, width: ancho as u32, height: alto as u32 },
    }
}

pub fn monitor_local(bordes: Option<Zona>, origen: (i32, i32), ancho: i32, alto: i32) -> (r: Rect)
    requires
        bordes matches Some(z) ==> {
            &&& i32::MIN <= z.left - origen.0 <= i32::MAX
            &&& i32::MIN <= z.top - origen.1 <= i32::MAX
            &&& i32::MIN <= z.right - z.left <= i32::MAX
            &&& i32::MIN <= z.bottom - z.top <= i32::MAX
        },
    ensures
        r == monitor_local_spec(bordes, origen, ancho, alto),
{
    match bordes {
        Some(z) => {
            let w = z.right - z.left;
            let h = z.bottom - z.top;
            Rect::new(
                z.left - origen.0,
                z.top - origen.1,
                if w > 0 {
                    w as u32
                } else {
                    0
                },
                if h > 0 {
                    h as u32
                } else {
                    0
                },
            )
        },
        None => Rect::new(0, 0, ancho as u32, alto as u32),
    }
}

/// Primera línea de la lupa: `#RRGGBB · X, Y` con las coordenadas de
/// escritorio del cursor.
pub open spec fn linea_color(b: u8, g: u8, r: u8, x: int, y: int) -> Seq<char> {
    hex_spec(b, g, r) + " · "@ + entero(x) + ", "@ + entero(y)
}

/// Segunda línea: `sel W × H` durante el arrastre; vacía si no hay.
pub open spec fn linea_seleccion(sel: Option<Rect>) -> Seq<char> {
    match sel {
        Some(s) => "sel "@ + decimal(s.width as nat) + " × "@ + decimal(s.height as nat),
        None => Seq::empty(),
    }
}

/// Las dos líneas de información de la lupa.
pub fn lineas_lupa(
    b: u8,
    g: u8,
    r: u8,
    cursor: (i32, i32),
    origen: (i32, i32),
    sel: Option<Rect>,
) -> (l: (String, String))
    ensures
        l.0@ == linea_color(b, g, r, cursor.0 + origen.0, cursor.1 + origen.1),
        l.1@ == linea_seleccion(sel),
{
    let mut v = caracteres(hex_de_bgra(b, g, r).as_str());
    anadir(&mut v, &caracteres(" · "));
    escribir_entero(&mut v, cursor.0 as i64 + origen.0 as i64);
    anadir(&mut v, &caracteres(", "));
    escribir_entero(&mut v, cursor.1 as i64 + origen.1 as i64);
    let mut w: Vec<char> = Vec::new();
    match sel {
        Some(s) => {
            anadir(&mut w, &caracteres("sel "));
            escribir_decimal(&mut w, s.width as u64);
            anadir(&mut w, &caracteres(" × "));
            escribir_decimal(&mut w, s.height as u64);
        },
        None => {},
    }
    (cadena(&v), cadena(&w))
}

/// Margen LÓGICO del texto dentro del bloque de información.
pub const LUPA_MARGEN: i32 = 6;

/// Cuatro bordes (izquierda, arriba, derecha, abajo) sobre enteros.
pub type Bordes = (int, int, int, int);

/// Los cuatro bordes caben en 32 bits con signo.
pub open spec fn bordes_i32(b: Bordes) -> bool {
    &&& i32::MIN <= b.0 <= i32::MAX
    &&& i32::MIN <= b.1 <= i32::MAX
    &&& i32::MIN <= b.2 <= i32::MAX
    &&& i32::MIN <= b.3 <= i32::MAX
}

/// La zona con esos bordes.
pub open spec fn zona_de_bordes(b: Bordes) -> Zona {
    Zona { left: b.0 as i32, top: b.1 as i32, right: b.2 as i32, bottom: b.3 as i32 }
}

/// Recuadro del píxel del cursor dentro del zoom, agrandado `inflado`
/// píxeles por cada lado: la celda del cursor empieza en la caja más su
/// distancia a la esquina de la fuente, en celdas.
pub open spec fn recuadro_cursor(
    caja: Zona,
    cursor: (i32, i32),
    fuente: (i32, i32),
    celda: int,
    inflado: int,
) -> Bordes {
    let px = caja.left + (cursor.0 - fuente.0) * celda;
    let py = caja.top + (cursor.1 - fuente.1) * celda;
    (px - inflado, py - inflado, px + celda + inflado, py + celda + inflado)
}

/// Bloque de información: bajo la rejilla de zoom, hasta el fondo de la
/// caja.
pub open spec fn bloque_info(caja: Zona, celda: int) -> Bordes {
    (caja.left as int, caja.top + LUPA_SRC * celda, caja.right as int, caja.bottom as int)
}

/// Alto de cada línea de texto: la mitad del bloque de información.
pub open spec fn alto_linea(caja: Zona, celda: int) -> int {
    cociente(caja.bottom - (caja.top + LUPA_SRC * celda), 2)
}

/// Rectángulo de la línea `i` (0 o 1) del texto: el bloque con el margen
/// a los lados, medio margen arriba y una línea de alto por cada línea
/// anterior.
pub open spec fn linea_info(caja: Zona, celda: int, margen: int, i: int) -> Bordes {
    let info = bloque_info(caja, celda);
    (info.0 + margen, info.1 + cociente(margen, 2) + i * alto_linea(caja, celda), info.2 - margen, info.3)
}

/// Dónde se pinta cada parte de la lupa dentro de su caja.
pub struct DibujoLupa {
    /// Marco exterior del píxel del cursor (el recuadro es de 2 px).
    pub recuadro_exterior: Zona,
    /// Marco interior: la celda del cursor.
    pub recuadro_interior: Zona,
    /// Bloque de información bajo el zoom.
    pub info: Zona,
    /// Rectángulos de las dos líneas de texto.
    pub lineas: (Zona, Zona),
}

/// Las cuentas de `dibujo_lupa` caben en 32 bits con signo.
pub open spec fn dibujo_lupa_cabe(caja: Zona, cursor: (i32, i32), fuente: (i32, i32), e: Escala) -> bool {
    let celda = celda_lupa(e);
    let margen = px32(e, LUPA_MARGEN as int);
    &&& LUPA_SRC * celda <= i32::MAX
    &&& bordes_i32(recuadro_cursor(caja, cursor, fuente, celda, 1))
    &&& bordes_i32(bloque_info(caja, celda))
    &&& i32::MIN <= caja.bottom - (caja.top + LUPA_SRC * celda) <= i32::MAX
    &&& i32::MIN <= caja.top + LUPA_SRC * celda + cociente(margen, 2) <= i32::MAX
    &&& bordes_i32(linea_info(caja, celda, margen, 0))
    &&& bordes_i32(linea_info(caja, celda, margen, 1))
}

/// Dónde van el recuadro del píxel del cursor, el bloque de información y
/// sus dos líneas dentro de la `caja` de la lupa, cuya rejilla muestra la
/// `fuente` (esquina del área del frame ampliada).
pub fn dibujo_lupa(caja: Zona, cursor: (i32, i32), fuente: (i32, i32), escala: Escala) -> (d: DibujoLupa)
    requires
        dibujo_lupa_cabe(caja, cursor, fuente, escala),
    ensures
        ({
            let celda = celda_lupa(escala);
            let margen = px32(escala, LUPA_MARGEN as int);
            &&& d.recuadro_exterior == zona_de_bordes(recuadro_cursor(caja, cursor, fuente, celda, 1))
            &&& d.recuadro_interior == zona_de_bordes(recuadro_cursor(caja, cursor, fuente, celda, 0))
            &&& d.info == zona_de_bordes(bloque_info(caja, celda))
            &&& d.lineas.0 == zona_de_bordes(linea_info(caja, celda, margen, 0))
            &&& d.lineas.1 == zona_de_bordes(linea_info(caja, celda, margen, 1))
        }),
{
    let c = escala.px(LUPA_CELDA);
    let celda = if c > 1 {
        c
    } else {
        1
    };
    let margen = escala.px(LUPA_MARGEN);
    let zoom = LUPA_SRC * celda;
    let px = caja.left as i64 + (cursor.0 as i64 - fuente.0 as i64) * (celda as i64);
    let py = caja.top as i64 + (cursor.1 as i64 - fuente.1 as i64) * (celda as i64);
    let exterior = Zona {
        left: (px - 1) as i32,
        top: (py - 1) as i32,
        right: (px + celda as i64 + 1) as i32,
        bottom: (py + celda as i64 + 1) as i32,
    };
    let interior = Zona {
        left: px as i32,
        top: py as i32,
        right: (px + celda as i64) as i32,
        bottom: (py + celda as i64) as i32,
    };
    let info = Zona { left: caja.left, top: caja.top + zoom, right: caja.right, bottom: caja.bottom };
    let alto = (info.bottom - info.top) / 2;
    assert(alto == cociente(caja.bottom - (caja.top + LUPA_SRC * celda), 2)) by {
        let d = info.bottom - info.top;
        if d < 0 {
            assert(alto == -((-d) / 2));
        }
    }
    let medio = margen / 2;
    assert(medio == cociente(margen as int, 2)) by {
        if margen < 0 {
            assert(medio == -((-margen) / 2));
        }
    }
    let arriba = info.top as i64 + medio as i64;
    let linea1 = Zona {
        left: (info.left as i64 + margen as i64) as i32,
        top: arriba as i32,
        right: (info.right as i64 - margen as i64) as i32,
        bottom: info.bottom,
    };
    let linea2 = Zona {
        left: (info.left as i64 + margen as i64) as i32,
        top: (arriba + alto as i64) as i32,
        right: (info.right as i64 - margen as i64) as i32,
        bottom: info.bottom,
    };
    DibujoLupa { recuadro_exterior: exterior, recuadro_interior: interior, info, lineas: (linea1, linea2) }
}

} // verus!
