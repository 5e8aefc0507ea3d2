//! Geometría y composición del editor: herramientas y su toolbar, el
//! reparto vertical de franjas, el encaje de la captura en el lienzo y el
//! paso entre coordenadas de la vista y píxeles del frame.

use vstd::prelude::*;
use crate::aritmetica::{acotado, acotar, cociente, maximo, minimo};
use crate::botonera::{boton, boton_spec, Elemento};
use crate::geometria::Rect;
use crate::iconos::Icono;

verus! {

/// Alto LÓGICO de la toolbar (botón 28 + rejilla 4 arriba/abajo).
pub const TOOLBAR_LOGICO: i32 = 36;
/// Alto LÓGICO de la barra de propiedades contextual.
pub const PROPS_LOGICO: i32 = 26;
/// Alto LÓGICO de la barra de estado.
pub const STATUS_LOGICO: i32 = 24;

/// Herramientas del editor. Las siete de dibujo tienen lógica viva; la
/// selección y la goma operan sobre objetos existentes, y pasos y
/// pixelado llevan sus propiedades.
#[derive(Clone, Copy, PartialEq, Eq, Debug, Structural)]
pub enum Herramienta {
    Seleccion,
    Texto,
    Flecha,
    Linea,
    Rect,
    Elipse,
    Lapiz,
    Resaltador,
    Pasos,
    Pixelado,
    Goma,
}

pub const ID_GUARDAR: u16 = 3001;
pub const ID_COPIAR: u16 = 3002;
pub const ID_DRAW: u16 = 3003;
pub const ID_SELECT: u16 = 3010;
pub const ID_TEXTO: u16 = 3011;
pub const ID_FLECHA: u16 = 3012;
pub const ID_LINEA: u16 = 3013;
pub const ID_RECT: u16 = 3014;
pub const ID_ELIPSE: u16 = 3015;
pub const ID_RESALTADOR: u16 = 3016;
pub const ID_PASOS: u16 = 3017;
pub const ID_LEYENDA: u16 = 3018;
pub const ID_PIXELADO: u16 = 3019;
pub const ID_GOMA: u16 = 3020;
pub const ID_CROP: u16 = 3021;
pub const ID_RESIZE: u16 = 3022;
pub const ID_UNDO: u16 = 3023;
pub const ID_REDO: u16 = 3024;
pub const ID_PRINT: u16 = 3025;
pub const ID_EMAIL: u16 = 3026;

/// Herramientas del motor de anotación que ya tienen lógica.
pub open spec fn es_herramienta_viva(h: Herramienta) -> bool {
    match h {
        Herramienta::Texto | Herramienta::Flecha | Herramienta::Linea | Herramienta::Rect
        | Herramienta::Elipse | Herramienta::Lapiz | Herramienta::Resaltador => true,
        _ => false,
    }
}

/// Botón de la toolbar de cada herramienta.
pub open spec fn id_spec(h: Herramienta) -> u16 {
    match h {
        Herramienta::Seleccion => ID_SELECT,
        Herramienta::Texto => ID_TEXTO,
        Herramienta::Flecha => ID_FLECHA,
        Herramienta::Linea => ID_LINEA,
        Herramienta::Rect => ID_RECT,
        Herramienta::Elipse => ID_ELIPSE,
        Herramienta::Lapiz => ID_DRAW,
        Herramienta::Resaltador => ID_RESALTADOR,
        Herramienta::Pasos => ID_PASOS,
        Herramienta::Pixelado => ID_PIXELADO,
        Herramienta::Goma => ID_GOMA,
    }
}

/// Herramienta viva de un botón; `None` si el id no es de una.
pub open spec fn herramienta_spec(id: u16) -> Option<Herramienta> {
    if id == ID_TEXTO {
        Some(Herramienta::Texto)
    } else if id == ID_FLECHA {
        Some(Herramienta::Flecha)
    } else if id == ID_LINEA {
        Some(Herramienta::Linea)
    } else if id == ID_RECT {
        Some(Herramienta::Rect)
    } else if id == ID_ELIPSE {
        Some(Herramienta::Elipse)
    } else if id == ID_DRAW {
        Some(Herramienta::Lapiz)
    } else if id == ID_RESALTADOR {
        Some(Herramienta::Resaltador)
    } else {
        None
    }
}

/// Botón de toolbar → herramienta (None = el id no es una herramienta
/// con lógica).
pub fn herramienta_de_id(id: u16) -> (r: Option<Herramienta>)
    ensures
        r == herramienta_spec(id),
{
    match id {
        ID_TEXTO => Some(Herramienta::Texto),
        ID_FLECHA => Some(Herramienta::Flecha),
        ID_LINEA => Some(Herramienta::Linea),
        ID_RECT => Some(Herramienta::Rect),
        ID_ELIPSE => Some(Herramienta::Elipse),
        ID_DRAW => Some(Herramienta::Lapiz),
        ID_RESALTADOR => Some(Herramienta::Resaltador),
        _ => None,
    }
}

/// Herramienta → su botón de la toolbar.
pub fn id_de_herramienta(h: Herramienta) -> (id: u16)
    ensures
        id == id_spec(h),
{
    match h {
        Herramienta::Seleccion => ID_SELECT,
        Herramienta::Texto => ID_TEXTO,
        Herramienta::Flecha => ID_FLECHA,
        Herramienta::Linea => ID_LINEA,
        Herramienta::Rect => ID_RECT,
        Herramienta::Elipse => ID_ELIPSE,
        Herramienta::Lapiz => ID_DRAW,
        Herramienta::Resaltador => ID_RESALTADOR,
        Herramienta::Pasos => ID_PASOS,
        Herramienta::Pixelado => ID_PIXELADO,
        Herramienta::Goma => ID_GOMA,
    }
}

/// Ida y vuelta entre herramienta y botón: cada herramienta viva vuelve
/// de su botón, y un botón que da herramienta es el botón de esa
/// herramienta.
pub proof fn ley_herramienta_y_boton_ida_y_vuelta(h: Herramienta, id: u16)
    ensures
        es_herramienta_viva(h) ==> herramienta_spec(id_spec(h)) == Some(h),
        !es_herramienta_viva(h) ==> herramienta_spec(id_spec(h)) is None,
        herramienta_spec(id) matches Some(g) ==> id_spec(g) == id && es_herramienta_viva(g),
{
}

/// Cada herramienta viva va con el botón que la nombra en la toolbar:
/// Texto 3011, Flecha 3012, Línea 3013, Rectángulo 3014, Elipse 3015,
/// Resaltador 3016 y Lápiz 3003, en las dos direcciones; ningún otro
/// botón elige herramienta. En la toolbar, cada uno de esos botones lleva
/// el rótulo y el icono de su herramienta.
pub proof fn ley_cada_herramienta_con_su_boton(id: u16)
    ensures
        herramienta_spec(3011) == Some(Herramienta::Texto),
        herramienta_spec(3012) == Some(Herramienta::Flecha),
        herramienta_spec(3013) == Some(Herramienta::Linea),
        herramienta_spec(3014) == Some(Herramienta::Rect),
        herramienta_spec(3015) == Some(Herramienta::Elipse),
        herramienta_spec(3016) == Some(Herramienta::Resaltador),
        herramienta_spec(3003) == Some(Herramienta::Lapiz),
        id_spec(Herramienta::Texto) == 3011,
        id_spec(Herramienta::Flecha) == 3012,
        id_spec(Herramienta::Linea) == 3013,
        id_spec(Herramienta::Rect) == 3014,
        id_spec(Herramienta::Elipse) == 3015,
        id_spec(Herramienta::Resaltador) == 3016,
        id_spec(Herramienta::Lapiz) == 3003,
        herramienta_spec(id) is Some ==> id == 3003 || 3011 <= id <= 3016,
        toolbar_spec()[1] == boton_spec(3011, Icono::AnnotateText, "Texto", true),
        toolbar_spec()[2] == boton_spec(3012, Icono::AnnotateArrow, "Flecha", true),
        toolbar_spec()[3] == boton_spec(3013, Icono::AnnotateLine, "Línea", true),
        toolbar_spec()[4] == boton_spec(3014, Icono::AnnotateShape, "Rectángulo", true),
        toolbar_spec()[5] == boton_spec(3015, Icono::AnnotateEllipse, "Elipse", true),
        toolbar_spec()[6] == boton_spec(3003, Icono::AnnotatePencil, "Lápiz", true),
        toolbar_spec()[7] == boton_spec(3016, Icono::AnnotateHighlight, "Resaltador", true),
{
}

/// Toolbar del editor en orden visual.
pub open spec fn toolbar_spec() -> Seq<Elemento> {
    seq![
        boton_spec(ID_SELECT, Icono::AnnotateSelect, "Selección", false),
        boton_spec(ID_TEXTO, Icono::AnnotateText, "Texto", true),
        boton_spec(ID_FLECHA, Icono::AnnotateArrow, "Flecha", true),
        boton_spec(ID_LINEA, Icono::AnnotateLine, "Línea", true),
        boton_spec(ID_RECT, Icono::AnnotateShape, "Rectángulo", true),
        boton_spec(ID_ELIPSE, Icono::AnnotateEllipse, "Elipse", true),
        boton_spec(ID_DRAW, Icono::AnnotatePencil, "Lápiz", true),
        boton_spec(ID_RESALTADOR, Icono::AnnotateHighlight, "Resaltador", true),
        boton_spec(ID_PASOS, Icono::AnnotateSteps, "Pasos numerados", false),
        boton_spec(ID_LEYENDA, Icono::AnnotateCaption, "Leyenda", false),
        boton_spec(ID_PIXELADO, Icono::AnnotatePixelate, "Pixelado", false),
        boton_spec(ID_GOMA, Icono::AnnotateEraser, "Goma", false),
        Elemento::Separador,
        boton_spec(ID_CROP, Icono::AnnotateCrop, "Recortar", false),
        boton_spec(ID_RESIZE, Icono::EditResize, "Redimensionar", false),
        Elemento::Separador,
        boton_spec(ID_UNDO, Icono::EditUndo, "Deshacer (Ctrl+Z)", true),
        boton_spec(ID_REDO, Icono::EditRedo, "Rehacer (Ctrl+Y)", true),
        Elemento::Muelle,
        boton_spec(ID_COPIAR, Icono::OutputCopy, "Copiar al portapapeles", true),
        boton_spec(ID_GUARDAR, Icono::OutputSaveAs, "Guardar como…", true),
        boton_spec(ID_PRINT, Icono::OutputPrint, "Imprimir", false),
        boton_spec(ID_EMAIL, Icono::OutputEmail, "Email", false),
    ]
}

/// Toolbar del editor: las herramientas del motor en vivo; pasos,
/// leyenda, pixelado, goma, crop y resize esperan su fase.
pub fn toolbar() -> (t: Vec<Elemento>)
    ensures
        t@ == toolbar_spec(),
{
    let mut t: Vec<Elemento> = Vec::new();
    t.push(boton(ID_SELECT, Icono::AnnotateSelect, "Selección", false));
    t.push(boton(ID_TEXTO, Icono::AnnotateText, "Texto", true));
    t.push(boton(ID_FLECHA, Icono::AnnotateArrow, "Flecha", true));
    t.push(boton(ID_LINEA, Icono::AnnotateLine, "Línea", true));
    t.push(boton(ID_RECT, Icono::AnnotateShape, "Rectángulo", true));
    t.push(boton(ID_ELIPSE, Icono::AnnotateEllipse, "Elipse", true));
    t.push(boton(ID_DRAW, Icono::AnnotatePencil, "Lápiz", true));
    t.push(boton(ID_RESALTADOR, Icono::AnnotateHighlight, "Resaltador", true));
    t.push(boton(ID_PASOS, Icono::AnnotateSteps, "Pasos numerados", false));
    t.push(boton(ID_LEYENDA, Icono::AnnotateCaption, "Leyenda", false));
    t.push(boton(ID_PIXELADO, Icono::AnnotatePixelate, "Pixelado", false));
    t.push(boton(ID_GOMA, Icono::AnnotateEraser, "Goma", false));
    t.push(Elemento::Separador);
    t.push(boton(ID_CROP, Icono::AnnotateCrop, "Recortar", false));
    t.push(boton(ID_RESIZE, Icono::EditResize, "Redimensionar", false));
    t.push(Elemento::Separador);
    t.push(boton(ID_UNDO, Icono::EditUndo, "Deshacer (Ctrl+Z)", true));
    t.push(boton(ID_REDO, Icono::EditRedo, "Rehacer (Ctrl+Y)", true));
    t.push(Elemento::Muelle);
    t.push(boton(ID_COPIAR, Icono::OutputCopy, "Copiar al portapapeles", true));
    t.push(boton(ID_GUARDAR, Icono::OutputSaveAs, "Guardar como…", true));
    t.push(boton(ID_PRINT, Icono::OutputPrint, "Imprimir", false));
    t.push(boton(ID_EMAIL, Icono::OutputEmail, "Email", false));
    assert(t@ =~= toolbar_spec());
    t
}

/// Franjas verticales del cliente: toolbar y propiedades arriba, status
/// abajo, canvas en medio.
#[derive(PartialEq, Eq, Debug, Structural)]
pub struct Reparto {
    pub toolbar_fin: i32,
    pub props_fin: i32,
    pub status_inicio: i32,
}

/// Reparto de un cliente de `alto_cliente` px entre las franjas.
pub open spec fn reparto_spec(alto_cliente: int, toolbar: int, props: int, status: int) -> (
    int,
    int,
    int,
) {
    let alto = maximo(alto_cliente, 0);
    let toolbar_fin = minimo(toolbar, alto);
    let props_fin = minimo(toolbar_fin + props, alto);
    let status_inicio = maximo(alto_cliente - status, props_fin);
    (toolbar_fin, props_fin, status_inicio)
}

/// Franjas del cliente. Con alturas de franja no negativas quedan
/// apiladas en orden y el canvas (entre propiedades y status) nunca tiene
/// alto negativo; las franjas de arriba no pasan del cliente.
pub fn reparto(alto_cliente: i32, toolbar: i32, props: i32, status: i32) -> (r: Reparto)
    requires
        i32::MIN <= toolbar + props <= i32::MAX,
        i32::MIN <= alto_cliente - status <= i32::MAX,
    ensures
        (r.toolbar_fin as int, r.props_fin as int, r.status_inicio as int) == reparto_spec(
            alto_cliente as int,
            toolbar as int,
            props as int,
            status as int,
        ),
        toolbar >= 0 && props >= 0 ==> 0 <= r.toolbar_fin <= r.props_fin <= r.status_inicio,
        r.props_fin <= maximo(alto_cliente as int, 0),
{
    let alto = if alto_cliente > 0 {
        alto_cliente
    } else {
        0
    };
    let toolbar_fin = if toolbar < alto {
        toolbar
    } else {
        alto
    };
    let props_fin = if toolbar_fin + props < alto {
        toolbar_fin + props
    } else {
        alto
    };
    let status_inicio = if alto_cliente - status > props_fin {
        alto_cliente - status
    } else {
        props_fin
    };
    Reparto { toolbar_fin, props_fin, status_inicio }
}

/// Se puede mapear de la vista al frame sin desbordar: el frame cabe en
/// 32 bits con signo y la distancia del punto al origen del destino
/// también.
pub open spec fn vista_a_frame_sin_desborde(p: (i32, i32), destino: Rect, frame: (u32, u32)) -> bool {
    !destino.vacio() && frame.0 != 0 && frame.1 != 0 && destino.tiene_punto(p) ==> {
        &&& frame.0 <= i32::MAX
        &&& frame.1 <= i32::MAX
        &&& p.0 - destino.x <= i32::MAX
        &&& p.1 - destino.y <= i32::MAX
    }
}

/// Punto de la vista → píxel del frame; `None` fuera del área encajada.
pub open spec fn vista_a_frame(p: (i32, i32), destino: Rect, frame: (u32, u32)) -> Option<(int, int)> {
    if destino.vacio() || frame.0 == 0 || frame.1 == 0 || !destino.tiene_punto(p) {
        None
    } else {
        let fx = cociente((p.0 - destino.x) * frame.0, destino.width as int);
        let fy = cociente((p.1 - destino.y) * frame.1, destino.height as int);
        Some((acotado(fx, 0, frame.0 - 1), acotado(fy, 0, frame.1 - 1)))
    }
}

/// Escala `d` (distancia en la vista) a píxeles de un frame de `f` para
/// una vista de `w`: `d × f / w` en 64 bits, sin desbordar.
fn escalar(d: i64, f: u32, w: u32) -> (r: i64)
    requires
        0 <= d < w,
        d <= i32::MAX,
        0 < f <= i32::MAX,
    ensures
        r == cociente(d * f, w as int),
        0 <= r < f,
{
    assert(0 <= d * f < w * f) by (nonlinear_arith)
        requires
            0 <= d < w,
            f > 0,
    ;
    assert(d * f <= 0x7fff_ffff * 0x7fff_ffff) by (nonlinear_arith)
        requires
            0 <= d <= 0x7fff_ffff,
            0 < f <= 0x7fff_ffff,
    ;
    let producto = d * (f as i64);
    assert((d * f) / (w as int) < f) by (nonlinear_arith)
        requires
            0 <= d * f < w * f,
            w > 0,
    ;
    producto / (w as i64)
}

/// Punto de la vista → píxel del frame; `None` fuera del área encajada.
pub fn view_to_frame(p: (i32, i32), destino: Rect, frame: (u32, u32)) -> (r: Option<(i32, i32)>)
    requires
        vista_a_frame_sin_desborde(p, destino, frame),
    ensures
        match r {
            None => vista_a_frame(p, destino, frame) is None,
            Some(q) => vista_a_frame(p, destino, frame) == Some((q.0 as int, q.1 as int)),
        },
{
    if destino.is_empty() || frame.0 == 0 || frame.1 == 0 {
        return None;
    }
    let dentro = p.0 >= destino.x && (p.0 as i64) < destino.right() && p.1 >= destino.y
        && (p.1 as i64) < destino.bottom();
    if !dentro {
        return None;
    }
    let fx = escalar((p.0 - destino.x) as i64, frame.0, destino.width);
    let fy = escalar((p.1 - destino.y) as i64, frame.1, destino.height);
    let fx = fx as i32;
    let fy = fy as i32;
    let max_x = frame.0 as i32 - 1;
    let max_y = frame.1 as i32 - 1;
    Some((acotar(fx, 0, max_x), acotar(fy, 0, max_y)))
}

/// Píxel del frame → punto de la vista (esquina del píxel escalado).
pub open spec fn frame_a_vista(p: (i32, i32), destino: Rect, frame: (u32, u32)) -> (int, int) {
    if destino.vacio() || frame.0 == 0 || frame.1 == 0 {
        (0, 0)
    } else {
        (
            destino.x + (cociente(p.0 * destino.width, frame.0 as int) as i32),
            destino.y + (cociente(p.1 * destino.height, frame.1 as int) as i32),
        )
    }
}

/// La suma final cabe en 32 bits con signo.
pub open spec fn frame_a_vista_sin_desborde(p: (i32, i32), destino: Rect, frame: (u32, u32)) -> bool {
    !destino.vacio() && frame.0 != 0 && frame.1 != 0 ==> {
        let v = frame_a_vista(p, destino, frame);
        &&& i32::MIN <= v.0 <= i32::MAX
        &&& i32::MIN <= v.1 <= i32::MAX
    }
}

fn escalar_con_signo(c: i32, w: u32, f: u32) -> (r: i32)
    requires
        f > 0,
    ensures
        r == (cociente(c * w, f as int) as i32),
{
    let c64 = c as i64;
    let w64 = w as i64;
    assert(-0x8000_0000 * 0xffff_ffff <= c64 * w64 <= 0x7fff_ffff * 0xffff_ffff) by (nonlinear_arith)
        requires
            -0x8000_0000 <= c64 <= 0x7fff_ffff,
            0 <= w64 <= 0xffff_ffff,
    ;
    let producto = c64 * w64;
    let q = producto / (f as i64);
    assert(q == cociente(producto as int, f as int)) by {
        if producto < 0 {
            assert(q == -((-producto) / (f as int)));
        }
    }
    #[verifier::truncate]
    (q as i32)
}

/// Píxel del frame → punto de la vista (esquina del píxel escalado).
pub fn frame_to_view(p: (i32, i32), destino: Rect, frame: (u32, u32)) -> (r: (i32, i32))
    requires
        frame_a_vista_sin_desborde(p, destino, frame),
    ensures
        (r.0 as int, r.1 as int) == frame_a_vista(p, destino, frame),
{
    if destino.is_empty() || frame.0 == 0 || frame.1 == 0 {
        return (0, 0);
    }
    (
        destino.x + escalar_con_signo(p.0, destino.width, frame.0),
        destino.y + escalar_con_signo(p.1, destino.height, frame.1),
    )
}

/// Ida y vuelta entre vista y frame: el píxel que cae bajo un punto de la
/// vista empieza, visto de nuevo en la vista, en ese punto o antes; y
/// siempre es un píxel del frame.
pub proof fn ley_vista_frame_vista(v: (i32, i32), destino: Rect, frame: (u32, u32))
    requires
        vista_a_frame_sin_desborde(v, destino, frame),
        vista_a_frame(v, destino, frame) is Some,
    ensures
        ({
            let q = vista_a_frame(v, destino, frame)->0;
            &&& 0 <= q.0 < frame.0 && 0 <= q.1 < frame.1
            &&& frame_a_vista((q.0 as i32, q.1 as i32), destino, frame).0 <= v.0
            &&& frame_a_vista((q.0 as i32, q.1 as i32), destino, frame).1 <= v.1
        }),
{
    let q = vista_a_frame(v, destino, frame)->0;
    let (w, h) = (destino.width as int, destino.height as int);
    let (f0, f1) = (frame.0 as int, frame.1 as int);
    let dx = v.0 - destino.x;
    let dy = v.1 - destino.y;
    lema_escala_vuelve(dx, w, f0);
    lema_escala_vuelve(dy, h, f1);
}

/// Ir de la vista al frame y volver no pasa del punto de partida.
proof fn lema_escala_vuelve(d: int, w: int, f: int)
    requires
        0 <= d < w,
        f > 0,
        f <= i32::MAX,
    ensures
        ({
            let q = acotado(cociente(d * f, w), 0, f - 1);
            &&& 0 <= q < f
            &&& cociente(q * w, f) <= d
            &&& (q as i32) as int == q
        }),
{
    assert(0 <= d * f) by (nonlinear_arith)
        requires
            0 <= d,
            f > 0,
    ;
    let q0 = (d * f) / w;
    assert(q0 * w <= d * f) by (nonlinear_arith)
        requires
            q0 == (d * f) / w,
            w > 0,
            d * f >= 0,
    ;
    let q = acotado(q0, 0, f - 1);
    assert(q * w <= d * f) by (nonlinear_arith)
        requires
            0 <= q <= q0,
            q0 * w <= d * f,
            w > 0,
    ;
    assert((q * w) / f <= d) by (nonlinear_arith)
        requires
            q * w <= d * f,
            f > 0,
            q >= 0,
            w > 0,
    ;
}

/// Ida y vuelta entre frame y vista: un píxel del frame cuya esquina cae
/// exactamente en un píxel de la vista (la escala no deja resto) vuelve a
/// ser el mismo píxel. El destino cabe en 32 bits con signo, y la esquina
/// queda a menos de `i32::MAX` del origen del destino (más allá, el paso de
/// la vista al frame resta en 32 bits y desborda).
pub proof fn ley_frame_vista_frame(q: (i32, i32), destino: Rect, frame: (u32, u32))
    requires
        !destino.vacio(),
        0 <= q.0 < frame.0,
        0 <= q.1 < frame.1,
        frame.0 <= i32::MAX,
        frame.1 <= i32::MAX,
        destino.fin_x() <= i32::MAX,
        destino.fin_y() <= i32::MAX,
        (q.0 * destino.width) % (frame.0 as int) == 0,
        (q.1 * destino.height) % (frame.1 as int) == 0,
        cociente(q.0 * destino.width, frame.0 as int) <= i32::MAX,
        cociente(q.1 * destino.height, frame.1 as int) <= i32::MAX,
    ensures
        frame_a_vista_sin_desborde(q, destino, frame),
        ({
            let v = frame_a_vista(q, destino, frame);
            let p = (v.0 as i32, v.1 as i32);
            &&& vista_a_frame_sin_desborde(p, destino, frame)
            &&& vista_a_frame(p, destino, frame) == Some((q.0 as int, q.1 as int))
        }),
{
    lema_escala_exacta(q.0 as int, destino.width as int, frame.0 as int);
    lema_escala_exacta(q.1 as int, destino.height as int, frame.1 as int);
}

/// Una coordenada del frame que escala sin resto a la vista vuelve igual.
proof fn lema_escala_exacta(c: int, w: int, f: int)
    requires
        0 <= c < f,
        0 < w,
        f <= i32::MAX,
        (c * w) % f == 0,
        cociente(c * w, f) <= i32::MAX,
    ensures
        ({
            let k = cociente(c * w, f);
            &&& 0 <= k < w
            &&& (k as i32) as int == k
            &&& cociente(k * f, w) == c
            &&& acotado(cociente(k * f, w), 0, f - 1) == c
        }),
{
    assert(c * w >= 0) by (nonlinear_arith)
        requires
            c >= 0,
            w > 0,
    ;
    let k = (c * w) / f;
    assert(k * f == c * w) by (nonlinear_arith)
        requires
            k == (c * w) / f,
            (c * w) % f == 0,
            f > 0,
    ;
    assert(0 <= k < w) by (nonlinear_arith)
        requires
            k * f == c * w,
            0 <= c < f,
            w > 0,
            f > 0,
    ;
    assert((k * f) / w == c) by (nonlinear_arith)
        requires
            k * f == c * w,
            w > 0,
    ;
}

/// Lados del encaje de una imagen de `iw × ih` en un lienzo de `lw × lh`:
/// tamaño natural si cabe; si no, reducida manteniendo aspecto (nunca por
/// debajo de 1 px en el lado que se escala).
pub open spec fn lados_encaje(iw: int, ih: int, lw: int, lh: int) -> (int, int) {
    if iw <= lw && ih <= lh {
        (iw, ih)
    } else if iw * lh >= ih * lw {
        (lw, maximo(ih * lw / iw, 1))
    } else {
        (maximo(iw * lh / ih, 1), lh)
    }
}

/// Rect destino de la imagen dentro del lienzo: centrada; si no cabe,
/// reducida manteniendo aspecto; vacío si algo es degenerado.
pub open spec fn encaje(imagen: (u32, u32), lienzo: (i32, i32)) -> Rect {
    if imagen.0 == 0 || imagen.1 == 0 || lienzo.0 <= 0 || lienzo.1 <= 0 {
        Rect { x: 0, y: 0, width: 0, height: 0 }
    } else {
        let (w, h) = lados_encaje(
            imagen.0 as int,
            imagen.1 as int,
            lienzo.0 as int,
            lienzo.1 as int,
        );
        Rect {
            x: ((lienzo.0 - w) / 2) as i32,
            y: ((lienzo.1 - h) / 2) as i32,
            width: w as u32,
            height: h as u32,
        }
    }
}

proof fn lema_lados_encaje(iw: int, ih: int, lw: int, lh: int)
    requires
        0 < iw <= u32::MAX,
        0 < ih <= u32::MAX,
        0 < lw <= i32::MAX,
        0 < lh <= i32::MAX,
    ensures
        ({
            let (w, h) = lados_encaje(iw, ih, lw, lh);
            &&& 1 <= w <= lw && w <= iw
            &&& 1 <= h <= lh && h <= ih
        }),
{
    if iw <= lw && ih <= lh {
    } else if iw * lh >= ih * lw {
        if iw <= lw {
            assert(ih > lh);
            assert(iw * lh < ih * lw) by (nonlinear_arith)
                requires
                    iw <= lw,
                    ih > lh,
                    lh > 0,
                    iw > 0,
            ;
        }
        assert(ih * lw / iw <= lh) by (nonlinear_arith)
            requires
                iw * lh >= ih * lw,
                iw > 0,
        ;
        assert(ih * lw / iw <= ih) by (nonlinear_arith)
            requires
                iw > lw,
                lw > 0,
                ih > 0,
        ;
    } else {
        if ih <= lh {
            assert(iw > lw);
            assert(iw * lh >= ih * lw) by (nonlinear_arith)
                requires
                    ih <= lh,
                    iw > lw,
                    lw > 0,
                    ih > 0,
            ;
        }
        assert(iw * lh / ih <= lw) by (nonlinear_arith)
            requires
                iw * lh < ih * lw,
                ih > 0,
        ;
        assert(iw * lh / ih <= iw) by (nonlinear_arith)
            requires
                ih > lh,
                lh > 0,
                iw > 0,
        ;
    }
}

/// El encaje cabe en el lienzo, centrado, y nunca amplía la imagen.
pub proof fn ley_el_encaje_cabe_y_no_amplia(imagen: (u32, u32), lienzo: (i32, i32))
    requires
        imagen.0 > 0 && imagen.1 > 0 && lienzo.0 > 0 && lienzo.1 > 0,
    ensures
        ({
            let r = encaje(imagen, lienzo);
            &&& 0 <= r.x && r.x + r.width <= lienzo.0
            &&& 0 <= r.y && r.y + r.height <= lienzo.1
            &&& 1 <= r.width <= imagen.0 && 1 <= r.height <= imagen.1
            &&& lienzo.0 - (r.x + r.width) - r.x <= 1
            &&& lienzo.1 - (r.y + r.height) - r.y <= 1
        }),
{
    lema_lados_encaje(imagen.0 as int, imagen.1 as int, lienzo.0 as int, lienzo.1 as int);
}

/// Rect destino de la imagen dentro del lienzo: centrada; si no cabe,
/// reducida manteniendo aspecto. Nunca se amplía.
pub fn fit_rect(imagen: (u32, u32), lienzo: (i32, i32)) -> (r: Rect)
    ensures
        r == encaje(imagen, lienzo),
{
    let (iw, ih) = (imagen.0 as i64, imagen.1 as i64);
    let (lw, lh) = (lienzo.0 as i64, lienzo.1 as i64);
    if iw == 0 || ih == 0 || lw <= 0 || lh <= 0 {
        return Rect::new(0, 0, 0, 0);
    }
    proof {
        lema_lados_encaje(iw as int, ih as int, lw as int, lh as int);
    }
    assert(iw * lh <= 0xffff_ffff * 0x7fff_ffff) by (nonlinear_arith)
        requires
            0 < iw <= 0xffff_ffff,
            0 < lh <= 0x7fff_ffff,
    ;
    assert(ih * lw <= 0xffff_ffff * 0x7fff_ffff) by (nonlinear_arith)
        requires
            0 < ih <= 0xffff_ffff,
            0 < lw <= 0x7fff_ffff,
    ;
    let (w, h) = if iw <= lw && ih <= lh {
        (iw, ih)
    } else if iw * lh >= ih * lw {
        let a = ih * lw / iw;
        (lw, if a > 1 {
            a
        } else {
            1
        })
    } else {
        let a = iw * lh / ih;
        (if a > 1 {
            a
        } else {
            1
        }, lh)
    };
    Rect::new(((lw - w) / 2) as i32, ((lh - h) / 2) as i32, w as u32, h as u32)
}

} // verus!
