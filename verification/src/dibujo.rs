//! La ventana de dibujo: sus controles y dónde van, qué hace cada
//! comando y tecla, el tamaño de la ventana y del lienzo, la forma que va
//! saliendo de un arrastre y el texto que confirma una caja de texto. El
//! motor que pinta las anotaciones y las ventanas quedan fuera.

use vstd::prelude::*;
use crate::aritmetica::{acotado, acotar};
use crate::color::Color;
use crate::editor::{encaje, fit_rect};
use crate::geometria::Rect;
use crate::overlay::{rect_between, rect_entre};

verus! {

/// Ancho de la paleta de herramientas de la izquierda.
pub const PALETTE_W: i32 = 96;
/// Alto de la barra inferior de colores y tamaños.
pub const BOTTOM_H: i32 = 48;
/// Rect..Texto = 4001..=4007, en el orden de `Tool`.
pub const ID_TOOL_BASE: u16 = 4001;
pub const ID_UNDO: u16 = 4010;
pub const ID_REDO: u16 = 4011;
pub const ID_MAS_COLOR: u16 = 4020;
/// Ocho muestras de color 4030..=4037.
pub const ID_COLOR_BASE: u16 = 4030;
/// Grosores 4040..=4044.
pub const ID_GROSOR_BASE: u16 = 4040;
/// Tamaños de texto 4050..=4054.
pub const ID_TAMANO_BASE: u16 = 4050;
pub const ID_BOLD: u16 = 4060;
pub const ID_OK: u16 = 4070;
pub const ID_CANCEL: u16 = 4071;
/// La caja de texto en edición.
pub const ID_EDIT_TEXT: u16 = 4080;
/// Virtual-key de Esc.
pub const VK_ESCAPE: u16 = 0x1B;

/// Grosores de trazo ofrecidos.
pub const GROSORES: [u32; 5] = [1, 2, 3, 5, 8];
/// Tamaños de texto ofrecidos (puntos enteros).
pub const TAMANOS: [u32; 5] = [12, 16, 20, 28, 36];

/// Herramientas de la paleta, en su orden.
#[derive(Clone, Copy, PartialEq, Eq, Debug, Structural)]
pub enum Tool {
    Rect,
    Ellipse,
    Line,
    Arrow,
    Pen,
    Highlight,
    Text,
}

/// Herramienta del botón `i` de la paleta.
pub open spec fn tool_spec(i: int) -> Tool {
    if i == 0 {
        Tool::Rect
    } else if i == 1 {
        Tool::Ellipse
    } else if i == 2 {
        Tool::Line
    } else if i == 3 {
        Tool::Arrow
    } else if i == 4 {
        Tool::Pen
    } else if i == 5 {
        Tool::Highlight
    } else {
        Tool::Text
    }
}

/// Rótulo del botón `i` de la paleta.
pub open spec fn rotulo_tool(i: int) -> Seq<char> {
    if i == 0 {
        "Rect"@
    } else if i == 1 {
        "Elipse"@
    } else if i == 2 {
        "Línea"@
    } else if i == 3 {
        "Flecha"@
    } else if i == 4 {
        "Lápiz"@
    } else if i == 5 {
        "Resalt."@
    } else {
        "Texto"@
    }
}

fn tool_de(i: u16) -> (t: (Tool, &'static str))
    requires
        i < 7,
    ensures
        t.0 == tool_spec(i as int),
        t.1@ == rotulo_tool(i as int),
{
    if i == 0 {
        (Tool::Rect, "Rect")
    } else if i == 1 {
        (Tool::Ellipse, "Elipse")
    } else if i == 2 {
        (Tool::Line, "Línea")
    } else if i == 3 {
        (Tool::Arrow, "Flecha")
    } else if i == 4 {
        (Tool::Pen, "Lápiz")
    } else if i == 5 {
        (Tool::Highlight, "Resalt.")
    } else {
        (Tool::Text, "Texto")
    }
}

/// Color de la muestra `i`.
pub open spec fn color_spec(i: int) -> Color {
    if i == 0 {
        Color { r: 0, g: 0, b: 0, a: 255 }
    } else if i == 1 {
        Color { r: 255, g: 255, b: 255, a: 255 }
    } else if i == 2 {
        Color { r: 255, g: 0, b: 0, a: 255 }
    } else if i == 3 {
        Color { r: 0, g: 200, b: 0, a: 255 }
    } else if i == 4 {
        Color { r: 0, g: 90, b: 255, a: 255 }
    } else if i == 5 {
        Color { r: 255, g: 220, b: 0, a: 255 }
    } else if i == 6 {
        Color { r: 255, g: 140, b: 0, a: 255 }
    } else {
        Color { r: 128, g: 0, b: 128, a: 255 }
    }
}

/// Color de la muestra `i` (de las ocho de la barra inferior).
pub fn color_muestra(i: u16) -> (c: Color)
    requires
        i < 8,
    ensures
        c == color_spec(i as int),
{
    if i == 0 {
        Color::rgb(0, 0, 0)
    } else if i == 1 {
        Color::rgb(255, 255, 255)
    } else if i == 2 {
        Color::rgb(255, 0, 0)
    } else if i == 3 {
        Color::rgb(0, 200, 0)
    } else if i == 4 {
        Color::rgb(0, 90, 255)
    } else if i == 5 {
        Color::rgb(255, 220, 0)
    } else if i == 6 {
        Color::rgb(255, 140, 0)
    } else {
        Color::rgb(128, 0, 128)
    }
}

/// Lo que pide un comando o una tecla.
#[derive(Clone, Copy, PartialEq, Eq, Debug, Structural)]
pub enum AccionDibujo {
    Herramienta(Tool),
    Color(Color),
    Grosor(u32),
    Tamano(u32),
    /// Alternar la negrita.
    Negrita,
    /// Abrir el diálogo de color.
    MasColor,
    Deshacer,
    Rehacer,
    /// Confirmar el texto abierto y devolver el frame con las anotaciones.
    Aceptar,
    /// Salir descartando, con confirmación si hay anotaciones.
    Cancelar,
    Nada,
}

/// Acción de cada identificador de control.
pub open spec fn accion_spec(id: u16) -> AccionDibujo {
    if ID_TOOL_BASE <= id < ID_TOOL_BASE + 7 {
        AccionDibujo::Herramienta(tool_spec(id - ID_TOOL_BASE))
    } else if ID_COLOR_BASE <= id < ID_COLOR_BASE + 8 {
        AccionDibujo::Color(color_spec(id - ID_COLOR_BASE))
    } else if ID_GROSOR_BASE <= id < ID_GROSOR_BASE + 5 {
        AccionDibujo::Grosor(GROSORES[id - ID_GROSOR_BASE])
    } else if ID_TAMANO_BASE <= id < ID_TAMANO_BASE + 5 {
        AccionDibujo::Tamano(TAMANOS[id - ID_TAMANO_BASE])
    } else if id == ID_BOLD {
        AccionDibujo::Negrita
    } else if id == ID_MAS_COLOR {
        AccionDibujo::MasColor
    } else if id == ID_UNDO {
        AccionDibujo::Deshacer
    } else if id == ID_REDO {
        AccionDibujo::Rehacer
    } else if id == ID_OK {
        AccionDibujo::Aceptar
    } else if id == ID_CANCEL {
        AccionDibujo::Cancelar
    } else {
        AccionDibujo::Nada
    }
}

/// Cada botón de la paleta elige la herramienta que dice su rótulo: los
/// botones 4001 a 4007 son, por orden, Rect, Elipse, Línea, Flecha, Lápiz,
/// Resaltador y Texto, y pulsarlos selecciona esa herramienta.
pub proof fn ley_la_paleta_elige_lo_que_rotula(k: int)
    requires
        0 <= k < 7,
    ensures
        accion_spec((4001 + k) as u16) == AccionDibujo::Herramienta(
            seq![Tool::Rect, Tool::Ellipse, Tool::Line, Tool::Arrow, Tool::Pen, Tool::Highlight, Tool::Text][k],
        ),
        rotulo_tool(k) == seq!["Rect"@, "Elipse"@, "Línea"@, "Flecha"@, "Lápiz"@, "Resalt."@, "Texto"@][k],
        ({
            let c = control_spec(k, 0, 0);
            c.0 == 4001 + k && c.1 == rotulo_tool(k)
        }),
{
}

/// Qué pide el control `id` de un `WM_COMMAND`.
pub fn accion_de_comando(id: u16) -> (a: AccionDibujo)
    ensures
        a == accion_spec(id),
{
    if ID_TOOL_BASE <= id && id < ID_TOOL_BASE + 7 {
        AccionDibujo::Herramienta(tool_de(id - ID_TOOL_BASE).0)
    } else if ID_COLOR_BASE <= id && id < ID_COLOR_BASE + 8 {
        AccionDibujo::Color(color_muestra(id - ID_COLOR_BASE))
    } else if ID_GROSOR_BASE <= id && id < ID_GROSOR_BASE + 5 {
        AccionDibujo::Grosor(GROSORES[(id - ID_GROSOR_BASE) as usize])
    } else if ID_TAMANO_BASE <= id && id < ID_TAMANO_BASE + 5 {
        AccionDibujo::Tamano(TAMANOS[(id - ID_TAMANO_BASE) as usize])
    } else if id == ID_BOLD {
        AccionDibujo::Negrita
    } else if id == ID_MAS_COLOR {
        AccionDibujo::MasColor
    } else if id == ID_UNDO {
        AccionDibujo::Deshacer
    } else if id == ID_REDO {
        AccionDibujo::Rehacer
    } else if id == ID_OK {
        AccionDibujo::Aceptar
    } else if id == ID_CANCEL {
        AccionDibujo::Cancelar
    } else {
        AccionDibujo::Nada
    }
}

/// Qué pide una tecla: Esc cancela, Ctrl+Z deshace y Ctrl+Y rehace.
pub fn accion_de_tecla(vk: u16, ctrl: bool) -> (a: AccionDibujo)
    ensures
        a == (if vk == VK_ESCAPE {
            AccionDibujo::Cancelar
        } else if ctrl && vk == 0x5A {
            AccionDibujo::Deshacer
        } else if ctrl && vk == 0x59 {
            AccionDibujo::Rehacer
        } else {
            AccionDibujo::Nada
        }),
{
    if vk == VK_ESCAPE {
        AccionDibujo::Cancelar
    } else if ctrl && vk == 0x5A {
        AccionDibujo::Deshacer
    } else if ctrl && vk == 0x59 {
        AccionDibujo::Rehacer
    } else {
        AccionDibujo::Nada
    }
}

/// Tamaño y negrita solo se pueden tocar con la herramienta Texto y
/// habiendo fuente para pintarlo.
pub fn controles_de_texto_activos(tool: Tool, tiene_fuente: bool) -> (b: bool)
    ensures
        b == (tool == Tool::Text && tiene_fuente),
{
    tool == Tool::Text && tiene_fuente
}

/// Tamaño inicial de la ventana para un frame: imagen + paleta + barra +
/// marco, acotado.
pub open spec fn tamano_ventana_spec(ancho: u32, alto: u32) -> (int, int) {
    (
        acotado((ancho as i32) + PALETTE_W + 40, 640, 1360),
        acotado((alto as i32) + BOTTOM_H + 80, 420, 900),
    )
}

pub fn tamano_ventana(ancho: u32, alto: u32) -> (r: (i32, i32))
    requires
        (ancho as i32) + PALETTE_W + 40 <= i32::MAX,
        (alto as i32) + BOTTOM_H + 80 <= i32::MAX,
    ensures
        (r.0 as int, r.1 as int) == tamano_ventana_spec(ancho, alto),
{
    (
        acotar(ancho as i32 + PALETTE_W + 40, 640, 1360),
        acotar(alto as i32 + BOTTOM_H + 80, 420, 900),
    )
}

/// Rect del lienzo: el cliente menos la paleta y la barra, con la imagen
/// encajada y desplazada tras la paleta.
pub open spec fn destino_spec(cliente: (i32, i32), frame: (u32, u32)) -> Rect {
    let e = encaje(frame, ((cliente.0 - PALETTE_W) as i32, (cliente.1 - BOTTOM_H) as i32));
    Rect { x: (e.x + PALETTE_W) as i32, ..e }
}

pub fn dest_rect(cliente: (i32, i32), frame: (u32, u32)) -> (r: Rect)
    requires
        i32::MIN + PALETTE_W <= cliente.0,
        i32::MIN + BOTTOM_H <= cliente.1,
    ensures
        r == destino_spec(cliente, frame),
{
    let e = fit_rect(frame, (cliente.0 - PALETTE_W, cliente.1 - BOTTOM_H));
    proof {
        if frame.0 > 0 && frame.1 > 0 && cliente.0 - PALETTE_W > 0 && cliente.1 - BOTTOM_H > 0 {
            crate::editor::ley_el_encaje_cabe_y_no_amplia(
                frame,
                ((cliente.0 - PALETTE_W) as i32, (cliente.1 - BOTTOM_H) as i32),
            );
        }
    }
    Rect::new(e.x + PALETTE_W, e.y, e.width, e.height)
}

/// Cómo se ve un botón.
#[derive(Clone, Copy, PartialEq, Eq, Debug, Structural)]
pub enum EstiloControl {
    /// Botón con texto.
    Normal,
    /// Muestra de color pintada por la ventana (`BS_OWNERDRAW`).
    Muestra,
    /// Botón que se queda hundido (`BS_AUTOCHECKBOX | BS_PUSHLIKE`).
    Alternar,
}

/// Un botón de la ventana de dibujo y su sitio en el cliente.
pub struct Control {
    pub id: u16,
    pub texto: &'static str,
    pub x: i32,
    pub y: i32,
    pub ancho: i32,
    pub alto: i32,
    pub estilo: EstiloControl,
    /// Se puede pulsar al crear la ventana.
    pub habilitado: bool,
}

/// Un control como valores.
pub open spec fn vista_control(c: Control) -> (u16, Seq<char>, int, int, int, int, EstiloControl) {
    (c.id, c.texto@, c.x as int, c.y as int, c.ancho as int, c.alto as int, c.estilo)
}

pub open spec fn rotulo_grosor(i: int) -> Seq<char> {
    if i == 0 {
        "1"@
    } else if i == 1 {
        "2"@
    } else if i == 2 {
        "3"@
    } else if i == 3 {
        "5"@
    } else {
        "8"@
    }
}

pub open spec fn rotulo_tamano(i: int) -> Seq<char> {
    if i == 0 {
        "12"@
    } else if i == 1 {
        "16"@
    } else if i == 2 {
        "20"@
    } else if i == 3 {
        "28"@
    } else {
        "36"@
    }
}

fn rotulo_grosor_de(i: u16) -> (s: &'static str)
    ensures
        s@ == rotulo_grosor(i as int),
{
    if i == 0 {
        "1"
    } else if i == 1 {
        "2"
    } else if i == 2 {
        "3"
    } else if i == 3 {
        "5"
    } else {
        "8"
    }
}

fn rotulo_tamano_de(i: u16) -> (s: &'static str)
    ensures
        s@ == rotulo_tamano(i as int),
{
    if i == 0 {
        "12"
    } else if i == 1 {
        "16"
    } else if i == 2 {
        "20"
    } else if i == 3 {
        "28"
    } else {
        "36"
    }
}

/// Número de botones de la ventana.
pub const NUM_CONTROLES: usize = 31;

/// El botón `k` para un cliente de `ancho × alto`: las siete herramientas
/// y deshacer/rehacer en la paleta; en la barra inferior las ocho
/// muestras, «Más…», los grosores, los tamaños, la negrita y, pegados a
/// la derecha, Cancelar y OK.
pub open spec fn control_spec(k: int, ancho: int, alto: int) -> (
    u16,
    Seq<char>,
    int,
    int,
    int,
    int,
    EstiloControl,
) {
    let y = alto - BOTTOM_H + 10;
    if k < 7 {
        ((ID_TOOL_BASE + k) as u16, rotulo_tool(k), 6, 10 + k * 32, 84, 26, EstiloControl::Normal)
    } else if k == 7 {
        (ID_UNDO, "Deshacer"@, 6, 246int, 84, 26, EstiloControl::Normal)
    } else if k == 8 {
        (ID_REDO, "Rehacer"@, 6, 278int, 84, 26, EstiloControl::Normal)
    } else if k < 17 {
        (
            (ID_COLOR_BASE + (k - 9)) as u16,
            ""@,
            PALETTE_W + 8 + (k - 9) * 28,
            y,
            24,
            24,
            EstiloControl::Muestra,
        )
    } else if k == 17 {
        (ID_MAS_COLOR, "Más…"@, PALETTE_W + 8 + 8 * 28 + 4, y, 52, 24, EstiloControl::Normal)
    } else if k < 23 {
        (
            (ID_GROSOR_BASE + (k - 18)) as u16,
            rotulo_grosor(k - 18),
            PALETTE_W + 8 + 8 * 28 + 4 + 60 + (k - 18) * 26,
            y,
            24,
            24,
            EstiloControl::Normal,
        )
    } else if k < 28 {
        (
            (ID_TAMANO_BASE + (k - 23)) as u16,
            rotulo_tamano(k - 23),
            PALETTE_W + 8 + 8 * 28 + 4 + 60 + 5 * 26 + 8 + (k - 23) * 30,
            y,
            28,
            24,
            EstiloControl::Normal,
        )
    } else if k == 28 {
        (
            ID_BOLD,
            "B"@,
            PALETTE_W + 8 + 8 * 28 + 4 + 60 + 5 * 26 + 8 + 5 * 30 + 4,
            y,
            28,
            24,
            EstiloControl::Alternar,
        )
    } else if k == 29 {
        (ID_CANCEL, "Cancelar"@, ancho - 90, y, 80, 26, EstiloControl::Normal)
    } else {
        (ID_OK, "OK"@, ancho - 180, y, 80, 26, EstiloControl::Normal)
    }
}

/// Si el botón `k` nace habilitado: el de Texto solo si hay fuente; los
/// de tamaño y la negrita solo con la herramienta Texto y fuente; los
/// demás siempre.
pub open spec fn habilitado_spec(k: int, tool: Tool, tiene_fuente: bool) -> bool {
    if k == 6 {
        tiene_fuente
    } else if 23 <= k <= 28 {
        tool == Tool::Text && tiene_fuente
    } else {
        true
    }
}

/// Los botones de la ventana de dibujo para un cliente de
/// `ancho × alto`, en el orden en que se crean, con la herramienta
/// activa `tool` y sabiendo si hay fuente para el texto.
pub fn controles(ancho: i32, alto: i32, tool: Tool, tiene_fuente: bool) -> (v: Vec<Control>)
    requires
        i32::MIN + 180 <= ancho,
        i32::MIN + BOTTOM_H <= alto,
    ensures
        v@.len() == NUM_CONTROLES,
        forall|k: int| 0 <= k < NUM_CONTROLES ==> vista_control(#[trigger] v@[k]) == control_spec(k, ancho as int, alto as int),
        forall|k: int| 0 <= k < NUM_CONTROLES ==> (#[trigger] v@[k]).habilitado == habilitado_spec(k, tool, tiene_fuente),
{
    let texto_activo = controles_de_texto_activos(tool, tiene_fuente);
    let mut v: Vec<Control> = Vec::new();
    let mut i: u16 = 0;
    while i < 7
        invariant
            i <= 7,
            v@.len() == i,
            forall|k: int| 0 <= k < v@.len() ==> vista_control(#[trigger] v@[k]) == control_spec(k, ancho as int, alto as int),
            forall|k: int| 0 <= k < v@.len() ==> (#[trigger] v@[k]).habilitado == habilitado_spec(k, tool, tiene_fuente),
            texto_activo == (tool == Tool::Text && tiene_fuente),
        decreases 7 - i,
    {
        let (_, texto) = tool_de(i);
        v.push(Control { id: ID_TOOL_BASE + i, texto, x: 6, y: 10 + i as i32 * 32, ancho: 84, alto: 26, estilo: EstiloControl::Normal, habilitado: i != 6 || tiene_fuente });
        i = i + 1;
    }
    v.push(Control { id: ID_UNDO, texto: "Deshacer", x: 6, y: 10 + 7 * 32 + 12, ancho: 84, alto: 26, estilo: EstiloControl::Normal, habilitado: true });
    v.push(Control { id: ID_REDO, texto: "Rehacer", x: 6, y: 10 + 8 * 32 + 12, ancho: 84, alto: 26, estilo: EstiloControl::Normal, habilitado: true });
    let y = alto - BOTTOM_H + 10;
    let mut i: u16 = 0;
    while i < 8
        invariant
            i <= 8,
            y == alto - BOTTOM_H + 10,
            v@.len() == 9 + i,
            forall|k: int| 0 <= k < v@.len() ==> vista_control(#[trigger] v@[k]) == control_spec(k, ancho as int, alto as int),
            forall|k: int| 0 <= k < v@.len() ==> (#[trigger] v@[k]).habilitado == habilitado_spec(k, tool, tiene_fuente),
            texto_activo == (tool == Tool::Text && tiene_fuente),
        decreases 8 - i,
    {
        v.push(Control { id: ID_COLOR_BASE + i, texto: "", x: PALETTE_W + 8 + i as i32 * 28, y, ancho: 24, alto: 24, estilo: EstiloControl::Muestra, habilitado: true });
        i = i + 1;
    }
    let x_mas = PALETTE_W + 8 + 8 * 28 + 4;
    v.push(Control { id: ID_MAS_COLOR, texto: "Más…", x: x_mas, y, ancho: 52, alto: 24, estilo: EstiloControl::Normal, habilitado: true });
    let x_grosor = x_mas + 60;
    let mut i: u16 = 0;
    while i < 5
        invariant
            i <= 5,
            y == alto - BOTTOM_H + 10,
            x_grosor == PALETTE_W + 8 + 8 * 28 + 4 + 60,
            v@.len() == 18 + i,
            forall|k: int| 0 <= k < v@.len() ==> vista_control(#[trigger] v@[k]) == control_spec(k, ancho as int, alto as int),
            forall|k: int| 0 <= k < v@.len() ==> (#[trigger] v@[k]).habilitado == habilitado_spec(k, tool, tiene_fuente),
            texto_activo == (tool == Tool::Text && tiene_fuente),
        decreases 5 - i,
    {
        v.push(Control { id: ID_GROSOR_BASE + i, texto: rotulo_grosor_de(i), x: x_grosor + i as i32 * 26, y, ancho: 24, alto: 24, estilo: EstiloControl::Normal, habilitado: true });
        i = i + 1;
    }
    let x_tamano = x_grosor + 5 * 26 + 8;
    let mut i: u16 = 0;
    while i < 5
        invariant
            i <= 5,
            y == alto - BOTTOM_H + 10,
            x_tamano == PALETTE_W + 8 + 8 * 28 + 4 + 60 + 5 * 26 + 8,
            v@.len() == 23 + i,
            forall|k: int| 0 <= k < v@.len() ==> vista_control(#[trigger] v@[k]) == control_spec(k, ancho as int, alto as int),
            forall|k: int| 0 <= k < v@.len() ==> (#[trigger] v@[k]).habilitado == habilitado_spec(k, tool, tiene_fuente),
            texto_activo == (tool == Tool::Text && tiene_fuente),
        decreases 5 - i,
    {
        v.push(Control { id: ID_TAMANO_BASE + i, texto: rotulo_tamano_de(i), x: x_tamano + i as i32 * 30, y, ancho: 28, alto: 24, estilo: EstiloControl::Normal, habilitado: texto_activo });
        i = i + 1;
    }
    v.push(Control { id: ID_BOLD, texto: "B", x: x_tamano + 5 * 30 + 4, y, ancho: 28, alto: 24, estilo: EstiloControl::Alternar, habilitado: texto_activo });
    v.push(Control { id: ID_CANCEL, texto: "Cancelar", x: ancho - 90, y, ancho: 80, alto: 26, estilo: EstiloControl::Normal, habilitado: true });
    v.push(Control { id: ID_OK, texto: "OK", x: ancho - 180, y, ancho: 80, alto: 26, estilo: EstiloControl::Normal, habilitado: true });
    v
}

} // verus!
