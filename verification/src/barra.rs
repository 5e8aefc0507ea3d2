//! Composición de la fila de la barra flotante: qué botones hay, en qué
//! orden, cuáles llevan lógica y qué hotkey anuncia cada tooltip; qué
//! pide cada comando (de la barra, del menú de la bandeja o de un
//! hotkey) y dónde va el asa.

use vstd::prelude::*;
use crate::aritmetica::cociente;
use crate::botonera::{boton, boton_spec, BotonDef, Elemento};
use crate::hotkeys::HotkeyId;
use crate::iconos::Icono;
use crate::layout::Caja;
use crate::texto::{anadir, cadena, caracteres};

verus! {

/// Alto lógico de la barra: botón de 28 + rejilla de 4 arriba y abajo.
pub const ALTO_LOGICO: i32 = 36;

pub const ID_FULLSCREEN: u16 = 1001;
pub const ID_WINDOW: u16 = 1002;
pub const ID_REGION: u16 = 1003;
pub const ID_DELAY: u16 = 1004;
pub const ID_RECORD: u16 = 1005;
pub const ID_CONFIG: u16 = 1006;
pub const ID_CLOSE: u16 = 1008;
pub const ID_OBJECT: u16 = 1009;
// 1010 era el de la mano alzada, descartada: el id no se reutiliza.
pub const ID_FIXED: u16 = 1011;
pub const ID_SCROLL: u16 = 1012;
pub const ID_EYEDROPPER: u16 = 1013;
pub const ID_MAGNIFIER: u16 = 1014;
pub const ID_RULER: u16 = 1015;
pub const ID_CROSSHAIR: u16 = 1016;
pub const ID_PIN: u16 = 1017;
pub const ID_COLLAPSE: u16 = 1018;

/// Qué hotkey de la config muestra el tooltip de un botón.
#[derive(Clone, Copy, PartialEq, Eq, Debug, Structural)]
pub enum HotkeyTooltip {
    Fullscreen,
    Window,
    Region,
    Delay,
}

/// Botón → hotkey de config que anuncia su tooltip (solo los vivos).
pub open spec fn hotkey_de(id: u16) -> Option<HotkeyTooltip> {
    if id == ID_FULLSCREEN {
        Some(HotkeyTooltip::Fullscreen)
    } else if id == ID_WINDOW {
        Some(HotkeyTooltip::Window)
    } else if id == ID_REGION {
        Some(HotkeyTooltip::Region)
    } else if id == ID_DELAY {
        Some(HotkeyTooltip::Delay)
    } else {
        None
    }
}

/// Botón → hotkey de config que anuncia su tooltip (solo los vivos).
pub fn hotkey_tooltip(id: u16) -> (r: Option<HotkeyTooltip>)
    ensures
        r == hotkey_de(id),
{
    match id {
        ID_FULLSCREEN => Some(HotkeyTooltip::Fullscreen),
        ID_WINDOW => Some(HotkeyTooltip::Window),
        ID_REGION => Some(HotkeyTooltip::Region),
        ID_DELAY => Some(HotkeyTooltip::Delay),
        _ => None,
    }
}

/// La fila completa de la barra, en orden visual.
pub open spec fn fila_spec() -> Seq<Elemento> {
    seq![
        Elemento::Asa,
        boton_spec(ID_FULLSCREEN, Icono::CaptureFullscreen, "Pantalla completa", true),
        boton_spec(ID_WINDOW, Icono::CaptureWindow, "Ventana activa", true),
        boton_spec(ID_OBJECT, Icono::CaptureObject, "Objeto de ventana o menú", true),
        boton_spec(ID_REGION, Icono::CaptureRegion, "Región", true),
        boton_spec(ID_FIXED, Icono::CaptureFixed, "Región fija (rueda ajusta)", true),
        boton_spec(ID_SCROLL, Icono::CaptureScroll, "Captura con scroll", false),
        boton_spec(ID_DELAY, Icono::CaptureDelay, "Captura con retardo", true),
        Elemento::Separador,
        Elemento::Boton(
            BotonDef {
                id: ID_RECORD,
                icono: Icono::RecordStart,
                nombre: "Grabar vídeo",
                habilitado: false,
                grabacion: true,
            },
        ),
        Elemento::Separador,
        boton_spec(ID_EYEDROPPER, Icono::UtilEyedropper, "Cuentagotas", false),
        boton_spec(ID_MAGNIFIER, Icono::UtilMagnifier, "Lupa", false),
        boton_spec(ID_RULER, Icono::UtilRuler, "Regla", false),
        boton_spec(ID_CROSSHAIR, Icono::UtilCrosshair, "Crosshair", false),
        boton_spec(ID_PIN, Icono::UtilPin, "Fijar en pantalla", false),
        Elemento::Separador,
        boton_spec(ID_CONFIG, Icono::SysSettings, "Ajustes", false),
        boton_spec(ID_COLLAPSE, Icono::SysCollapse, "Colapsar barra", false),
        boton_spec(ID_CLOSE, Icono::SysClose, "Salir", true),
    ]
}

/// La fila completa de la barra, en orden visual. La mano alzada está
/// descartada: un botón que nunca se va a encender solo es ruido.
pub fn fila() -> (f: Vec<Elemento>)
    ensures
        f@ == fila_spec(),
{
    let mut f: Vec<Elemento> = Vec::new();
    f.push(Elemento::Asa);
    f.push(boton(ID_FULLSCREEN, Icono::CaptureFullscreen, "Pantalla completa", true));
    f.push(boton(ID_WINDOW, Icono::CaptureWindow, "Ventana activa", true));
    f.push(boton(ID_OBJECT, Icono::CaptureObject, "Objeto de ventana o menú", true));
    f.push(boton(ID_REGION, Icono::CaptureRegion, "Región", true));
    f.push(boton(ID_FIXED, Icono::CaptureFixed, "Región fija (rueda ajusta)", true));
    f.push(boton(ID_SCROLL, Icono::CaptureScroll, "Captura con scroll", false));
    f.push(boton(ID_DELAY, Icono::CaptureDelay, "Captura con retardo", true));
    f.push(Elemento::Separador);
    f.push(
        Elemento::Boton(
            BotonDef {
                id: ID_RECORD,
                icono: Icono::RecordStart,
                nombre: "Grabar vídeo",
                habilitado: false,
                grabacion: true,
            },
        ),
    );
    f.push(Elemento::Separador);
    f.push(boton(ID_EYEDROPPER, Icono::UtilEyedropper, "Cuentagotas", false));
    f.push(boton(ID_MAGNIFIER, Icono::UtilMagnifier, "Lupa", false));
    f.push(boton(ID_RULER, Icono::UtilRuler, "Regla", false));
    f.push(boton(ID_CROSSHAIR, Icono::UtilCrosshair, "Crosshair", false));
    f.push(boton(ID_PIN, Icono::UtilPin, "Fijar en pantalla", false));
    f.push(Elemento::Separador);
    f.push(boton(ID_CONFIG, Icono::SysSettings, "Ajustes", false));
    f.push(boton(ID_COLLAPSE, Icono::SysCollapse, "Colapsar barra", false));
    f.push(boton(ID_CLOSE, Icono::SysClose, "Salir", true));
    assert(f@ =~= fila_spec());
    f
}

/// Comandos del menú de la bandeja.
pub const MENU_FULLSCREEN: u16 = 2001;
pub const MENU_WINDOW: u16 = 2002;
pub const MENU_TOGGLE: u16 = 2003;
pub const MENU_QUIT: u16 = 2004;
pub const MENU_REPEAT: u16 = 2005;

/// `WM_APP`: primer mensaje libre para la aplicación.
pub const WM_APP: u32 = 0x8000;
/// Callback del icono de bandeja.
pub const WM_TRAY: u32 = WM_APP + 1;
/// Petición de selección de región: corre en el hilo de la interfaz.
pub const WM_APP_REGION: u32 = WM_APP + 2;
/// Captura para el editor (el `wparam` lleva el frame).
pub const WM_APP_EDITOR: u32 = WM_APP + 3;

/// Modo de una captura pedida desde la barra.
#[derive(Clone, Copy, PartialEq, Eq, Debug, Structural)]
pub enum ModoCaptura {
    Fullscreen,
    ActiveWindow,
}

/// Lo que pide un comando de la barra o del menú de la bandeja.
#[derive(Clone, Copy, PartialEq, Eq, Debug, Structural)]
pub enum AccionBarra {
    /// Capturar ya en un modo.
    Capturar(ModoCaptura),
    /// Abrir el overlay de región (se publica como mensaje a la propia
    /// ventana para salir del contexto del clic).
    Region,
    /// Capturar el monitor activo tras el retardo configurado.
    ConRetardo,
    /// Repetir la última captura hecha.
    Repetir,
    /// Mostrar u ocultar la barra.
    Alternar,
    /// Cerrar la barra (y con ella la aplicación).
    Salir,
    Nada,
}

pub open spec fn accion_barra_spec(id: u16) -> AccionBarra {
    if id == ID_FULLSCREEN || id == MENU_FULLSCREEN {
        AccionBarra::Capturar(ModoCaptura::Fullscreen)
    } else if id == ID_WINDOW || id == MENU_WINDOW {
        AccionBarra::Capturar(ModoCaptura::ActiveWindow)
    } else if id == ID_REGION {
        AccionBarra::Region
    } else if id == ID_DELAY {
        AccionBarra::ConRetardo
    } else if id == MENU_REPEAT {
        AccionBarra::Repetir
    } else if id == MENU_TOGGLE {
        AccionBarra::Alternar
    } else if id == ID_CLOSE || id == MENU_QUIT {
        AccionBarra::Salir
    } else {
        AccionBarra::Nada
    }
}

/// Qué pide el comando `id` (botón de la barra o entrada del menú).
pub fn accion_de_comando(id: u16) -> (a: AccionBarra)
    ensures
        a == accion_barra_spec(id),
{
    if id == ID_FULLSCREEN || id == MENU_FULLSCREEN {
        AccionBarra::Capturar(ModoCaptura::Fullscreen)
    } else if id == ID_WINDOW || id == MENU_WINDOW {
        AccionBarra::Capturar(ModoCaptura::ActiveWindow)
    } else if id == ID_REGION {
        AccionBarra::Region
    } else if id == ID_DELAY {
        AccionBarra::ConRetardo
    } else if id == MENU_REPEAT {
        AccionBarra::Repetir
    } else if id == MENU_TOGGLE {
        AccionBarra::Alternar
    } else if id == ID_CLOSE || id == MENU_QUIT {
        AccionBarra::Salir
    } else {
        AccionBarra::Nada
    }
}

/// Las combinaciones de teclas de la config, tal como se muestran.
pub struct HotkeysConfig {
    pub fullscreen: String,
    pub window: String,
    pub region: String,
    pub delay: String,
}

/// Tooltip de un botón: su nombre y, si anuncia un hotkey, la
/// combinación entre paréntesis.
pub open spec fn texto_tooltip_spec(nombre: Seq<char>, hotkey: Option<Seq<char>>) -> Seq<char> {
    match hotkey {
        Some(h) => nombre + " ("@ + h + ")"@,
        None => nombre,
    }
}

/// La combinación de la config que corresponde a un hotkey de tooltip.
pub open spec fn combinacion(h: HotkeyTooltip, hotkeys: &HotkeysConfig) -> Seq<char> {
    match h {
        HotkeyTooltip::Fullscreen => hotkeys.fullscreen@,
        HotkeyTooltip::Window => hotkeys.window@,
        HotkeyTooltip::Region => hotkeys.region@,
        HotkeyTooltip::Delay => hotkeys.delay@,
    }
}

/// Texto del tooltip de un botón: «Nombre (hotkey)» para los que
/// anuncian hotkey, solo el nombre para el resto.
pub fn texto_tooltip(def: &BotonDef, hotkeys: &HotkeysConfig) -> (s: String)
    ensures
        s@ == texto_tooltip_spec(
            def.nombre@,
            match hotkey_de(def.id) {
                Some(h) => Some(combinacion(h, hotkeys)),
                None => None,
            },
        ),
{
    let mut v = caracteres(def.nombre);
    match hotkey_tooltip(def.id) {
        Some(h) => {
            let combo = match h {
                HotkeyTooltip::Fullscreen => hotkeys.fullscreen.as_str(),
                HotkeyTooltip::Window => hotkeys.window.as_str(),
                HotkeyTooltip::Region => hotkeys.region.as_str(),
                HotkeyTooltip::Delay => hotkeys.delay.as_str(),
            };
            anadir(&mut v, &caracteres(" ("));
            anadir(&mut v, &caracteres(combo));
            anadir(&mut v, &caracteres(")"));
        },
        None => {},
    }
    cadena(&v)
}

/// A dónde va un `WM_HOTKEY` sin ventana.
#[derive(Clone, Copy, PartialEq, Eq, Debug, Structural)]
pub enum DestinoHotkey {
    /// El de región: se convierte en `WM_APP_REGION` para la barra.
    Region,
    /// Cualquier otro: al bus de eventos.
    Bus(HotkeyId),
}

pub fn destino_hotkey(id: HotkeyId, region: Option<HotkeyId>) -> (d: DestinoHotkey)
    ensures
        d == (if region == Some(id) {
            DestinoHotkey::Region
        } else {
            DestinoHotkey::Bus(id)
        }),
{
    match region {
        Some(r) => if r.0 == id.0 {
            DestinoHotkey::Region
        } else {
            DestinoHotkey::Bus(id)
        },
        None => DestinoHotkey::Bus(id),
    }
}

/// `WM_HOTKEY`.
pub const WM_HOTKEY: u32 = 0x0312;

/// Lo que hace el bucle del hilo de UI con un mensaje: un `WM_HOTKEY` sin
/// ventana lleva el id del atajo en los 32 bits bajos de `wparam` y va a
/// su destino; cualquier otro mensaje se despacha (`None`).
pub open spec fn mensaje_de_bucle_spec(
    mensaje: u32,
    sin_ventana: bool,
    wparam: usize,
    region: Option<HotkeyId>,
) -> Option<DestinoHotkey> {
    if mensaje == WM_HOTKEY && sin_ventana {
        let id = HotkeyId(((wparam as int) % 0x1_0000_0000) as u32);
        Some(if region == Some(id) {
            DestinoHotkey::Region
        } else {
            DestinoHotkey::Bus(id)
        })
    } else {
        None
    }
}

pub fn mensaje_de_bucle(mensaje: u32, sin_ventana: bool, wparam: usize, region: Option<HotkeyId>) -> (r:
    Option<DestinoHotkey>)
    ensures
        r == mensaje_de_bucle_spec(mensaje, sin_ventana, wparam, region),
{
    if mensaje == WM_HOTKEY && sin_ventana {
        assert((wparam as u32) as int == (wparam as int) % 0x1_0000_0000) by (bit_vector);
        let id = HotkeyId(#[verifier::truncate] (wparam as u32));
        Some(destino_hotkey(id, region))
    } else {
        None
    }
}

/// `WM_LBUTTONUP`, `WM_RBUTTONUP` y `WM_CONTEXTMENU`.
pub const WM_LBUTTONUP: u32 = 0x0202;
pub const WM_RBUTTONUP: u32 = 0x0205;
pub const WM_CONTEXTMENU: u32 = 0x007B;

/// Lo que pide un clic sobre el icono de la bandeja.
#[derive(Clone, Copy, PartialEq, Eq, Debug, Structural)]
pub enum AccionBandeja {
    /// Clic izquierdo: el mismo comando que «Mostrar/ocultar barra».
    Comando(u16),
    /// Clic derecho o menú contextual: abrir el menú.
    Menu,
    Nada,
}

/// El evento de ratón viene en la palabra baja del `lparam`.
pub fn accion_de_bandeja(lparam: isize) -> (a: AccionBandeja)
    ensures
        ({
            let ev = (lparam as int) % 65536;
            a == (if ev == WM_LBUTTONUP {
                AccionBandeja::Comando(MENU_TOGGLE)
            } else if ev == WM_RBUTTONUP || ev == WM_CONTEXTMENU {
                AccionBandeja::Menu
            } else {
                AccionBandeja::Nada
            })
        }),
{
    assert((lparam & 0xFFFF) == lparam % 65536) by (bit_vector);
    let ev = (lparam & 0xFFFF) as u32;
    if ev == WM_LBUTTONUP {
        AccionBandeja::Comando(MENU_TOGGLE)
    } else if ev == WM_RBUTTONUP || ev == WM_CONTEXTMENU {
        AccionBandeja::Menu
    } else {
        AccionBandeja::Nada
    }
}

/// Una entrada del menú de la bandeja: un comando con su texto, o una
/// línea separadora.
pub enum EntradaMenu {
    Comando(u16, &'static str),
    Separador,
}

pub open spec fn vista_entrada(e: EntradaMenu) -> Option<(u16, Seq<char>)> {
    match e {
        EntradaMenu::Comando(id, t) => Some((id, t@)),
        EntradaMenu::Separador => None,
    }
}

/// El menú de la bandeja, en orden.
pub open spec fn menu_bandeja_spec() -> Seq<Option<(u16, Seq<char>)>> {
    seq![
        Some((MENU_FULLSCREEN, "Capturar pantalla"@)),
        Some((MENU_WINDOW, "Capturar ventana"@)),
        None,
        Some((MENU_TOGGLE, "Mostrar/ocultar barra"@)),
        None,
        Some((MENU_QUIT, "Salir"@)),
    ]
}

pub fn menu_bandeja() -> (m: Vec<EntradaMenu>)
    ensures
        m@.map_values(|e: EntradaMenu| vista_entrada(e)) == menu_bandeja_spec(),
{
    let mut m: Vec<EntradaMenu> = Vec::new();
    m.push(EntradaMenu::Comando(MENU_FULLSCREEN, "Capturar pantalla"));
    m.push(EntradaMenu::Comando(MENU_WINDOW, "Capturar ventana"));
    m.push(EntradaMenu::Separador);
    m.push(EntradaMenu::Comando(MENU_TOGGLE, "Mostrar/ocultar barra"));
    m.push(EntradaMenu::Separador);
    m.push(EntradaMenu::Comando(MENU_QUIT, "Salir"));
    assert(m@.map_values(|e: EntradaMenu| vista_entrada(e)) =~= menu_bandeja_spec());
    m
}

/// Esquina del icono del asa, centrado en su caja.
pub fn posicion_asa(caja: &Caja, talla: u32) -> (p: (i32, i32))
    requires
        talla <= i32::MAX,
        i32::MIN <= caja.ancho - talla,
        i32::MIN <= caja.alto - talla,
        i32::MIN <= caja.x + cociente(caja.ancho - talla, 2) <= i32::MAX,
        i32::MIN <= caja.y + cociente(caja.alto - talla, 2) <= i32::MAX,
    ensures
        p.0 == caja.x + cociente(caja.ancho - talla, 2),
        p.1 == caja.y + cociente(caja.alto - talla, 2),
{
    (caja.x + (caja.ancho - talla as i32) / 2, caja.y + (caja.alto - talla as i32) / 2)
}

} // verus!
