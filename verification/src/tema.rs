//! Tema claro/oscuro: paletas de tokens en `COLORREF`, lectura de la
//! preferencia del sistema y de la config, y el código con que se guarda
//! el tema activo del proceso.

use vstd::prelude::*;
use crate::texto::{caracteres, iguales};

verus! {

#[derive(Clone, Copy, PartialEq, Eq, Debug, Structural)]
pub enum Tema {
    Claro,
    Oscuro,
}

/// Preferencia de tema de la config.
#[derive(Clone, Copy, PartialEq, Eq, Debug, Structural)]
pub enum ThemeMode {
    Auto,
    Light,
    Dark,
}

/// Tokens de color en `COLORREF` (0x00BBGGRR).
#[derive(Clone, Copy, PartialEq, Eq, Debug, Structural)]
pub struct Paleta {
    /// Fondo de ventana.
    pub fondo: u32,
    /// Paneles y barras sobre el fondo.
    pub superficie: u32,
    pub texto: u32,
    pub texto_secundario: u32,
    pub borde: u32,
    /// Fondo de botón bajo el cursor.
    pub hover: u32,
    /// Fondo de botón pulsado.
    pub pressed: u32,
    /// Selección y acción primaria (#0067C0).
    pub acento: u32,
    /// Estado de grabación (#D83B01).
    pub grabacion: u32,
    /// Fondo del área de canvas del editor.
    pub canvas: u32,
}

/// `COLORREF` de un color RGB: 0x00BBGGRR.
pub open spec fn rgb_spec(r: u32, g: u32, b: u32) -> u32 {
    (r + g * 256 + b * 65536) as u32
}

/// `COLORREF` de un color RGB de canales de 8 bits.
pub fn rgb(r: u32, g: u32, b: u32) -> (c: u32)
    requires
        r < 256,
        g < 256,
        b < 256,
    ensures
        c == rgb_spec(r, g, b),
{
    assert(r | (g << 8) | (b << 16) == r + g * 256 + b * 65536) by (bit_vector)
        requires
            r < 256,
            g < 256,
            b < 256,
    ;
    r | (g << 8) | (b << 16)
}

/// Paleta del tema claro.
pub open spec fn claro_spec() -> Paleta {
    Paleta {
        fondo: rgb_spec(0xF3, 0xF3, 0xF3),
        superficie: rgb_spec(0xFF, 0xFF, 0xFF),
        texto: rgb_spec(0x1A, 0x1A, 0x1A),
        texto_secundario: rgb_spec(0x5A, 0x5A, 0x5A),
        borde: rgb_spec(0xD0, 0xD0, 0xD0),
        hover: rgb_spec(0xE4, 0xE4, 0xE4),
        pressed: rgb_spec(0xD6, 0xD6, 0xD6),
        acento: rgb_spec(0x00, 0x67, 0xC0),
        grabacion: rgb_spec(0xD8, 0x3B, 0x01),
        canvas: rgb_spec(0xDA, 0xDA, 0xDA),
    }
}

/// Paleta del tema oscuro.
pub open spec fn oscuro_spec() -> Paleta {
    Paleta {
        fondo: rgb_spec(0x20, 0x20, 0x20),
        superficie: rgb_spec(0x2B, 0x2B, 0x2B),
        texto: rgb_spec(0xE8, 0xE8, 0xE8),
        texto_secundario: rgb_spec(0x9A, 0x9A, 0x9A),
        borde: rgb_spec(0x3F, 0x3F, 0x3F),
        hover: rgb_spec(0x3A, 0x3A, 0x3A),
        pressed: rgb_spec(0x45, 0x45, 0x45),
        acento: rgb_spec(0x00, 0x67, 0xC0),
        grabacion: rgb_spec(0xD8, 0x3B, 0x01),
        canvas: rgb_spec(0x19, 0x19, 0x19),
    }
}

/// Paleta del tema claro.
pub fn claro() -> (p: Paleta)
    ensures
        p == claro_spec(),
{
    Paleta {
        fondo: rgb(0xF3, 0xF3, 0xF3),
        superficie: rgb(0xFF, 0xFF, 0xFF),
        texto: rgb(0x1A, 0x1A, 0x1A),
        texto_secundario: rgb(0x5A, 0x5A, 0x5A),
        borde: rgb(0xD0, 0xD0, 0xD0),
        hover: rgb(0xE4, 0xE4, 0xE4),
        pressed: rgb(0xD6, 0xD6, 0xD6),
        acento: rgb(0x00, 0x67, 0xC0),
        grabacion: rgb(0xD8, 0x3B, 0x01),
        canvas: rgb(0xDA, 0xDA, 0xDA),
    }
}

/// Paleta del tema oscuro.
pub fn oscuro() -> (p: Paleta)
    ensures
        p == oscuro_spec(),
{
    Paleta {
        fondo: rgb(0x20, 0x20, 0x20),
        superficie: rgb(0x2B, 0x2B, 0x2B),
        texto: rgb(0xE8, 0xE8, 0xE8),
        texto_secundario: rgb(0x9A, 0x9A, 0x9A),
        borde: rgb(0x3F, 0x3F, 0x3F),
        hover: rgb(0x3A, 0x3A, 0x3A),
        pressed: rgb(0x45, 0x45, 0x45),
        acento: rgb(0x00, 0x67, 0xC0),
        grabacion: rgb(0xD8, 0x3B, 0x01),
        canvas: rgb(0x19, 0x19, 0x19),
    }
}

impl Tema {
    pub fn paleta(self) -> (p: Paleta)
        ensures
            p == (match self {
                Tema::Claro => claro_spec(),
                Tema::Oscuro => oscuro_spec(),
            }),
    {
        match self {
            Tema::Claro => claro(),
            Tema::Oscuro => oscuro(),
        }
    }

    pub fn es_oscuro(self) -> (b: bool)
        ensures
            b == (self == Tema::Oscuro),
    {
        match self {
            Tema::Oscuro => true,
            Tema::Claro => false,
        }
    }
}

/// Interpretación del valor `AppsUseLightTheme` del registro: 0 = apps en
/// oscuro; 1, otro valor o clave ausente (Windows sin la opción) = claro.
pub fn tema_del_sistema(apps_use_light_theme: Option<u32>) -> (t: Tema)
    ensures
        t == (if apps_use_light_theme == Some(0u32) {
            Tema::Oscuro
        } else {
            Tema::Claro
        }),
{
    match apps_use_light_theme {
        Some(0) => Tema::Oscuro,
        _ => Tema::Claro,
    }
}

/// Aplica la preferencia de config sobre lo que diga el sistema.
pub fn resolver(modo: ThemeMode, sistema: Tema) -> (t: Tema)
    ensures
        t == match modo {
            ThemeMode::Auto => sistema,
            ThemeMode::Light => Tema::Claro,
            ThemeMode::Dark => Tema::Oscuro,
        },
{
    match modo {
        ThemeMode::Auto => sistema,
        ThemeMode::Light => Tema::Claro,
        ThemeMode::Dark => Tema::Oscuro,
    }
}

/// Código con que se guarda un tema: 0 = claro, 1 = oscuro.
pub open spec fn codigo_de_tema_spec(t: Tema) -> u8 {
    if t == Tema::Oscuro {
        1
    } else {
        0
    }
}

/// Tema de un código guardado: 1 es oscuro; cualquier otro, claro.
pub open spec fn tema_de_codigo_spec(codigo: u8) -> Tema {
    if codigo == 1 {
        Tema::Oscuro
    } else {
        Tema::Claro
    }
}

/// Código con que se guarda el tema activo.
pub fn codigo_de_tema(t: Tema) -> (c: u8)
    ensures
        c == codigo_de_tema_spec(t),
{
    if t.es_oscuro() {
        1
    } else {
        0
    }
}

/// Tema que representa un código guardado.
pub fn tema_de_codigo(codigo: u8) -> (t: Tema)
    ensures
        t == tema_de_codigo_spec(codigo),
{
    if codigo == 1 {
        Tema::Oscuro
    } else {
        Tema::Claro
    }
}

/// Leer el tema guardado devuelve el último que se guardó.
pub proof fn ley_el_tema_guardado_se_relee(t: Tema)
    ensures
        tema_de_codigo_spec(codigo_de_tema_spec(t)) == t,
{
}

/// Código con que se guarda la preferencia de tema: 0 = automático,
/// 1 = claro, 2 = oscuro.
pub open spec fn codigo_de_modo_spec(m: ThemeMode) -> u8 {
    match m {
        ThemeMode::Auto => 0,
        ThemeMode::Light => 1,
        ThemeMode::Dark => 2,
    }
}

/// Preferencia de un código guardado: 1 claro, 2 oscuro; cualquier otro
/// valor, automático.
pub open spec fn modo_de_codigo_spec(c: u8) -> ThemeMode {
    if c == 1 {
        ThemeMode::Light
    } else if c == 2 {
        ThemeMode::Dark
    } else {
        ThemeMode::Auto
    }
}

/// Código con que se guarda la preferencia de tema.
pub fn codigo_de_modo(m: ThemeMode) -> (c: u8)
    ensures
        c == codigo_de_modo_spec(m),
{
    match m {
        ThemeMode::Auto => 0,
        ThemeMode::Light => 1,
        ThemeMode::Dark => 2,
    }
}

/// Preferencia que representa un código guardado.
pub fn modo_de_codigo(c: u8) -> (m: ThemeMode)
    ensures
        m == modo_de_codigo_spec(c),
{
    if c == 1 {
        ThemeMode::Light
    } else if c == 2 {
        ThemeMode::Dark
    } else {
        ThemeMode::Auto
    }
}

/// Leer la preferencia guardada devuelve la última que se guardó.
pub proof fn ley_el_modo_guardado_se_relee(m: ThemeMode)
    ensures
        modo_de_codigo_spec(codigo_de_modo_spec(m)) == m,
{
}

/// ¿El texto que trae `WM_SETTINGCHANGE` anuncia un cambio de tema?
pub fn anuncia_cambio_de_tema(texto: &str) -> (b: bool)
    ensures
        b == (texto@ == "ImmersiveColorSet"@),
{
    iguales(&caracteres(texto), &caracteres("ImmersiveColorSet"))
}

} // verus!
