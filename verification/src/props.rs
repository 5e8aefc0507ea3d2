//! Barra de propiedades contextual del editor: los chips que se ofrecen
//! para la herramienta activa ("Grosor 2 px · Color ■ …").

use vstd::prelude::*;
use crate::color::{color_por_defecto, Color};
use crate::aritmetica::cociente;
use crate::dpi::Escala;
use crate::editor::Herramienta;
use crate::geometria::Zona;
use crate::texto::{anadir, cadena, caracteres, decimal, escribir_decimal};

verus! {

/// Grosores de trazo que ofrece el menú.
pub const GROSORES: [u32; 5] = [1, 2, 3, 5, 8];
/// Tamaños de texto que ofrece el menú.
pub const TAMANOS: [u32; 5] = [12, 16, 20, 28, 36];
/// Lados de bloque o radios de la censura que ofrece el menú.
pub const CENSURAS: [u32; 5] = [4, 8, 12, 16, 24];

/// Modo de censura del pixelado con su parámetro en px.
#[derive(Clone, Copy, PartialEq, Eq, Debug, Structural)]
pub enum CensorMode {
    Mosaic { block: u32 },
    Blur { radius: u32 },
}

/// Propiedades de la herramienta activa.
#[derive(Clone, Copy, Debug)]
pub struct Propiedades {
    pub grosor: u32,
    /// Tamaño del texto en px (los del menú son enteros).
    pub tamano_texto: u32,
    pub negrita: bool,
    pub color: Color,
    pub censura: CensorMode,
}

impl Default for Propiedades {
    fn default() -> (p: Propiedades)
        ensures
            p.grosor == 3,
            p.tamano_texto == 20,
            !p.negrita,
            p.color == (Color { r: 0xD8, g: 0x3B, b: 0x01, a: 255 }),
            p.censura == (CensorMode::Mosaic { block: 8 }),
    {
        Propiedades {
            grosor: 3,
            tamano_texto: 20,
            negrita: false,
            color: color_por_defecto(),
            censura: CensorMode::Mosaic { block: 8 },
        }
    }
}

/// Parámetro en px del modo de censura.
pub open spec fn px_de_censura(c: CensorMode) -> u32 {
    match c {
        CensorMode::Mosaic { block } => block,
        CensorMode::Blur { radius } => radius,
    }
}

impl Propiedades {
    /// Lado del bloque (mosaico) o radio (desenfoque) de la censura.
    pub fn censura_px(&self) -> (px: u32)
        ensures
            px == px_de_censura(self.censura),
    {
        match self.censura {
            CensorMode::Mosaic { block } => block,
            CensorMode::Blur { radius } => radius,
        }
    }
}

#[derive(Clone, Copy, PartialEq, Eq, Debug, Structural)]
pub enum Accion {
    MenuGrosor,
    MenuTamano,
    ToggleNegrita,
    ElegirColor,
    ToggleCensura,
    MenuCensuraPx,
}

#[derive(PartialEq, Debug)]
pub struct Chip {
    pub etiqueta: String,
    /// El chip lleva una muestra de color al lado del texto.
    pub muestra_color: bool,
    pub accion: Accion,
}

/// Lo que un chip muestra y hace.
pub open spec fn vista_chip(c: Chip) -> (Seq<char>, bool, Accion) {
    (c.etiqueta@, c.muestra_color, c.accion)
}

/// Etiqueta del chip de modo y nombre del parámetro en px.
pub open spec fn textos_censura(modo: CensorMode) -> (Seq<char>, Seq<char>) {
    match modo {
        CensorMode::Mosaic { .. } => ("Modo: mosaico"@, "Bloque"@),
        CensorMode::Blur { .. } => ("Modo: desenfoque"@, "Radio"@),
    }
}

fn texto_censura(modo: CensorMode) -> (r: (&'static str, &'static str))
    ensures
        (r.0@, r.1@) == textos_censura(modo),
{
    match modo {
        CensorMode::Mosaic { .. } => ("Modo: mosaico", "Bloque"),
        CensorMode::Blur { .. } => ("Modo: desenfoque", "Radio"),
    }
}

/// Chip de color (con muestra).
pub open spec fn chip_color() -> (Seq<char>, bool, Accion) {
    ("Color"@, true, Accion::ElegirColor)
}

/// Chip del tamaño de texto.
pub open spec fn chip_tamano(p: Propiedades) -> (Seq<char>, bool, Accion) {
    ("Tamaño "@ + decimal(p.tamano_texto as nat), false, Accion::MenuTamano)
}

/// Chips que se ofrecen para la herramienta activa.
pub open spec fn chips_spec(h: Herramienta, p: Propiedades) -> Seq<(Seq<char>, bool, Accion)> {
    match h {
        Herramienta::Seleccion | Herramienta::Goma => Seq::empty(),
        Herramienta::Texto => seq![
            chip_tamano(p),
            (
                "Negrita: "@ + (if p.negrita {
                    "sí"@
                } else {
                    "no"@
                }),
                false,
                Accion::ToggleNegrita,
            ),
            chip_color(),
        ],
        Herramienta::Resaltador => seq![chip_color()],
        Herramienta::Pixelado => seq![
            (textos_censura(p.censura).0, false, Accion::ToggleCensura),
            (
                textos_censura(p.censura).1 + " "@ + decimal(px_de_censura(p.censura) as nat)
                    + " px"@,
                false,
                Accion::MenuCensuraPx,
            ),
        ],
        Herramienta::Pasos => seq![chip_tamano(p), chip_color()],
        _ => seq![
            ("Grosor "@ + decimal(p.grosor as nat) + " px"@, false, Accion::MenuGrosor),
            chip_color(),
        ],
    }
}

fn chip(texto: &[char], muestra_color: bool, accion: Accion) -> (c: Chip)
    ensures
        vista_chip(c) == (texto@, muestra_color, accion),
{
    Chip { etiqueta: cadena(texto), muestra_color, accion }
}

fn chip_de_color() -> (c: Chip)
    ensures
        vista_chip(c) == chip_color(),
{
    chip(&caracteres("Color"), true, Accion::ElegirColor)
}

fn chip_de_tamano(p: &Propiedades) -> (c: Chip)
    ensures
        vista_chip(c) == chip_tamano(*p),
{
    let mut t = caracteres("Tamaño ");
    escribir_decimal(&mut t, p.tamano_texto as u64);
    chip(&t, false, Accion::MenuTamano)
}

/// Composición de los chips para la herramienta activa.
pub fn chips(herramienta: Herramienta, p: &Propiedades) -> (r: Vec<Chip>)
    ensures
        r@.map_values(|c: Chip| vista_chip(c)) == chips_spec(herramienta, *p),
{
    let mut r: Vec<Chip> = Vec::new();
    match herramienta {
        Herramienta::Seleccion | Herramienta::Goma => {},
        Herramienta::Texto => {
            r.push(chip_de_tamano(p));
            let mut t = caracteres("Negrita: ");
            if p.negrita {
                anadir(&mut t, &caracteres("sí"));
            } else {
                anadir(&mut t, &caracteres("no"));
            }
            r.push(chip(&t, false, Accion::ToggleNegrita));
            r.push(chip_de_color());
        },
        Herramienta::Resaltador => {
            r.push(chip_de_color());
        },
        Herramienta::Pixelado => {
            let (modo, px) = texto_censura(p.censura);
            r.push(chip(&caracteres(modo), false, Accion::ToggleCensura));
            let mut t = caracteres(px);
            anadir(&mut t, &caracteres(" "));
            escribir_decimal(&mut t, p.censura_px() as u64);
            anadir(&mut t, &caracteres(" px"));
            r.push(chip(&t, false, Accion::MenuCensuraPx));
        },
        Herramienta::Pasos => {
            r.push(chip_de_tamano(p));
            r.push(chip_de_color());
        },
        _ => {
            let mut t = caracteres("Grosor ");
            escribir_decimal(&mut t, p.grosor as u64);
            anadir(&mut t, &caracteres(" px"));
            r.push(chip(&t, false, Accion::MenuGrosor));
            r.push(chip_de_color());
        },
    }
    assert(r@.map_values(|c: Chip| vista_chip(c)) =~= chips_spec(herramienta, *p));
    r
}

/// Dónde cae un chip en la banda de propiedades.
#[derive(Clone, Copy, PartialEq, Eq, Debug, Structural)]
pub struct ZonaChip {
    /// Zona clicable (texto y, si la hay, muestra).
    pub zona: Zona,
    /// Caja de la muestra de color, para los chips que la llevan.
    pub muestra: Option<Zona>,
    pub accion: Accion,
}

/// Medidas de la banda a una escala: margen izquierdo, hueco entre texto
/// y muestra, lado de la muestra y separación entre chips.
pub struct MedidasChips {
    pub margen: i32,
    pub hueco: i32,
    pub muestra: i32,
    pub separacion: i32,
}

/// Las medidas de la banda: 12, 6, 14 y 16 unidades lógicas.
pub fn medidas_chips(escala: Escala) -> (m: MedidasChips)
    ensures
        m.margen as int == (escala.px_spec(12) as i32) as int,
        m.hueco as int == (escala.px_spec(6) as i32) as int,
        m.muestra as int == (escala.px_spec(14) as i32) as int,
        m.separacion as int == (escala.px_spec(16) as i32) as int,
{
    MedidasChips {
        margen: escala.px(12),
        hueco: escala.px(6),
        muestra: escala.px(14),
        separacion: escala.px(16),
    }
}

/// Ancho del chip `k`: su texto más, si lleva muestra, hueco y muestra.
pub open spec fn ancho_chip(con_muestra: bool, texto: int, m: MedidasChips) -> int {
    texto + if con_muestra {
        m.hueco + m.muestra
    } else {
        0
    }
}

/// Borde izquierdo del chip `k`: tras el margen, cada chip anterior y su
/// separación.
pub open spec fn x_chip(muestras: Seq<bool>, anchos: Seq<i32>, inicio: int, m: MedidasChips, k: nat) -> int
    decreases k,
{
    if k == 0 {
        inicio
    } else {
        x_chip(muestras, anchos, inicio, m, (k - 1) as nat) + ancho_chip(
            muestras[k - 1],
            anchos[k - 1] as int,
            m,
        ) + m.separacion
    }
}

/// Zona y muestra del chip `k` en la banda.
pub open spec fn zona_chip_spec(
    muestras: Seq<bool>,
    anchos: Seq<i32>,
    acciones: Seq<Accion>,
    banda: Zona,
    m: MedidasChips,
    k: int,
) -> ZonaChip {
    let x = x_chip(muestras, anchos, banda.left + m.margen, m, k as nat);
    let ancho = ancho_chip(muestras[k], anchos[k] as int, m);
    let cy = cociente(banda.top + banda.bottom, 2);
    let izq = x + anchos[k] + m.hueco;
    ZonaChip {
        zona: Zona { left: x as i32, top: banda.top, right: (x + ancho) as i32, bottom: banda.bottom },
        muestra: if muestras[k] {
            Some(
                Zona {
                    left: izq as i32,
                    top: (cy - cociente(m.muestra as int, 2)) as i32,
                    right: (izq + m.muestra) as i32,
                    bottom: (cy + cociente(m.muestra as int, 2)) as i32,
                },
            )
        } else {
            None
        },
        accion: acciones[k],
    }
}

/// Las cuentas de 32 bits de la disposición no desbordan.
pub open spec fn chips_caben(muestras: Seq<bool>, anchos: Seq<i32>, banda: Zona, m: MedidasChips) -> bool {
    let inicio = banda.left + m.margen;
    &&& i32::MIN <= inicio <= i32::MAX
    &&& i32::MIN <= banda.top + banda.bottom <= i32::MAX
    &&& i32::MIN <= m.hueco + m.muestra <= i32::MAX
    &&& forall|k: nat|
        k < muestras.len() ==> {
            let x = #[trigger] x_chip(muestras, anchos, inicio, m, k);
            &&& i32::MIN <= x + anchos[k as int] + m.hueco + m.muestra <= i32::MAX
            &&& i32::MIN <= x + anchos[k as int] + m.hueco <= i32::MAX
            &&& i32::MIN <= x + anchos[k as int] <= i32::MAX
            &&& i32::MIN <= x + ancho_chip(muestras[k as int], anchos[k as int] as int, m) <= i32::MAX
            &&& i32::MIN <= x + ancho_chip(muestras[k as int], anchos[k as int] as int, m) + m.separacion <= i32::MAX
        }
    &&& i32::MIN <= cociente(banda.top + banda.bottom, 2) - cociente(m.muestra as int, 2)
        <= i32::MAX
    &&& i32::MIN <= cociente(banda.top + banda.bottom, 2) + cociente(m.muestra as int, 2)
        <= i32::MAX
}

fn mitad(v: i32) -> (r: i32)
    ensures
        r == cociente(v as int, 2),
{
    let r = v / 2;
    assert(r == cociente(v as int, 2)) by {
        if v < 0 {
            assert(r == -((-v) / 2));
        }
    }
    r
}

/// Zonas de los chips de la banda, de izquierda a derecha. `anchos[k]` es
/// lo que mide el texto del chip `k` con la fuente de la banda.
pub fn disponer_chips(chips: &[Chip], anchos: &[i32], banda: Zona, m: &MedidasChips) -> (r: Vec<ZonaChip>)
    requires
        anchos@.len() == chips@.len(),
        chips_caben(chips@.map_values(|c: Chip| c.muestra_color), anchos@, banda, *m),
    ensures
        r@.len() == chips@.len(),
        forall|k: int|
            0 <= k < chips@.len() ==> #[trigger] r@[k] == zona_chip_spec(
                chips@.map_values(|c: Chip| c.muestra_color),
                anchos@,
                chips@.map_values(|c: Chip| c.accion),
                banda,
                *m,
                k,
            ),
{
    let ghost muestras = chips@.map_values(|c: Chip| c.muestra_color);
    let ghost acciones = chips@.map_values(|c: Chip| c.accion);
    let inicio = banda.left + m.margen;
    let cy = mitad(banda.top + banda.bottom);
    let media = mitad(m.muestra);
    let mut x: i32 = inicio;
    let mut r: Vec<ZonaChip> = Vec::new();
    let mut k: usize = 0;
    while k < chips.len()
        invariant
            anchos@.len() == chips@.len(),
            muestras == chips@.map_values(|c: Chip| c.muestra_color),
            acciones == chips@.map_values(|c: Chip| c.accion),
            chips_caben(muestras, anchos@, banda, *m),
            inicio == banda.left + m.margen,
            cy == cociente(banda.top + banda.bottom, 2),
            media == cociente(m.muestra as int, 2),
            k <= chips@.len(),
            x == x_chip(muestras, anchos@, inicio as int, *m, k as nat),
            r@.len() == k,
            forall|j: int|
                0 <= j < k ==> #[trigger] r@[j] == zona_chip_spec(
                    muestras,
                    anchos@,
                    acciones,
                    banda,
                    *m,
                    j,
                ),
        decreases chips@.len() - k,
    {
        let ghost kn = k as nat;
        assert(x == x_chip(muestras, anchos@, inicio as int, *m, kn));
        let con = chips[k].muestra_color;
        assert(con == muestras[k as int]);
        let texto_fin = x + anchos[k];
        let fin = if con {
            texto_fin + (m.hueco + m.muestra)
        } else {
            texto_fin
        };
        let muestra = if con {
            let izq = texto_fin + m.hueco;
            Some(Zona { left: izq, top: cy - media, right: izq + m.muestra, bottom: cy + media })
        } else {
            None
        };
        r.push(ZonaChip { zona: Zona { left: x, top: banda.top, right: fin, bottom: banda.bottom }, muestra, accion: chips[k].accion });
        assert(r@[k as int] == zona_chip_spec(muestras, anchos@, acciones, banda, *m, k as int));
        x = fin + m.separacion;
        k = k + 1;
    }
    r
}

/// El primer chip cuya zona contiene el punto.
pub open spec fn chip_en_spec(zonas: Seq<ZonaChip>, p: (i32, i32)) -> Option<Accion>
    decreases zonas.len(),
{
    if zonas.len() == 0 {
        None
    } else if zonas[0].zona.tiene_punto(p) {
        Some(zonas[0].accion)
    } else {
        chip_en_spec(zonas.drop_first(), p)
    }
}

/// Qué chip se pulsó en `p`, si alguno.
pub fn chip_en(zonas: &[ZonaChip], p: (i32, i32)) -> (a: Option<Accion>)
    ensures
        a == chip_en_spec(zonas@, p),
{
    let mut i: usize = 0;
    assert(zonas@.skip(0) =~= zonas@);
    while i < zonas.len()
        invariant
            i <= zonas@.len(),
            chip_en_spec(zonas@, p) == chip_en_spec(zonas@.skip(i as int), p),
        decreases zonas@.len() - i,
    {
        assert(zonas@.skip(i as int).drop_first() =~= zonas@.skip(i + 1));
        if zonas[i].zona.contiene(p) {
            return Some(zonas[i].accion);
        }
        i = i + 1;
    }
    None
}

/// Etiquetas del menú de un valor en px: «N px» cada una.
pub fn etiquetas_px(valores: &[u32]) -> (r: Vec<String>)
    ensures
        r@.len() == valores@.len(),
        forall|i: int| 0 <= i < valores@.len() ==> (#[trigger] r@[i])@ == decimal(valores@[i] as nat) + " px"@,
{
    let mut r: Vec<String> = Vec::new();
    let mut i: usize = 0;
    while i < valores.len()
        invariant
            i <= valores@.len(),
            r@.len() == i,
            forall|j: int| 0 <= j < i ==> (#[trigger] r@[j])@ == decimal(valores@[j] as nat) + " px"@,
        decreases valores@.len() - i,
    {
        let mut t: Vec<char> = Vec::new();
        escribir_decimal(&mut t, valores[i] as u64);
        anadir(&mut t, &caracteres(" px"));
        r.push(cadena(&t));
        i = i + 1;
    }
    r
}

/// Posición del valor vigente entre las opciones (la que sale marcada).
pub fn posicion(valores: &[u32], actual: u32) -> (r: Option<usize>)
    ensures
        match r {
            Some(i) => i < valores@.len() && valores@[i as int] == actual && forall|j: int|
                0 <= j < i ==> valores@[j] != actual,
            None => forall|j: int| 0 <= j < valores@.len() ==> valores@[j] != actual,
        },
{
    let mut i: usize = 0;
    while i < valores.len()
        invariant
            i <= valores@.len(),
            forall|j: int| 0 <= j < i ==> valores@[j] != actual,
        decreases valores@.len() - i,
    {
        if valores[i] == actual {
            return Some(i);
        }
        i = i + 1;
    }
    None
}

} // verus!
