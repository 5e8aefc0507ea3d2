//! Iconos de toolbar: máscaras de cobertura A8 (una por icono y talla,
//! concatenadas en el orden del enum) tintadas con el color del tema.

use vstd::prelude::*;

verus! {

/// Iconos disponibles en los atlas A8, en el orden de los atlas.
#[derive(Clone, Copy, PartialEq, Eq, Hash, Debug, Structural)]
pub enum Icono {
    SysDragHandle,
    CaptureFullscreen,
    CaptureWindow,
    CaptureRegion,
    CaptureDelay,
    CaptureObject,
    CaptureFreehand,
    CaptureFixed,
    CaptureScroll,
    RecordStart,
    UtilEyedropper,
    UtilMagnifier,
    UtilRuler,
    UtilCrosshair,
    UtilPin,
    SysSettings,
    SysCollapse,
    SysClose,
    AnnotateSelect,
    AnnotateText,
    AnnotateArrow,
    AnnotateLine,
    AnnotateShape,
    AnnotateEllipse,
    AnnotatePencil,
    AnnotateHighlight,
    AnnotateSteps,
    AnnotateCaption,
    AnnotatePixelate,
    AnnotateEraser,
    AnnotateCrop,
    EditResize,
    EditUndo,
    EditRedo,
    OutputCopy,
    OutputSave,
    OutputSaveAs,
    OutputPrint,
    EditRotate,
    OutputEmail,
    OutputOpen,
}

/// Número de iconos de cada atlas.
pub const NUM_ICONOS: usize = 41;

/// Tallas físicas generadas: cubren DPI 100/125/150/175/200 %.
pub const TALLAS: [u32; 5] = [16, 20, 24, 28, 32];

/// Opacidad del tinte: 255 normal.
pub const OPACO: u8 = 255;

/// Opacidad del tinte de un botón deshabilitado (~40 %).
pub const DESHABILITADO: u8 = 102;

/// Posición del icono dentro de cada atlas.
pub open spec fn indice_de(icono: Icono) -> nat {
    match icono {
        Icono::SysDragHandle => 0,
        Icono::CaptureFullscreen => 1,
        Icono::CaptureWindow => 2,
        Icono::CaptureRegion => 3,
        Icono::CaptureDelay => 4,
        Icono::CaptureObject => 5,
        Icono::CaptureFreehand => 6,
        Icono::CaptureFixed => 7,
        Icono::CaptureScroll => 8,
        Icono::RecordStart => 9,
        Icono::UtilEyedropper => 10,
        Icono::UtilMagnifier => 11,
        Icono::UtilRuler => 12,
        Icono::UtilCrosshair => 13,
        Icono::UtilPin => 14,
        Icono::SysSettings => 15,
        Icono::SysCollapse => 16,
        Icono::SysClose => 17,
        Icono::AnnotateSelect => 18,
        Icono::AnnotateText => 19,
        Icono::AnnotateArrow => 20,
        Icono::AnnotateLine => 21,
        Icono::AnnotateShape => 22,
        Icono::AnnotateEllipse => 23,
        Icono::AnnotatePencil => 24,
        Icono::AnnotateHighlight => 25,
        Icono::AnnotateSteps => 26,
        Icono::AnnotateCaption => 27,
        Icono::AnnotatePixelate => 28,
        Icono::AnnotateEraser => 29,
        Icono::AnnotateCrop => 30,
        Icono::EditResize => 31,
        Icono::EditUndo => 32,
        Icono::EditRedo => 33,
        Icono::OutputCopy => 34,
        Icono::OutputSave => 35,
        Icono::OutputSaveAs => 36,
        Icono::OutputPrint => 37,
        Icono::EditRotate => 38,
        Icono::OutputEmail => 39,
        Icono::OutputOpen => 40,
    }
}

impl Icono {
    /// Posición del icono dentro de cada atlas (offset = índice × lado²).
    pub fn indice(self) -> (r: usize)
        ensures
            r == indice_de(self),
            r < NUM_ICONOS,
    {
        match self {
            Icono::SysDragHandle => 0,
            Icono::CaptureFullscreen => 1,
            Icono::CaptureWindow => 2,
            Icono::CaptureRegion => 3,
            Icono::CaptureDelay => 4,
            Icono::CaptureObject => 5,
            Icono::CaptureFreehand => 6,
            Icono::CaptureFixed => 7,
            Icono::CaptureScroll => 8,
            Icono::RecordStart => 9,
            Icono::UtilEyedropper => 10,
            Icono::UtilMagnifier => 11,
            Icono::UtilRuler => 12,
            Icono::UtilCrosshair => 13,
            Icono::UtilPin => 14,
            Icono::SysSettings => 15,
            Icono::SysCollapse => 16,
            Icono::SysClose => 17,
            Icono::AnnotateSelect => 18,
            Icono::AnnotateText => 19,
            Icono::AnnotateArrow => 20,
            Icono::AnnotateLine => 21,
            Icono::AnnotateShape => 22,
            Icono::AnnotateEllipse => 23,
            Icono::AnnotatePencil => 24,
            Icono::AnnotateHighlight => 25,
            Icono::AnnotateSteps => 26,
            Icono::AnnotateCaption => 27,
            Icono::AnnotatePixelate => 28,
            Icono::AnnotateEraser => 29,
            Icono::AnnotateCrop => 30,
            Icono::EditResize => 31,
            Icono::EditUndo => 32,
            Icono::EditRedo => 33,
            Icono::OutputCopy => 34,
            Icono::OutputSave => 35,
            Icono::OutputSaveAs => 36,
            Icono::OutputPrint => 37,
            Icono::EditRotate => 38,
            Icono::OutputEmail => 39,
            Icono::OutputOpen => 40,
        }
    }
}


/// Talla ideal: `16 lógicos` a `dpi`, redondeando hacia arriba.
pub open spec fn talla_ideal(dpi: u32) -> int {
    (16 * dpi + 95) / 96
}

/// La menor talla generada que no se queda corta; por encima de 200 %,
/// la mayor.
pub open spec fn talla_para(dpi: u32) -> u32 {
    let ideal = talla_ideal(dpi);
    if 16 >= ideal {
        16
    } else if 20 >= ideal {
        20
    } else if 24 >= ideal {
        24
    } else if 28 >= ideal {
        28
    } else {
        32
    }
}

/// Talla física del icono para un DPI: la menor talla generada que cubre
/// `16 lógicos` sin quedarse corta; por encima de 200 % se usa la mayor
/// (el que pinta escala desde 32 si de verdad necesita más).
pub fn talla_para_dpi(dpi: u32) -> (t: u32)
    requires
        16 * dpi <= u32::MAX,
    ensures
        t == talla_para(dpi),
        TALLAS@.contains(t),
{
    let producto = 16 * dpi;
    let ideal = if producto % 96 == 0 {
        producto / 96
    } else {
        producto / 96 + 1
    };
    assert(ideal == talla_ideal(dpi));
    let tallas = TALLAS;
    let mut i: usize = 0;
    while i < 5
        invariant
            tallas@ == TALLAS@,
            i <= 5,
            ideal == talla_ideal(dpi),
            forall|k: int| 0 <= k < i ==> tallas@[k] < ideal,
        decreases 5 - i,
    {
        if tallas[i] >= ideal {
            assert(tallas@[i as int] == talla_para(dpi));
            assert(TALLAS@.contains(tallas@[i as int]));
            return tallas[i];
        }
        i = i + 1;
    }
    assert(TALLAS@[4] == 32);
    assert(TALLAS@.contains(32));
    tallas[4]
}

/// Máscara A8 de un icono dentro del atlas de una talla: `lado × lado`
/// bytes a partir de `índice × lado²`.
pub fn mascara(atlas: &[u8], icono: Icono, talla: u32) -> (m: &[u8])
    requires
        talla <= 0xffff,
        atlas@.len() == NUM_ICONOS * (talla * talla),
    ensures
        m@ == atlas@.subrange(
            indice_de(icono) * (talla * talla),
            (indice_de(icono) + 1) * (talla * talla),
        ),
{
    let t = talla as usize;
    assert(t * t <= 0xffff * 0xffff) by (nonlinear_arith)
        requires
            t <= 0xffff,
    ;
    let lado2 = t * t;
    assert(lado2 == talla * talla);
    assert(NUM_ICONOS * lado2 == atlas@.len());
    assert(atlas@.len() == atlas.len());
    let i = icono.indice();
    assert(i * lado2 + lado2 <= NUM_ICONOS * lado2) by (nonlinear_arith)
        requires
            i < NUM_ICONOS,
    ;
    assert(i * lado2 + lado2 == (i + 1) * lado2) by (nonlinear_arith);
    let inicio = i * lado2;
    vstd::slice::slice_subrange(atlas, inicio, inicio + lado2)
}

/// Canal premultiplicado por el alfa con redondeo al más cercano.
pub open spec fn premultiplicado(c: int, alfa: int) -> int {
    (c * alfa + 127) / 255
}

/// Alfa del píxel: cobertura de la máscara atenuada por la opacidad.
pub open spec fn alfa_de(cobertura: u8, opacidad: u8) -> int {
    (cobertura * opacidad + 127) / 255
}

/// Byte `i` del BGRA premultiplicado de una máscara tintada con
/// `color` (COLORREF, 0x00BBGGRR) y atenuada por `opacidad`.
pub open spec fn byte_tintado(mascara: Seq<u8>, color: u32, opacidad: u8, i: int) -> int {
    let a = alfa_de(mascara[i / 4], opacidad);
    let r = color % 256;
    let g = (color / 256) % 256;
    let b = (color / 65536) % 256;
    if i % 4 == 0 {
        premultiplicado(b as int, a)
    } else if i % 4 == 1 {
        premultiplicado(g as int, a)
    } else if i % 4 == 2 {
        premultiplicado(r as int, a)
    } else {
        a
    }
}

fn premultiplicar(c: u32, a: u32) -> (r: u8)
    requires
        c <= 255,
        a <= 255,
    ensures
        r == premultiplicado(c as int, a as int),
{
    assert(c * a <= 255 * 255) by (nonlinear_arith)
        requires
            c <= 255,
            a <= 255,
    ;
    assert((c * a + 127) / 255 <= 255) by (nonlinear_arith)
        requires
            c * a <= 255 * 255,
    ;
    ((c * a + 127) / 255) as u8
}

/// Tinta una máscara A8 con un color: BGRA premultiplicada, que es lo que
/// exige `AlphaBlend` con `AC_SRC_ALPHA`. `opacidad` atenúa el conjunto
/// (deshabilitado) sin necesitar otro asset.
pub fn tinte_premultiplicado(mascara: &[u8], color_0xbbggrr: u32, opacidad: u8) -> (out: Vec<u8>)
    requires
        mascara@.len() * 4 <= usize::MAX,
    ensures
        out@.len() == mascara@.len() * 4,
        forall|i: int|
            0 <= i < out@.len() ==> out@[i] == #[trigger] byte_tintado(
                mascara@,
                color_0xbbggrr,
                opacidad,
                i,
            ),
{
    let r = color_0xbbggrr & 0xFF;
    let g = (color_0xbbggrr >> 8) & 0xFF;
    let b = (color_0xbbggrr >> 16) & 0xFF;
    assert(color_0xbbggrr & 0xFF == color_0xbbggrr % 256) by (bit_vector);
    assert((color_0xbbggrr >> 8) & 0xFF == (color_0xbbggrr / 256) % 256) by (bit_vector);
    assert((color_0xbbggrr >> 16) & 0xFF == (color_0xbbggrr / 65536) % 256) by (bit_vector);
    let mut out: Vec<u8> = Vec::new();
    let mut k: usize = 0;
    while k < mascara.len()
        invariant
            mascara@.len() * 4 <= usize::MAX,
            k <= mascara@.len(),
            r == color_0xbbggrr % 256,
            g == (color_0xbbggrr / 256) % 256,
            b == (color_0xbbggrr / 65536) % 256,
            out@.len() == k * 4,
            forall|i: int|
                0 <= i < out@.len() ==> out@[i] == #[trigger] byte_tintado(
                    mascara@,
                    color_0xbbggrr,
                    opacidad,
                    i,
                ),
        decreases mascara@.len() - k,
    {
        let cobertura = mascara[k] as u32;
        let op = opacidad as u32;
        assert(cobertura * op <= 255 * 255) by (nonlinear_arith)
            requires
                cobertura <= 255,
                op <= 255,
        ;
        assert((cobertura * op + 127) / 255 <= 255) by (nonlinear_arith)
            requires
                cobertura * op <= 255 * 255,
        ;
        let a = (cobertura * op + 127) / 255;
        let ghost n = out@.len();
        out.push(premultiplicar(b, a));
        out.push(premultiplicar(g, a));
        out.push(premultiplicar(r, a));
        out.push(a as u8);
        assert forall|i: int| 0 <= i < out@.len() implies out@[i] == #[trigger] byte_tintado(
            mascara@,
            color_0xbbggrr,
            opacidad,
            i,
        ) by {
            if i >= n {
                assert(i / 4 == k);
                assert(i - n == i % 4);
            }
        }
        k = k + 1;
    }
    out
}

} // verus!
