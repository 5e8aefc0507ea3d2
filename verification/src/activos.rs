//! Ensamblado offline de assets: el `.ico` multiimagen del programa y el
//! enum de iconos que acompaña a los atlas A8.

use vstd::prelude::*;
use vstd::arithmetic::div_mod::lemma_fundamental_div_mod_converse;
use crate::iconos::{indice_de, Icono};
use crate::bytes::{anadir_bytes, ceros, le16, le32, poner_ceros, poner_u16, poner_u32};
use crate::texto::{a_mayuscula, anadir, cadena, caracteres, decimal, escribir_decimal, mayuscula};

verus! {

/// Bytes por fila de la máscara AND de un icono de `lado` píxeles:
/// filas de 1 bit por píxel alineadas a 32 bits.
pub open spec fn fila_and(lado: nat) -> nat {
    ((lado + 31) / 32) * 4
}

/// Byte `k` del bloque XOR de un icono: BGRA, filas de abajo arriba.
pub open spec fn byte_xor(rgba: Seq<u8>, lado: nat, k: int) -> u8 {
    let l = lado as int;
    let fila = (l - 1) - k / (4 * l);
    let col = (k / 4) % l;
    let p = (fila * l + col) * 4;
    let c = k % 4;
    if c == 0 {
        rgba[p + 2]
    } else if c == 1 {
        rgba[p + 1]
    } else if c == 2 {
        rgba[p]
    } else {
        rgba[p + 3]
    }
}

/// Bloque XOR de un icono RGBA de `lado × lado`.
pub open spec fn pixeles_dib(rgba: Seq<u8>, lado: nat) -> Seq<u8> {
    Seq::new(lado * lado * 4, |k: int| byte_xor(rgba, lado, k))
}

/// Cabecera BITMAPINFOHEADER de un icono: alto doble (XOR + AND), un
/// plano, 32 bpp y el resto a cero.
pub open spec fn cabecera_dib(lado: u32) -> Seq<u8> {
    le32(40) + le32(lado) + le32((lado * 2) as u32) + le16(1) + le16(32) + ceros(24)
}

/// DIB clásico de icono: cabecera, XOR BGRA de abajo arriba y la
/// máscara AND a cero (el alfa de 32 bpp manda).
pub open spec fn dib_spec(rgba: Seq<u8>, lado: u32) -> Seq<u8> {
    cabecera_dib(lado) + pixeles_dib(rgba, lado as nat) + ceros(fila_and(lado as nat) * (lado as nat))
}

/// Se puede codificar: el RGBA mide lo que debe, el alto doble cabe en 32
/// bits y el resultado en memoria.
pub open spec fn dib_valido(rgba: Seq<u8>, lado: u32) -> bool {
    &&& rgba.len() == lado * lado * 4
    &&& lado * 2 <= u32::MAX
    &&& 40 + lado * lado * 4 + fila_and(lado as nat) * lado <= usize::MAX
}

proof fn lema_indice_xor(r: int, col: int, c: int, l: int)
    requires
        0 <= r,
        0 <= col < l,
        0 <= c < 4,
    ensures
        ((r * l + col) * 4 + c) / (4 * l) == r,
        (((r * l + col) * 4 + c) / 4) % l == col,
        ((r * l + col) * 4 + c) % 4 == c,
{
    let k = (r * l + col) * 4 + c;
    assert(k == r * (4 * l) + (col * 4 + c)) by (nonlinear_arith)
        requires
            k == (r * l + col) * 4 + c,
    ;
    assert(col * 4 + c < 4 * l) by (nonlinear_arith)
        requires
            col < l,
            c < 4,
    ;
    lemma_fundamental_div_mod_converse(k, 4 * l, r, col * 4 + c);
    lemma_fundamental_div_mod_converse(k, 4, r * l + col, c);
    lemma_fundamental_div_mod_converse(r * l + col, l, r, col);
}

/// DIB clásico de icono: BITMAPINFOHEADER (alto doble), XOR BGRA
/// bottom-up y máscara AND a cero.
pub fn codificar_dib(rgba: &[u8], lado: u32) -> (dib: Vec<u8>)
    requires
        dib_valido(rgba@, lado),
    ensures
        dib@ == dib_spec(rgba@, lado),
{
    let l = lado as usize;
    let fila_and_bytes = (l / 32 + if l % 32 == 0 {
        0
    } else {
        1
    }) * 4;
    assert(fila_and_bytes == fila_and(l as nat));
    let mut dib: Vec<u8> = Vec::new();
    poner_u32(&mut dib, 40);
    poner_u32(&mut dib, lado);
    poner_u32(&mut dib, lado * 2);
    poner_u16(&mut dib, 1);
    poner_u16(&mut dib, 32);
    poner_ceros(&mut dib, 24);
    let ghost cab = dib@;
    assert(cab == cabecera_dib(lado));
    let ghost px = pixeles_dib(rgba@, l as nat);
    assert(l * l * 4 == rgba@.len());
    assert(rgba@.len() == rgba.len());
    let mut r: usize = 0;
    while r < l
        invariant
            l == lado,
            r <= l,
            rgba@.len() == l * l * 4,
            l * l * 4 <= usize::MAX,
            px == pixeles_dib(rgba@, l as nat),
            dib@ == cab + px.take((r * l * 4) as int),
        decreases l - r,
    {
        let fila = l - 1 - r;
        let mut col: usize = 0;
        while col < l
            invariant
                l == lado,
                r < l,
                fila == l - 1 - r,
                col <= l,
                rgba@.len() == l * l * 4,
                l * l * 4 <= usize::MAX,
                px == pixeles_dib(rgba@, l as nat),
                dib@ == cab + px.take(((r * l + col) * 4) as int),
            decreases l - col,
        {
            assert((r * l + col) * 4 + 4 <= l * l * 4) by (nonlinear_arith)
                requires
                    r < l,
                    col < l,
            ;
            assert((fila * l + col) * 4 + 4 <= l * l * 4) by (nonlinear_arith)
                requires
                    fila < l,
                    col < l,
            ;
            let p = (fila * l + col) * 4;
            let ghost base = (r * l + col) * 4;
            proof {
                lema_indice_xor(r as int, col as int, 0, l as int);
                lema_indice_xor(r as int, col as int, 1, l as int);
                lema_indice_xor(r as int, col as int, 2, l as int);
                lema_indice_xor(r as int, col as int, 3, l as int);
            }
            assert(px[base] == rgba@[p + 2]);
            assert(px[base + 1] == rgba@[p + 1]);
            assert(px[base + 2] == rgba@[p as int]);
            assert(px[base + 3] == rgba@[p + 3]);
            dib.push(rgba[p + 2]);
            dib.push(rgba[p + 1]);
            dib.push(rgba[p]);
            dib.push(rgba[p + 3]);
            assert(px.take(base + 4) =~= px.take(base).push(px[base]).push(px[base + 1]).push(
                px[base + 2],
            ).push(px[base + 3]));
            assert((r * l + (col + 1)) * 4 == base + 4) by (nonlinear_arith)
                requires
                    base == (r * l + col) * 4,
            ;
            col = col + 1;
        }
        assert((r * l + l) * 4 == (r + 1) * l * 4) by (nonlinear_arith);
        r = r + 1;
    }
    assert(px.take((l * l * 4) as int) =~= px);
    poner_ceros(&mut dib, fila_and_bytes * l);
    assert(dib@ =~= dib_spec(rgba@, lado));
    dib
}

/// Contenido de una entrada del `.ico`.
pub enum DatosIco {
    /// RGBA 8888 de arriba abajo, lado×lado: se codifica como DIB clásico.
    Rgba(Vec<u8>),
    /// Bytes PNG tal cual (entrada de 256 px).
    Png(Vec<u8>),
}

/// Una imagen del `.ico` con su lado en píxeles.
pub struct EntradaIco {
    pub lado: u32,
    pub datos: DatosIco,
}

/// Bytes que ocupa la imagen de una entrada dentro del `.ico`.
pub open spec fn imagen_de(e: EntradaIco) -> Seq<u8> {
    match e.datos {
        DatosIco::Png(bytes) => bytes@,
        DatosIco::Rgba(rgba) => dib_spec(rgba@, e.lado),
    }
}

/// La entrada se puede codificar.
pub open spec fn entrada_valida(e: EntradaIco) -> bool {
    match e.datos {
        DatosIco::Png(_) => true,
        DatosIco::Rgba(rgba) => dib_valido(rgba@, e.lado),
    }
}

/// Bytes que ocupan las imágenes de las `n` primeras entradas.
pub open spec fn tam_imagenes(es: Seq<EntradaIco>, n: int) -> int
    decreases n,
{
    if n <= 0 {
        0
    } else {
        tam_imagenes(es, n - 1) + imagen_de(es[n - 1]).len()
    }
}

/// Lado tal como va en el directorio: 0 significa 256 (o más).
pub open spec fn lado_dir(lado: u32) -> u8 {
    if lado >= 256 {
        0
    } else {
        lado as u8
    }
}

/// Entrada del directorio ICONDIRENTRY: lados, sin paleta, un plano,
/// 32 bpp, tamaño de la imagen y su posición en el archivo.
pub open spec fn entrada_dir(lado: u32, tam: int, offset: int) -> Seq<u8> {
    seq![lado_dir(lado), lado_dir(lado), 0u8, 0u8] + le16(1) + le16(32) + le32(tam as u32) + le32(
        offset as u32,
    )
}

/// Posición en el archivo de la imagen `i`: tras la cabecera, el
/// directorio completo y las imágenes anteriores.
pub open spec fn offset_de(es: Seq<EntradaIco>, i: int) -> int {
    6 + 16 * es.len() + tam_imagenes(es, i)
}

/// Directorio de las `n` primeras entradas.
pub open spec fn directorio(es: Seq<EntradaIco>, n: int) -> Seq<u8>
    decreases n,
{
    if n <= 0 {
        Seq::empty()
    } else {
        directorio(es, n - 1) + entrada_dir(
            es[n - 1].lado,
            imagen_de(es[n - 1]).len() as int,
            offset_de(es, n - 1),
        )
    }
}

/// Imágenes de las `n` primeras entradas, una tras otra.
pub open spec fn cuerpo(es: Seq<EntradaIco>, n: int) -> Seq<u8>
    decreases n,
{
    if n <= 0 {
        Seq::empty()
    } else {
        cuerpo(es, n - 1) + imagen_de(es[n - 1])
    }
}

/// `.ico` multiimagen: ICONDIR (reservado, tipo 1 = icono, número de
/// imágenes) + directorio + imágenes.
pub open spec fn ico_spec(es: Seq<EntradaIco>) -> Seq<u8> {
    le16(0) + le16(1) + le16(es.len() as u16) + directorio(es, es.len() as int) + cuerpo(
        es,
        es.len() as int,
    )
}

/// Se puede construir: cada entrada es codificable y el archivo cabe en
/// memoria.
pub open spec fn ico_valido(es: Seq<EntradaIco>) -> bool {
    &&& forall|i: int| 0 <= i < es.len() ==> entrada_valida(#[trigger] es[i])
    &&& 6 + 16 * es.len() + tam_imagenes(es, es.len() as int) <= usize::MAX
}

proof fn lema_tam_crece(es: Seq<EntradaIco>, n: int, m: int)
    requires
        0 <= n <= m,
    ensures
        tam_imagenes(es, n) <= tam_imagenes(es, m),
    decreases m - n,
{
    if n < m {
        lema_tam_crece(es, n, m - 1);
    }
}

fn trunc_u32(v: usize) -> (r: u32)
    ensures
        r == (v as u32),
{
    #[verifier::truncate]
    (v as u32)
}

fn trunc_u16(v: usize) -> (r: u16)
    ensures
        r == (v as u16),
{
    #[verifier::truncate]
    (v as u16)
}

fn imagen(e: &EntradaIco) -> (img: Vec<u8>)
    requires
        entrada_valida(*e),
    ensures
        img@ == imagen_de(*e),
{
    match &e.datos {
        DatosIco::Png(bytes) => {
            let mut v: Vec<u8> = Vec::new();
            anadir_bytes(&mut v, bytes);
            v
        },
        DatosIco::Rgba(rgba) => codificar_dib(rgba, e.lado),
    }
}

/// Construye un `.ico` multiimagen: cabecera ICONDIR + directorio +
/// imágenes.
#[verifier::spinoff_prover]
#[verifier::rlimit(40)]
pub fn construir_ico(entradas: &[EntradaIco]) -> (ico: Vec<u8>)
    requires
        ico_valido(entradas@),
    ensures
        ico@ == ico_spec(entradas@),
{
    let n = entradas.len();
    let mut imagenes: Vec<Vec<u8>> = Vec::new();
    let mut i: usize = 0;
    while i < n
        invariant
            n == entradas@.len(),
            i <= n,
            ico_valido(entradas@),
            imagenes@.len() == i,
            forall|k: int| 0 <= k < i ==> (#[trigger] imagenes@[k])@ == imagen_de(entradas@[k]),
        decreases n - i,
    {
        imagenes.push(imagen(&entradas[i]));
        i = i + 1;
    }
    proof {
        lema_tam_crece(entradas@, 0, n as int);
    }
    let mut ico: Vec<u8> = Vec::new();
    poner_u16(&mut ico, 0);
    poner_u16(&mut ico, 1);
    poner_u16(&mut ico, trunc_u16(n));
    let ghost cab = ico@;
    let mut offset: usize = 6 + 16 * n;
    let mut i: usize = 0;
    while i < n
        invariant
            n == entradas@.len(),
            i <= n,
            ico_valido(entradas@),
            imagenes@.len() == n,
            forall|k: int| 0 <= k < n ==> (#[trigger] imagenes@[k])@ == imagen_de(entradas@[k]),
            offset == offset_de(entradas@, i as int),
            ico@ == cab + directorio(entradas@, i as int),
        decreases n - i,
    {
        proof {
            lema_tam_crece(entradas@, i + 1, n as int);
        }
        let e = &entradas[i];
        let img = &imagenes[i];
        let lado_d: u8 = if e.lado >= 256 {
            0
        } else {
            e.lado as u8
        };
        let ghost antes = ico@;
        ico.push(lado_d);
        ico.push(lado_d);
        ico.push(0);
        ico.push(0);
        poner_u16(&mut ico, 1);
        poner_u16(&mut ico, 32);
        poner_u32(&mut ico, trunc_u32(img.len()));
        poner_u32(&mut ico, trunc_u32(offset));
        assert(ico@ =~= antes + entrada_dir(
            entradas@[i as int].lado,
            imagen_de(entradas@[i as int]).len() as int,
            offset_de(entradas@, i as int),
        ));
        offset = offset + img.len();
        i = i + 1;
    }
    let ghost con_dir = ico@;
    let mut i: usize = 0;
    while i < n
        invariant
            n == entradas@.len(),
            i <= n,
            imagenes@.len() == n,
            forall|k: int| 0 <= k < n ==> (#[trigger] imagenes@[k])@ == imagen_de(entradas@[k]),
            ico@ == con_dir + cuerpo(entradas@, i as int),
        decreases n - i,
    {
        anadir_bytes(&mut ico, &imagenes[i]);
        assert(cuerpo(entradas@, i + 1) == cuerpo(entradas@, i as int) + imagen_de(
            entradas@[i as int],
        ));
        i = i + 1;
    }
    assert(ico@ =~= ico_spec(entradas@));
    ico
}

/// Tallas físicas de los atlas: 16/20/24/28/32 px cubren DPI
/// 100/125/150/175/200 %.
pub const TALLAS: [u32; 5] = [16, 20, 24, 28, 32];

/// Inventario de iconos, en el orden del enum que se genera. Se añade al
/// final, para no invalidar índices.
pub const ICONOS: [&'static str; 40] = [
    "sys-drag-handle",
    "capture-fullscreen",
    "capture-window",
    "capture-region",
    "capture-delay",
    "capture-object",
    "capture-freehand",
    "capture-fixed",
    "capture-scroll",
    "record-start",
    "util-eyedropper",
    "util-magnifier",
    "util-ruler",
    "util-crosshair",
    "util-pin",
    "sys-settings",
    "sys-collapse",
    "sys-close",
    "annotate-select",
    "annotate-text",
    "annotate-arrow",
    "annotate-line",
    "annotate-shape",
    "annotate-ellipse",
    "annotate-pencil",
    "annotate-highlight",
    "annotate-steps",
    "annotate-caption",
    "annotate-pixelate",
    "annotate-eraser",
    "annotate-crop",
    "edit-resize",
    "edit-undo",
    "edit-redo",
    "output-copy",
    "output-save",
    "output-save-as",
    "output-print",
    // Asa de rotación del objeto seleccionado.
    "edit-rotate",
    "output-email",
];

/// Nombre kebab-case del SVG de cada icono (el del inventario de los
/// atlas); el de abrir no está aún en el inventario.
pub open spec fn svg_de_icono(i: Icono) -> Seq<char> {
    match i {
        Icono::SysDragHandle => "sys-drag-handle"@,
        Icono::CaptureFullscreen => "capture-fullscreen"@,
        Icono::CaptureWindow => "capture-window"@,
        Icono::CaptureRegion => "capture-region"@,
        Icono::CaptureDelay => "capture-delay"@,
        Icono::CaptureObject => "capture-object"@,
        Icono::CaptureFreehand => "capture-freehand"@,
        Icono::CaptureFixed => "capture-fixed"@,
        Icono::CaptureScroll => "capture-scroll"@,
        Icono::RecordStart => "record-start"@,
        Icono::UtilEyedropper => "util-eyedropper"@,
        Icono::UtilMagnifier => "util-magnifier"@,
        Icono::UtilRuler => "util-ruler"@,
        Icono::UtilCrosshair => "util-crosshair"@,
        Icono::UtilPin => "util-pin"@,
        Icono::SysSettings => "sys-settings"@,
        Icono::SysCollapse => "sys-collapse"@,
        Icono::SysClose => "sys-close"@,
        Icono::AnnotateSelect => "annotate-select"@,
        Icono::AnnotateText => "annotate-text"@,
        Icono::AnnotateArrow => "annotate-arrow"@,
        Icono::AnnotateLine => "annotate-line"@,
        Icono::AnnotateShape => "annotate-shape"@,
        Icono::AnnotateEllipse => "annotate-ellipse"@,
        Icono::AnnotatePencil => "annotate-pencil"@,
        Icono::AnnotateHighlight => "annotate-highlight"@,
        Icono::AnnotateSteps => "annotate-steps"@,
        Icono::AnnotateCaption => "annotate-caption"@,
        Icono::AnnotatePixelate => "annotate-pixelate"@,
        Icono::AnnotateEraser => "annotate-eraser"@,
        Icono::AnnotateCrop => "annotate-crop"@,
        Icono::EditResize => "edit-resize"@,
        Icono::EditUndo => "edit-undo"@,
        Icono::EditRedo => "edit-redo"@,
        Icono::OutputCopy => "output-copy"@,
        Icono::OutputSave => "output-save"@,
        Icono::OutputSaveAs => "output-save-as"@,
        Icono::OutputPrint => "output-print"@,
        Icono::EditRotate => "edit-rotate"@,
        Icono::OutputEmail => "output-email"@,
        Icono::OutputOpen => "output-open"@,
    }
}

/// El índice de cada icono en los atlas es la posición de su SVG en el
/// inventario que los genera: la máscara que se corta para un icono es la
/// que se rasterizó de su dibujo. El único icono fuera del inventario va
/// justo detrás.
pub proof fn ley_cada_icono_es_su_svg(i: Icono)
    ensures
        i != Icono::OutputOpen ==> indice_de(i) < ICONOS@.len() && ICONOS@[indice_de(i) as int]@
            == svg_de_icono(i),
        indice_de(Icono::OutputOpen) == ICONOS@.len(),
{
}

/// Una palabra kebab-case pasada a CamelCase: se quitan los guiones y
/// cada palabra empieza en mayúscula ASCII.
pub open spec fn camel(s: Seq<char>) -> Seq<char>
    decreases s.len(),
{
    if s.len() == 0 {
        Seq::empty()
    } else {
        let previo = camel(s.drop_last());
        let c = s.last();
        if c == '-' {
            previo
        } else if s.len() == 1 || s[s.len() - 2] == '-' {
            previo.push(mayuscula(c))
        } else {
            previo.push(c)
        }
    }
}

/// `capture-fullscreen` → `CaptureFullscreen`.
pub fn kebab_a_camel(kebab: &str) -> (r: String)
    ensures
        r@ == camel(kebab@),
{
    let v = caracteres(kebab);
    let mut out: Vec<char> = Vec::new();
    let mut i: usize = 0;
    while i < v.len()
        invariant
            i <= v@.len(),
            out@ == camel(v@.take(i as int)),
        decreases v@.len() - i,
    {
        let c = v[i];
        let ghost t = v@.take(i + 1);
        assert(t.drop_last() =~= v@.take(i as int));
        if c != '-' {
            if i == 0 || v[i - 1] == '-' {
                out.push(a_mayuscula(c));
            } else {
                out.push(c);
            }
        }
        i = i + 1;
    }
    assert(v@.take(v@.len() as int) =~= v@);
    cadena(&out)
}

/// Cabecera del archivo del enum de iconos.
pub open spec fn cabecera_atlas() -> Seq<char> {
    "// GENERADO POR design/tools/genassets — NO EDITAR.\n"@
        + "// Regenerar: cd design/tools/genassets && cargo run\n\n"@
        + "/// Iconos disponibles en los atlas A8. El discriminante es el índice\n"@
        + "/// dentro de cada `atlas_N.bin` (offset del icono = índice × lado²).\n"@
        + "// El inventario va por delante de los consumidores a propósito\n"@
        + "// (iconos de fases futuras ya generados).\n"@ + "#[allow(dead_code)]\n"@
        + "#[derive(Clone, Copy, PartialEq, Eq, Hash, Debug)]\n"@ + "#[repr(usize)]\n"@
        + "pub enum Icono {\n"@
}

/// Variantes de los `n` primeros iconos: `    Nombre = índice,`.
pub open spec fn variantes(nombres: Seq<&'static str>, n: int) -> Seq<char>
    decreases n,
{
    if n <= 0 {
        Seq::empty()
    } else {
        variantes(nombres, n - 1) + "    "@ + camel(nombres[n - 1]@) + " = "@ + decimal(
            (n - 1) as nat,
        ) + ",\n"@
    }
}

/// Fuente del enum `Icono` con el inventario y las constantes del atlas:
/// una variante por icono del inventario, con su índice, y `NUM_ICONOS`
/// igual al número de iconos.
pub open spec fn atlas_rs_spec() -> Seq<char> {
    cabecera_atlas() + variantes(ICONOS@, ICONOS@.len() as int) + "}\n\n"@
        + "pub const NUM_ICONOS: usize = "@ + decimal(ICONOS@.len()) + ";\n"@ + "pub const TALLAS: [u32; 5] = [16, 20, 24, 28, 32];\n"@
}

/// Fuente Rust del enum `Icono` que acompaña a los atlas.
pub fn generar_atlas_rs() -> (s: String)
    ensures
        s@ == atlas_rs_spec(),
{
    let mut v: Vec<char> = Vec::new();
    anadir(&mut v, &caracteres("// GENERADO POR design/tools/genassets — NO EDITAR.\n"));
    anadir(&mut v, &caracteres("// Regenerar: cd design/tools/genassets && cargo run\n\n"));
    anadir(
        &mut v,
        &caracteres("/// Iconos disponibles en los atlas A8. El discriminante es el índice\n"),
    );
    anadir(
        &mut v,
        &caracteres("/// dentro de cada `atlas_N.bin` (offset del icono = índice × lado²).\n"),
    );
    anadir(
        &mut v,
        &caracteres("// El inventario va por delante de los consumidores a propósito\n"),
    );
    anadir(&mut v, &caracteres("// (iconos de fases futuras ya generados).\n"));
    anadir(&mut v, &caracteres("#[allow(dead_code)]\n"));
    anadir(&mut v, &caracteres("#[derive(Clone, Copy, PartialEq, Eq, Hash, Debug)]\n"));
    anadir(&mut v, &caracteres("#[repr(usize)]\n"));
    anadir(&mut v, &caracteres("pub enum Icono {\n"));
    assert(v@ =~= cabecera_atlas());
    let nombres = ICONOS;
    let n = nombres.len();
    let mut i: usize = 0;
    while i < n
        invariant
            nombres@ == ICONOS@,
            n == ICONOS@.len(),
            i <= n,
            v@ == cabecera_atlas() + variantes(ICONOS@, i as int),
        decreases n - i,
    {
        let ghost antes = v@;
        anadir(&mut v, &caracteres("    "));
        let camel_s = kebab_a_camel(nombres[i]);
        anadir(&mut v, &caracteres(camel_s.as_str()));
        anadir(&mut v, &caracteres(" = "));
        escribir_decimal(&mut v, i as u64);
        anadir(&mut v, &caracteres(",\n"));
        assert(v@ =~= antes + ("    "@ + camel(ICONOS@[i as int]@) + " = "@ + decimal(i as nat)
            + ",\n"@));
        i = i + 1;
    }
    anadir(&mut v, &caracteres("}\n\n"));
    anadir(&mut v, &caracteres("pub const NUM_ICONOS: usize = "));
    escribir_decimal(&mut v, n as u64);
    anadir(&mut v, &caracteres(";\n"));
    anadir(&mut v, &caracteres("pub const TALLAS: [u32; 5] = [16, 20, 24, 28, 32];\n"));
    assert(v@ =~= atlas_rs_spec());
    cadena(&v)
}

/// Lo que da el decodificador de `png` para unos bytes: ancho, alto,
/// código PNG del tipo de color, bits por muestra y los bytes del primer
/// frame; `None` si no los puede decodificar.
pub uninterp spec fn png_decodificado(crudo: Seq<u8>) -> Option<(u32, u32, u8, u8, Seq<u8>)>;

/// `png::Decoder::read_info` seguido de `Reader::next_frame` sobre un
/// buffer de `output_buffer_size` bytes, recortado a `buffer_size`. El
/// tipo de color y la profundidad van como sus códigos PNG (`as u8`). Del
/// error solo se promete que lo hubo: su texto es el de `png`.
#[verifier::external_body]
fn leer_png(crudo: &[u8]) -> (r: Result<(u32, u32, u8, u8, Vec<u8>), String>)
    ensures
        match r {
            Ok(v) => png_decodificado(crudo@) == Some((v.0, v.1, v.2, v.3, v.4@)),
            Err(_) => png_decodificado(crudo@) is None,
        },
{
    let decoder = png::Decoder::new(std::io::Cursor::new(crudo));
    let mut reader = decoder.read_info().map_err(|e| e.to_string())?;
    let mut buf = vec![0u8; reader.output_buffer_size().ok_or("png sin tamaño".to_string())?];
    let info = reader.next_frame(&mut buf).map_err(|e| e.to_string())?;
    buf.truncate(info.buffer_size());
    Ok((info.width, info.height, info.color_type as u8, info.bit_depth as u8, buf))
}

/// Código PNG del tipo de color RGBA.
pub const PNG_RGBA: u8 = 6;
/// Profundidad de 8 bits por muestra.
pub const PNG_8_BITS: u8 = 8;

/// Por qué no sirve el PNG de un icono.
#[derive(PartialEq, Eq, Debug)]
pub enum ErrorPng {
    /// No se pudo decodificar; lleva el mensaje del decodificador.
    Ilegible(String),
    /// No mide lo que se esperaba.
    Tamano { ancho: u32, alto: u32, esperado: u32 },
    /// No es RGBA de 8 bits.
    Formato,
}

/// Mensaje de un error de PNG.
pub open spec fn mensaje_spec(e: ErrorPng) -> Seq<char> {
    match e {
        ErrorPng::Ilegible(m) => m@,
        ErrorPng::Tamano { ancho, alto, esperado } => "png de "@ + decimal(ancho as nat) + "×"@
            + decimal(alto as nat) + ", se esperaba "@ + decimal(esperado as nat) + "×"@
            + decimal(esperado as nat),
        ErrorPng::Formato => "el png del icono debe ser RGBA de 8 bits"@,
    }
}

impl ErrorPng {
    pub fn mensaje(&self) -> (s: String)
        ensures
            s@ == mensaje_spec(*self),
    {
        match self {
            ErrorPng::Ilegible(m) => cadena(&caracteres(m.as_str())),
            ErrorPng::Tamano { ancho, alto, esperado } => {
                let mut v = caracteres("png de ");
                escribir_decimal(&mut v, *ancho as u64);
                anadir(&mut v, &caracteres("×"));
                escribir_decimal(&mut v, *alto as u64);
                anadir(&mut v, &caracteres(", se esperaba "));
                escribir_decimal(&mut v, *esperado as u64);
                anadir(&mut v, &caracteres("×"));
                escribir_decimal(&mut v, *esperado as u64);
                cadena(&v)
            },
            ErrorPng::Formato => cadena(&caracteres("el png del icono debe ser RGBA de 8 bits")),
        }
    }
}

/// Comprueba lo decodificado de un PNG de icono y devuelve su RGBA.
pub fn validar_png(ancho: u32, alto: u32, tipo: u8, bits: u8, datos: Vec<u8>, lado: u32) -> (r: Result<
    Vec<u8>,
    ErrorPng,
>)
    ensures
        match r {
            Ok(v) => ancho == lado && alto == lado && tipo == PNG_RGBA && bits == PNG_8_BITS && v@
                == datos@,
            Err(e) => if ancho != lado || alto != lado {
                e == ErrorPng::Tamano { ancho, alto, esperado: lado }
            } else {
                (tipo != PNG_RGBA || bits != PNG_8_BITS) && e == ErrorPng::Formato
            },
        },
{
    if ancho != lado || alto != lado {
        Err(ErrorPng::Tamano { ancho, alto, esperado: lado })
    } else if tipo != PNG_RGBA || bits != PNG_8_BITS {
        Err(ErrorPng::Formato)
    } else {
        Ok(datos)
    }
}

/// RGBA de un icono de `lado × lado` a partir de los bytes de su PNG.
pub fn decodificar_png(crudo: &[u8], lado: u32) -> (r: Result<Vec<u8>, ErrorPng>)
    ensures
        match png_decodificado(crudo@) {
            None => r is Err && r->Err_0 is Ilegible,
            Some(d) => match r {
                Ok(v) => d.0 == lado && d.1 == lado && d.2 == PNG_RGBA && d.3 == PNG_8_BITS && v@
                    == d.4,
                Err(e) => if d.0 != lado || d.1 != lado {
                    e == ErrorPng::Tamano { ancho: d.0, alto: d.1, esperado: lado }
                } else {
                    (d.2 != PNG_RGBA || d.3 != PNG_8_BITS) && e == ErrorPng::Formato
                },
            },
        },
{
    match leer_png(crudo) {
        Ok((ancho, alto, tipo, bits, datos)) => validar_png(ancho, alto, tipo, bits, datos, lado),
        Err(m) => Err(ErrorPng::Ilegible(m)),
    }
}

/// Una máscara sin ningún píxel cubierto (el SVG no pintó nada).
pub fn mascara_vacia(m: &[u8]) -> (b: bool)
    ensures
        b == forall|i: int| 0 <= i < m@.len() ==> m@[i] == 0,
{
    let mut i: usize = 0;
    while i < m.len()
        invariant
            i <= m@.len(),
            forall|j: int| 0 <= j < i ==> m@[j] == 0,
        decreases m@.len() - i,
    {
        if m[i] != 0 {
            return false;
        }
        i = i + 1;
    }
    true
}

} // verus!
