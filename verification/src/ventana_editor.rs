//! Lo que decide la ventana del editor: su tamaño y su título, dónde va
//! la imagen y a qué porcentaje, el texto de la barra de estado, la ruta
//! con la que se guarda y cuándo hay que confirmar antes de cerrar. Los
//! diálogos, el disco y el pintado quedan fuera.

use vstd::prelude::*;
use crate::aritmetica::{acotado, acotar, cociente};
use crate::editor::{encaje, fit_rect, Reparto};
use crate::geometria::Rect;
use crate::texto::{
    acaba_en, anadir, cadena, caracteres, decimal, en_minusculas, escribir_decimal, minusculas,
    termina_en,
};

verus! {

/// Formatos en que se guarda una captura.
#[derive(Clone, Copy, PartialEq, Eq, Debug, Structural)]
pub enum ImageFormat {
    Png,
    Jpeg,
}

/// Extensión de archivo de un formato.
pub open spec fn extension_spec(f: ImageFormat) -> Seq<char> {
    match f {
        ImageFormat::Png => "png"@,
        ImageFormat::Jpeg => "jpg"@,
    }
}

impl ImageFormat {
    pub fn extension(self) -> (e: &'static str)
        ensures
            e@ == extension_spec(self),
    {
        match self {
            ImageFormat::Png => "png",
            ImageFormat::Jpeg => "jpg",
        }
    }
}

/// Formato del filtro elegido en «Guardar como»: el segundo es JPEG, el
/// resto PNG.
pub fn formato_de_filtro(indice: u32) -> (f: ImageFormat)
    ensures
        f == (if indice == 2 {
            ImageFormat::Jpeg
        } else {
            ImageFormat::Png
        }),
{
    if indice == 2 {
        ImageFormat::Jpeg
    } else {
        ImageFormat::Png
    }
}

/// La ruta ya lleva la extensión del formato (sin distinguir mayúsculas;
/// `.jpeg` también vale para JPEG).
pub open spec fn tiene_extension(ruta: Seq<char>, f: ImageFormat) -> bool {
    ||| termina_en(minusculas(ruta), seq!['.'] + extension_spec(f))
    ||| (f == ImageFormat::Jpeg && termina_en(minusculas(ruta), ".jpeg"@))
}

/// Ruta con la que se guarda: la elegida, con `.ext` añadida si no la
/// llevaba ya.
pub open spec fn ruta_final(ruta: Seq<char>, f: ImageFormat) -> Seq<char> {
    if tiene_extension(ruta, f) {
        ruta
    } else {
        ruta + seq!['.'] + extension_spec(f)
    }
}

pub fn ruta_con_extension(ruta: &[char], formato: ImageFormat) -> (r: Vec<char>)
    ensures
        r@ == ruta_final(ruta@, formato),
{
    let minuscula = en_minusculas(ruta);
    let mut punto_ext: Vec<char> = Vec::new();
    punto_ext.push('.');
    let ext = caracteres(formato.extension());
    anadir(&mut punto_ext, &ext);
    assert(punto_ext@ =~= seq!['.'] + extension_spec(formato));
    let jpeg = caracteres(".jpeg");
    let tiene = acaba_en(&minuscula, &punto_ext) || (formato == ImageFormat::Jpeg && acaba_en(
        &minuscula,
        &jpeg,
    ));
    let mut r: Vec<char> = Vec::new();
    anadir(&mut r, ruta);
    if !tiene {
        anadir(&mut r, &punto_ext);
        assert(r@ =~= ruta@ + seq!['.'] + extension_spec(formato));
    }
    r
}

/// Tamaño inicial de la ventana: imagen + marco, acotado a lo razonable.
pub open spec fn tamano_ventana_spec(ancho: u32, alto: u32) -> (int, int) {
    (acotado((ancho as i32) + 60, 720, 1280), acotado((alto as i32) + 160, 400, 840))
}

pub fn tamano_ventana(ancho: u32, alto: u32) -> (r: (i32, i32))
    requires
        (ancho as i32) + 60 <= i32::MAX,
        (alto as i32) + 160 <= i32::MAX,
    ensures
        (r.0 as int, r.1 as int) == tamano_ventana_spec(ancho, alto),
{
    (acotar(ancho as i32 + 60, 720, 1280), acotar(alto as i32 + 160, 400, 840))
}

/// Título al abrir una captura.
pub open spec fn titulo_captura_spec(ancho: u32, alto: u32) -> Seq<char> {
    "Captura "@ + decimal(ancho as nat) + "×"@ + decimal(alto as nat) + " — RustCapture"@
}

pub fn titulo_captura(ancho: u32, alto: u32) -> (s: String)
    ensures
        s@ == titulo_captura_spec(ancho, alto),
{
    let mut v = caracteres("Captura ");
    escribir_decimal(&mut v, ancho as u64);
    anadir(&mut v, &caracteres("×"));
    escribir_decimal(&mut v, alto as u64);
    anadir(&mut v, &caracteres(" — RustCapture"));
    cadena(&v)
}

/// Título tras guardar: el nombre del archivo.
pub fn titulo_guardado(nombre: &str) -> (s: String)
    ensures
        s@ == nombre@ + " — RustCapture"@,
{
    let mut v = caracteres(nombre);
    anadir(&mut v, &caracteres(" — RustCapture"));
    cadena(&v)
}

/// Imagen encajada en el canvas (entre la barra de propiedades y la de
/// estado), en coordenadas del cliente.
pub open spec fn destino_en_cliente(ancho: i32, r: Reparto, frame: (u32, u32)) -> Rect {
    let e = encaje(frame, (ancho, (r.status_inicio - r.props_fin) as i32));
    Rect { y: (e.y + r.props_fin) as i32, ..e }
}

pub fn destino_imagen(ancho: i32, r: &Reparto, frame: (u32, u32)) -> (d: Rect)
    requires
        0 <= r.props_fin <= r.status_inicio,
    ensures
        d == destino_en_cliente(ancho, *r, frame),
{
    let lienzo = (ancho, r.status_inicio - r.props_fin);
    let e = fit_rect(frame, lienzo);
    proof {
        if frame.0 > 0 && frame.1 > 0 && lienzo.0 > 0 && lienzo.1 > 0 {
            crate::editor::ley_el_encaje_cabe_y_no_amplia(frame, lienzo);
        }
    }
    Rect::new(e.x, e.y + r.props_fin, e.width, e.height)
}

/// Porcentaje de encaje: ancho mostrado sobre ancho total, truncado (y
/// llevado a 32 bits); 100 con un frame sin ancho.
pub open spec fn porcentaje_spec(mostrado: u32, total: u32) -> u32 {
    if total > 0 {
        ((mostrado * 100) / (total as int)) as u32
    } else {
        100
    }
}

pub fn porcentaje(mostrado: u32, total: u32) -> (p: u32)
    ensures
        p == porcentaje_spec(mostrado, total),
{
    if total > 0 {
        let p = mostrado as u64 * 100 / total as u64;
        #[verifier::truncate]
        (p as u32)
    } else {
        100
    }
}

/// Barra de estado: dimensiones, porcentaje, nombre del archivo (o el
/// formato por defecto) y, si hay cambios sin guardar, un aviso.
pub open spec fn estado_spec(ancho: u32, alto: u32, pct: u32, nombre: Option<Seq<char>>, sucio: bool) -> Seq<char> {
    let base = decimal(ancho as nat) + " × "@ + decimal(alto as nat) + " px · "@ + decimal(
        pct as nat,
    ) + " %"@;
    let con_nombre = match nombre {
        Some(n) => base + " · "@ + n,
        None => base + " · PNG"@,
    };
    if sucio {
        con_nombre + " · sin guardar"@
    } else {
        con_nombre
    }
}

pub fn texto_estado(ancho: u32, alto: u32, pct: u32, nombre: Option<&str>, sucio: bool) -> (s: String)
    ensures
        s@ == estado_spec(
            ancho,
            alto,
            pct,
            match nombre {
                Some(n) => Some(n@),
                None => None,
            },
            sucio,
        ),
{
    let mut v: Vec<char> = Vec::new();
    escribir_decimal(&mut v, ancho as u64);
    anadir(&mut v, &caracteres(" × "));
    escribir_decimal(&mut v, alto as u64);
    anadir(&mut v, &caracteres(" px · "));
    escribir_decimal(&mut v, pct as u64);
    anadir(&mut v, &caracteres(" %"));
    match nombre {
        Some(n) => {
            anadir(&mut v, &caracteres(" · "));
            anadir(&mut v, &caracteres(n));
        },
        None => anadir(&mut v, &caracteres(" · PNG")),
    }
    if sucio {
        anadir(&mut v, &caracteres(" · sin guardar"));
    }
    cadena(&v)
}

/// Estado de la ventana del editor fuera de la imagen: si hay cambios
/// sin guardar ni copiar, el nombre con que se guardó y si se cerró.
pub struct EstadoEditor {
    pub sucio: bool,
    pub nombre: Option<String>,
    pub cerrado: bool,
}

/// Qué hacer cuando se pide cerrar.
#[derive(Clone, Copy, PartialEq, Eq, Debug, Structural)]
pub enum AccionCierre {
    /// Sin cambios pendientes: cerrar ya.
    Destruir,
    /// Hay cambios: preguntar antes de descartarlos.
    Preguntar,
}

impl EstadoEditor {
    /// Recién abierta una captura: nada que guardar.
    pub fn nuevo() -> (e: Self)
        ensures
            !e.sucio,
            e.nombre is None,
            !e.cerrado,
    {
        EstadoEditor { sucio: false, nombre: None, cerrado: false }
    }

    /// Se guardó en un archivo con ese nombre.
    pub fn guardado(&mut self, nombre: String)
        ensures
            !final(self).sucio,
            final(self).nombre matches Some(n) && n@ == nombre@,
            final(self).cerrado == old(self).cerrado,
    {
        self.sucio = false;
        self.nombre = Some(nombre);
    }

    /// Se copió al portapapeles.
    pub fn copiado(&mut self)
        ensures
            !final(self).sucio,
            final(self).nombre == old(self).nombre,
            final(self).cerrado == old(self).cerrado,
    {
        self.sucio = false;
    }

    /// La imagen cambió (dibujo aceptado).
    pub fn editado(&mut self)
        ensures
            final(self).sucio,
            final(self).nombre == old(self).nombre,
            final(self).cerrado == old(self).cerrado,
    {
        self.sucio = true;
    }

    /// Qué hacer al pedir cerrar: preguntar solo si hay cambios.
    pub fn al_cerrar(&self) -> (a: AccionCierre)
        ensures
            a == (if self.sucio {
                AccionCierre::Preguntar
            } else {
                AccionCierre::Destruir
            }),
    {
        if self.sucio {
            AccionCierre::Preguntar
        } else {
            AccionCierre::Destruir
        }
    }

    /// La ventana se destruyó: el bucle modal termina.
    pub fn destruido(&mut self)
        ensures
            final(self).cerrado,
            final(self).sucio == old(self).sucio,
            final(self).nombre == old(self).nombre,
    {
        self.cerrado = true;
    }

    /// Texto de la barra de estado para una imagen de `ancho × alto`
    /// mostrada al `pct` %.
    pub fn texto_estado(&self, ancho: u32, alto: u32, pct: u32) -> (s: String)
        ensures
            s@ == estado_spec(
                ancho,
                alto,
                pct,
                match self.nombre {
                    Some(n) => Some(n@),
                    None => None,
                },
                self.sucio,
            ),
    {
        match &self.nombre {
            Some(n) => texto_estado(ancho, alto, pct, Some(n.as_str()), self.sucio),
            None => texto_estado(ancho, alto, pct, None, self.sucio),
        }
    }
}

/// Error de un sink de salida, con su mensaje.
#[derive(PartialEq, Eq, Debug)]
pub enum OutputError {
    Failed(String),
}

/// Sink de salida que lleva la captura al editor (en el hilo de la
/// interfaz, a través de la ventana de la barra).
pub struct EditorSink {
    bar_hwnd_raw: isize,
}

impl EditorSink {
    pub fn new(bar_hwnd_raw: isize) -> (s: Self)
        ensures
            s.ventana_barra() == bar_hwnd_raw,
    {
        EditorSink { bar_hwnd_raw }
    }

    pub closed spec fn ventana_barra(&self) -> isize {
        self.bar_hwnd_raw
    }

    /// Ventana a la que se publica la captura.
    pub fn barra(&self) -> (h: isize)
        ensures
            h == self.ventana_barra(),
    {
        self.bar_hwnd_raw
    }

    /// Nombre del sink.
    pub fn id(&self) -> (s: &'static str)
        ensures
            s@ == "editor"@,
    {
        "editor"
    }

    /// Solo hay un editor a la vez: con uno abierto, la entrega falla.
    pub fn antes_de_entregar(&self, editor_abierto: bool) -> (r: Result<(), OutputError>)
        ensures
            match r {
                Ok(()) => !editor_abierto,
                Err(OutputError::Failed(m)) => editor_abierto && m@ == "editor ocupado"@,
            },
    {
        if editor_abierto {
            Err(OutputError::Failed(cadena(&caracteres("editor ocupado"))))
        } else {
            Ok(())
        }
    }

    /// Resultado de publicar la captura a la barra.
    pub fn tras_publicar(&self, publicado: bool) -> (r: Result<(), OutputError>)
        ensures
            match r {
                Ok(()) => publicado,
                Err(OutputError::Failed(m)) => !publicado && m@ == "la barra no está disponible"@,
            },
    {
        if publicado {
            Ok(())
        } else {
            Err(OutputError::Failed(cadena(&caracteres("la barra no está disponible"))))
        }
    }
}

} // verus!
