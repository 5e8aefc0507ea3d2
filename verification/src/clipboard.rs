//! Lo que el sink de portapapeles publica: un bloque CF_DIB
//! (BITMAPINFOHEADER de 32 bpp bottom-up seguido de los píxeles BGRA).
//! Abrir el portapapeles y reservar la memoria global queda fuera.

use vstd::prelude::*;
use crate::bytes::{anadir_bytes, ceros, le16, le32, poner_ceros, poner_u16, poner_u32};
use crate::pixels::{con_rb_intercambiado, de_abajo_arriba, rgba_to_bgra, rows_bottom_up};

verus! {

/// Sink de salida que deja la captura en el portapapeles.
pub struct ClipboardSink;

/// BITMAPINFOHEADER de un CF_DIB: 40 bytes, alto positivo (bottom-up), un
/// plano, 32 bpp, `BI_RGB` y el resto a cero.
pub open spec fn cabecera_cf_dib(ancho: u32, alto: u32) -> Seq<u8> {
    le32(40) + le32(ancho) + le32(alto) + le16(1) + le16(32) + ceros(24)
}

/// El bloque completo: cabecera y píxeles BGRA con las filas de abajo
/// arriba.
pub open spec fn bloque_cf_dib_spec(ancho: u32, alto: u32, rgba: Seq<u8>) -> Seq<u8> {
    cabecera_cf_dib(ancho, alto) + con_rb_intercambiado(
        de_abajo_arriba(rgba, ancho as nat, alto as nat),
    )
}

impl ClipboardSink {
    pub fn new() -> (s: Self)
        ensures
            s == ClipboardSink,
    {
        ClipboardSink
    }

    /// Nombre del sink.
    pub fn id(&self) -> (s: &'static str)
        ensures
            s@ == "clipboard"@,
    {
        "clipboard"
    }

    /// Bytes que se copian a la memoria global del CF_DIB para una imagen
    /// RGBA de `width × height`.
    pub fn bloque_cf_dib(&self, width: u32, height: u32, rgba: &[u8]) -> (b: Vec<u8>)
        requires
            rgba@.len() == width * height * 4,
            rgba@.len() + 40 <= usize::MAX,
        ensures
            b@ == bloque_cf_dib_spec(width, height, rgba@),
    {
        let mut pixels = rows_bottom_up(rgba, width, height);
        rgba_to_bgra(pixels.as_mut_slice());
        assert(pixels@ =~= con_rb_intercambiado(de_abajo_arriba(rgba@, width as nat, height as nat)));
        let mut b: Vec<u8> = Vec::new();
        poner_u32(&mut b, 40);
        poner_u32(&mut b, width);
        poner_u32(&mut b, height);
        poner_u16(&mut b, 1);
        poner_u16(&mut b, 32);
        poner_ceros(&mut b, 24);
        assert(b@ =~= cabecera_cf_dib(width, height));
        anadir_bytes(&mut b, pixels.as_slice());
        b
    }
}

} // verus!
