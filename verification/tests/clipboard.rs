use platform_win::clipboard::ClipboardSink;

fn u32_en(b: &[u8], p: usize) -> u32 {
    u32::from_le_bytes(b[p..p + 4].try_into().unwrap())
}

#[test]
fn el_sink_se_llama_clipboard() {
    assert_eq!(ClipboardSink::new().id(), "clipboard");
}

#[test]
fn el_cf_dib_lleva_cabecera_de_32_bpp_y_alto_positivo() {
    let sink = ClipboardSink::new();
    let rgba = [255u8, 0, 0, 255, 0, 255, 0, 255, 0, 0, 255, 255, 1, 2, 3, 4, 5, 6, 7, 8, 9, 10, 11, 12];
    // 3×2
    let b = sink.bloque_cf_dib(3, 2, &rgba);
    assert_eq!(b.len(), 40 + 24);
    assert_eq!(u32_en(&b, 0), 40);
    assert_eq!(u32_en(&b, 4), 3);
    assert_eq!(u32_en(&b, 8), 2); // positivo: bottom-up
    assert_eq!(&b[12..16], &[1, 0, 32, 0]); // un plano, 32 bpp
    assert_eq!(&b[16..40], &[0u8; 24]); // BI_RGB y el resto a cero
    // Primero la fila de abajo, en BGRA.
    assert_eq!(&b[40..52], &[3, 2, 1, 4, 7, 6, 5, 8, 11, 10, 9, 12]);
    assert_eq!(&b[52..64], &[0, 0, 255, 255, 0, 255, 0, 255, 255, 0, 0, 255]);
}

#[test]
fn una_imagen_vacia_es_solo_la_cabecera() {
    let b = ClipboardSink::new().bloque_cf_dib(0, 5, &[]);
    assert_eq!(b.len(), 40);
    assert_eq!(u32_en(&b, 8), 5);
}
