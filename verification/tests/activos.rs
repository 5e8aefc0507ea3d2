use platform_win::activos::{
    codificar_dib, construir_ico, decodificar_png, generar_atlas_rs, kebab_a_camel, mascara_vacia,
    DatosIco, EntradaIco, ErrorPng, ICONOS,
    TALLAS,
};

#[test]
fn kebab_a_camel_convierte_nombres_del_set() {
    assert_eq!(kebab_a_camel("capture-fullscreen"), "CaptureFullscreen");
    assert_eq!(kebab_a_camel("sys-drag-handle"), "SysDragHandle");
    assert_eq!(kebab_a_camel("annotate-save-as"), "AnnotateSaveAs");
}

#[test]
fn el_enum_generado_lista_todos_los_iconos_en_orden() {
    let src = generar_atlas_rs();
    assert!(src.contains("SysDragHandle = 0,"));
    assert!(src.contains(&format!("OutputEmail = {},", ICONOS.len() - 1)));
    assert!(src.contains(&format!("NUM_ICONOS: usize = {};", ICONOS.len())));
}

#[test]
fn el_ico_tiene_cabecera_directorio_y_offsets_consistentes() {
    let rgba4: Vec<u8> = (0..4 * 4 * 4).map(|i| i as u8).collect();
    let png_falso = vec![0x89, b'P', b'N', b'G', 1, 2, 3];
    let entradas = vec![
        EntradaIco { lado: 4, datos: DatosIco::Rgba(rgba4) },
        EntradaIco { lado: 256, datos: DatosIco::Png(png_falso.clone()) },
    ];
    let ico = construir_ico(&entradas);

    assert_eq!(&ico[0..6], &[0, 0, 1, 0, 2, 0]); // reservado, tipo 1, 2 imágenes
    let entrada = |i: usize| &ico[6 + i * 16..6 + (i + 1) * 16];
    let u32_en = |b: &[u8], p: usize| u32::from_le_bytes(b[p..p + 4].try_into().unwrap());

    // Entrada 0: 4×4 DIB — 40 cabecera + 64 XOR + 16 AND (4 filas de 4 bytes)
    assert_eq!(entrada(0)[0], 4);
    let tam0 = u32_en(entrada(0), 8) as usize;
    let off0 = u32_en(entrada(0), 12) as usize;
    assert_eq!(tam0, 40 + 64 + 16);
    assert_eq!(off0, 6 + 2 * 16);

    // Entrada 1: 256 se codifica como 0 y es el PNG tal cual a continuación
    assert_eq!(entrada(1)[0], 0);
    let tam1 = u32_en(entrada(1), 8) as usize;
    let off1 = u32_en(entrada(1), 12) as usize;
    assert_eq!(off1, off0 + tam0);
    assert_eq!(&ico[off1..off1 + tam1], &png_falso[..]);
    assert_eq!(ico.len(), off1 + tam1);
}

#[test]
fn el_dib_dobla_el_alto_y_reordena_a_bgra_bottom_up() {
    // 1×1 rojo semitransparente: RGBA (255, 0, 0, 128)
    let dib = codificar_dib(&[255, 0, 0, 128], 1);
    assert_eq!(u32::from_le_bytes(dib[0..4].try_into().unwrap()), 40);
    assert_eq!(i32::from_le_bytes(dib[8..12].try_into().unwrap()), 2); // alto doble
    assert_eq!(&dib[40..44], &[0, 0, 255, 128]); // BGRA
    assert_eq!(dib.len(), 40 + 4 + 4); // cabecera + XOR + fila AND alineada
}

#[test]
fn el_dib_pone_la_ultima_fila_primero() {
    // 2×2: fila de arriba roja y verde, fila de abajo azul y blanca.
    let rgba = [
        255, 0, 0, 255, 0, 255, 0, 255, //
        0, 0, 255, 255, 255, 255, 255, 255,
    ];
    let dib = codificar_dib(&rgba, 2);
    assert_eq!(&dib[40..48], &[255, 0, 0, 255, 255, 255, 255, 255]);
    assert_eq!(&dib[48..56], &[0, 0, 255, 255, 0, 255, 0, 255]);
    // Máscara AND: 2 filas de 4 bytes a cero.
    assert_eq!(&dib[56..], &[0u8; 8]);
}

#[test]
fn kebab_a_camel_respeta_lo_que_no_es_guion() {
    assert_eq!(kebab_a_camel("a"), "A");
    assert_eq!(kebab_a_camel("x--y"), "XY");
    assert_eq!(kebab_a_camel(""), "");
}

#[test]
fn las_tallas_del_atlas_y_el_set_de_iconos() {
    assert_eq!(TALLAS, [16, 20, 24, 28, 32]);
    assert_eq!(ICONOS[0], "sys-drag-handle");
    assert_eq!(ICONOS.len(), 40);
    assert_eq!(ICONOS[38], "edit-rotate");
    assert_eq!(ICONOS[39], "output-email");
}

#[test]
fn el_enum_generado_trae_cuarenta_iconos() {
    let src = generar_atlas_rs();
    assert!(src.contains("EditRotate = 38,"));
    assert!(src.contains("OutputEmail = 39,"));
    assert!(src.contains("NUM_ICONOS: usize = 40;"));
}

fn png_de(ancho: u32, alto: u32, color: png::ColorType, datos: &[u8]) -> Vec<u8> {
    let mut salida = Vec::new();
    {
        let mut enc = png::Encoder::new(&mut salida, ancho, alto);
        enc.set_color(color);
        enc.set_depth(png::BitDepth::Eight);
        let mut w = enc.write_header().unwrap();
        w.write_image_data(datos).unwrap();
    }
    salida
}

#[test]
fn el_png_del_icono_se_decodifica_a_rgba() {
    let rgba: Vec<u8> = (0..2 * 2 * 4).map(|i| i as u8 * 10).collect();
    let crudo = png_de(2, 2, png::ColorType::Rgba, &rgba);
    assert_eq!(decodificar_png(&crudo, 2), Ok(rgba));
}

#[test]
fn el_png_del_icono_tiene_que_medir_y_ser_rgba() {
    let rgba = vec![0u8; 2 * 2 * 4];
    let crudo = png_de(2, 2, png::ColorType::Rgba, &rgba);
    let e = decodificar_png(&crudo, 3).unwrap_err();
    assert_eq!(e, ErrorPng::Tamano { ancho: 2, alto: 2, esperado: 3 });
    assert_eq!(e.mensaje(), "png de 2×2, se esperaba 3×3");
    let rgb = png_de(2, 2, png::ColorType::Rgb, &[0u8; 2 * 2 * 3]);
    let e = decodificar_png(&rgb, 2).unwrap_err();
    assert_eq!(e, ErrorPng::Formato);
    assert_eq!(e.mensaje(), "el png del icono debe ser RGBA de 8 bits");
    assert!(matches!(decodificar_png(&[1, 2, 3], 2), Err(ErrorPng::Ilegible(_))));
}

#[test]
fn una_mascara_sin_cobertura_esta_vacia() {
    assert!(mascara_vacia(&[0, 0, 0]));
    assert!(mascara_vacia(&[]));
    assert!(!mascara_vacia(&[0, 7, 0]));
}
