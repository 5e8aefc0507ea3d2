use platform_win::iconos::{mascara, talla_para_dpi, tinte_premultiplicado, Icono, DESHABILITADO, NUM_ICONOS};

#[test]
fn la_talla_cubre_los_dpi_estandar() {
    assert_eq!(talla_para_dpi(96), 16);
    assert_eq!(talla_para_dpi(120), 20);
    assert_eq!(talla_para_dpi(144), 24);
    assert_eq!(talla_para_dpi(168), 28);
    assert_eq!(talla_para_dpi(192), 32);
}

#[test]
fn una_talla_intermedia_redondea_hacia_arriba() {
    assert_eq!(talla_para_dpi(110), 20);
    assert_eq!(talla_para_dpi(97), 20);
}

#[test]
fn por_encima_del_atlas_se_usa_la_mayor() {
    assert_eq!(talla_para_dpi(240), 32);
}

#[test]
fn el_tinte_premultiplica_y_respeta_la_opacidad() {
    let color = 0x00C06700;
    let tintado = tinte_premultiplicado(&[0, 255, 128], color, 255);
    assert_eq!(&tintado[0..4], &[0, 0, 0, 0]);
    assert_eq!(&tintado[4..8], &[0xC0, 0x67, 0x00, 255]);
    let a = tintado[11];
    assert_eq!(a, 128);
    assert_eq!(tintado[8], ((0xC0u32 * 128 + 127) / 255) as u8);
    let atenuado = tinte_premultiplicado(&[255], color, DESHABILITADO);
    assert_eq!(atenuado[3], 102);
}

#[test]
fn cada_mascara_sale_de_su_offset_en_el_atlas() {
    // Atlas sintético de 2×2: el icono i lleva sus cuatro bytes a i.
    let talla = 2u32;
    let lado2 = (talla * talla) as usize;
    let atlas: Vec<u8> = (0..NUM_ICONOS * lado2).map(|k| (k / lado2) as u8).collect();
    let m = mascara(&atlas, Icono::CaptureRegion, talla);
    assert_eq!(m, &[3, 3, 3, 3]);
    let primero = mascara(&atlas, Icono::SysDragHandle, talla);
    assert_eq!(primero, &[0, 0, 0, 0]);
    let ultimo = mascara(&atlas, Icono::OutputOpen, talla);
    assert_eq!(ultimo, &[40, 40, 40, 40]);
    assert_eq!(Icono::OutputPrint.indice(), 37);
    // El orden es el del inventario que genera los atlas.
    assert_eq!(Icono::EditRotate.indice(), 38);
    assert_eq!(Icono::OutputEmail.indice(), 39);
}
