use platform_win::editor::Reparto;
use platform_win::geometria::Rect;
use platform_win::ventana_editor::{
    destino_imagen, formato_de_filtro, porcentaje, ruta_con_extension, tamano_ventana,
    texto_estado, titulo_captura, titulo_guardado, AccionCierre, EditorSink, EstadoEditor,
    ImageFormat, OutputError,
};

fn ruta(r: &str, f: ImageFormat) -> String {
    let v: Vec<char> = r.chars().collect();
    ruta_con_extension(&v, f).iter().collect()
}

#[test]
fn guardar_como_anade_la_extension_si_falta() {
    assert_eq!(ruta("C:\\capturas\\captura", ImageFormat::Png), "C:\\capturas\\captura.png");
    assert_eq!(ruta("captura.PNG", ImageFormat::Png), "captura.PNG");
    assert_eq!(ruta("foto.jpeg", ImageFormat::Jpeg), "foto.jpeg");
    assert_eq!(ruta("foto.JPG", ImageFormat::Jpeg), "foto.JPG");
    assert_eq!(ruta("foto.jpeg", ImageFormat::Png), "foto.jpeg.png");
    assert_eq!(ruta("png", ImageFormat::Png), "png.png");
}

#[test]
fn el_filtro_elige_el_formato() {
    assert_eq!(formato_de_filtro(2), ImageFormat::Jpeg);
    assert_eq!(formato_de_filtro(1), ImageFormat::Png);
    assert_eq!(formato_de_filtro(0), ImageFormat::Png);
    assert_eq!(ImageFormat::Jpeg.extension(), "jpg");
    assert_eq!(ImageFormat::Png.extension(), "png");
}

#[test]
fn el_tamano_inicial_y_los_titulos() {
    assert_eq!(tamano_ventana(100, 100), (720, 400));
    assert_eq!(tamano_ventana(1000, 500), (1060, 660));
    assert_eq!(tamano_ventana(5000, 5000), (1280, 840));
    assert_eq!(titulo_captura(1920, 1080), "Captura 1920×1080 — RustCapture");
    assert_eq!(titulo_guardado("a.png"), "a.png — RustCapture");
}

#[test]
fn la_imagen_va_entre_propiedades_y_estado() {
    let r = Reparto { toolbar_fin: 54, props_fin: 93, status_inicio: 564 };
    // Canvas de 600×471: la imagen de 200×100 se centra.
    assert_eq!(destino_imagen(600, &r, (200, 100)), Rect::new(200, 93 + 185, 200, 100));
    let d = destino_imagen(600, &r, (1200, 471));
    assert_eq!(d, Rect::new(0, 93 + 118, 600, 235));
    assert_eq!(porcentaje(d.width, 1200), 50);
    assert_eq!(porcentaje(0, 0), 100);
}

#[test]
fn la_barra_de_estado() {
    assert_eq!(texto_estado(1920, 1080, 50, None, false), "1920 × 1080 px · 50 % · PNG");
    assert_eq!(
        texto_estado(10, 20, 100, Some("a.png"), true),
        "10 × 20 px · 100 % · a.png · sin guardar"
    );
}

#[test]
fn el_editor_sabe_si_hay_cambios_sin_guardar() {
    let mut e = EstadoEditor::nuevo();
    assert_eq!(e.al_cerrar(), AccionCierre::Destruir);
    assert_eq!(e.texto_estado(100, 50, 100), "100 × 50 px · 100 % · PNG");
    e.editado();
    assert_eq!(e.al_cerrar(), AccionCierre::Preguntar);
    assert_eq!(e.texto_estado(100, 50, 100), "100 × 50 px · 100 % · PNG · sin guardar");
    e.guardado("captura.png".to_string());
    assert_eq!(e.al_cerrar(), AccionCierre::Destruir);
    assert_eq!(e.texto_estado(100, 50, 80), "100 × 50 px · 80 % · captura.png");
    e.editado();
    e.copiado();
    assert_eq!(e.al_cerrar(), AccionCierre::Destruir);
    assert!(!e.cerrado);
    e.destruido();
    assert!(e.cerrado);
}

#[test]
fn un_solo_editor_a_la_vez() {
    let sink = EditorSink::new(0x1234);
    assert_eq!(sink.id(), "editor");
    assert_eq!(sink.barra(), 0x1234);
    assert_eq!(sink.antes_de_entregar(false), Ok(()));
    assert_eq!(
        sink.antes_de_entregar(true),
        Err(OutputError::Failed("editor ocupado".to_string()))
    );
    assert_eq!(sink.tras_publicar(true), Ok(()));
    assert_eq!(
        sink.tras_publicar(false),
        Err(OutputError::Failed("la barra no está disponible".to_string()))
    );
}
