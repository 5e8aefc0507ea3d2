use platform_win::color::Color;
use platform_win::dibujo::{
    accion_de_comando, accion_de_tecla, color_muestra, controles, controles_de_texto_activos,
    dest_rect, tamano_ventana, AccionDibujo, EstiloControl, Tool, ID_BOLD, ID_CANCEL,
    ID_COLOR_BASE, ID_GROSOR_BASE, ID_OK, ID_TAMANO_BASE, ID_TOOL_BASE, ID_UNDO, NUM_CONTROLES,
    VK_ESCAPE,
};
use platform_win::geometria::Rect;

#[test]
fn cada_comando_pide_lo_suyo() {
    assert_eq!(accion_de_comando(ID_TOOL_BASE), AccionDibujo::Herramienta(Tool::Rect));
    assert_eq!(accion_de_comando(ID_TOOL_BASE + 6), AccionDibujo::Herramienta(Tool::Text));
    assert_eq!(accion_de_comando(ID_COLOR_BASE + 4), AccionDibujo::Color(Color::rgb(0, 90, 255)));
    assert_eq!(accion_de_comando(ID_GROSOR_BASE + 3), AccionDibujo::Grosor(5));
    assert_eq!(accion_de_comando(ID_TAMANO_BASE + 4), AccionDibujo::Tamano(36));
    assert_eq!(accion_de_comando(ID_BOLD), AccionDibujo::Negrita);
    assert_eq!(accion_de_comando(ID_UNDO), AccionDibujo::Deshacer);
    assert_eq!(accion_de_comando(ID_OK), AccionDibujo::Aceptar);
    assert_eq!(accion_de_comando(ID_CANCEL), AccionDibujo::Cancelar);
    assert_eq!(accion_de_comando(ID_TOOL_BASE + 7), AccionDibujo::Nada);
    assert_eq!(accion_de_comando(0), AccionDibujo::Nada);
}

#[test]
fn las_teclas_de_la_ventana_de_dibujo() {
    assert_eq!(accion_de_tecla(VK_ESCAPE, false), AccionDibujo::Cancelar);
    assert_eq!(accion_de_tecla(b'Z' as u16, true), AccionDibujo::Deshacer);
    assert_eq!(accion_de_tecla(b'Y' as u16, true), AccionDibujo::Rehacer);
    assert_eq!(accion_de_tecla(b'Z' as u16, false), AccionDibujo::Nada);
}

#[test]
fn las_muestras_de_color() {
    assert_eq!(color_muestra(0), Color::rgb(0, 0, 0));
    assert_eq!(color_muestra(7), Color::rgb(128, 0, 128));
}

#[test]
fn los_controles_de_texto_solo_con_texto_y_fuente() {
    assert!(controles_de_texto_activos(Tool::Text, true));
    assert!(!controles_de_texto_activos(Tool::Text, false));
    assert!(!controles_de_texto_activos(Tool::Pen, true));
}

#[test]
fn el_tamano_inicial_se_acota() {
    assert_eq!(tamano_ventana(100, 100), (640, 420));
    assert_eq!(tamano_ventana(800, 600), (936, 728));
    assert_eq!(tamano_ventana(4000, 3000), (1360, 900));
}

#[test]
fn el_lienzo_va_tras_la_paleta() {
    // Cliente 500×348: lienzo 404×300; imagen 200×100 centrada.
    assert_eq!(dest_rect((500, 348), (200, 100)), Rect::new(96 + 102, 100, 200, 100));
    // Cliente más pequeño que la paleta: vacío.
    assert!(dest_rect((50, 50), (200, 100)).is_empty());
}

#[test]
fn los_botones_de_la_ventana_y_su_sitio() {
    let cs = controles(800, 600, Tool::Rect, true);
    assert_eq!(cs.len(), NUM_CONTROLES);
    assert_eq!((cs[0].id, cs[0].texto, cs[0].x, cs[0].y), (4001, "Rect", 6, 10));
    assert_eq!((cs[6].texto, cs[6].y), ("Texto", 10 + 6 * 32));
    assert_eq!((cs[7].texto, cs[7].y), ("Deshacer", 246));
    assert_eq!((cs[8].texto, cs[8].y), ("Rehacer", 278));
    // Muestras en la barra inferior, pintadas por la ventana.
    assert_eq!((cs[9].id, cs[9].x, cs[9].y, cs[9].estilo), (4030, 104, 562, EstiloControl::Muestra));
    assert_eq!((cs[17].texto, cs[17].x), ("Más…", 332));
    assert_eq!((cs[18].texto, cs[18].x), ("1", 392));
    assert_eq!((cs[22].texto, cs[22].x), ("8", 392 + 4 * 26));
    assert_eq!((cs[23].texto, cs[23].x), ("12", 530));
    assert_eq!((cs[28].texto, cs[28].x, cs[28].estilo), ("B", 684, EstiloControl::Alternar));
    assert_eq!((cs[29].texto, cs[29].x), ("Cancelar", 710));
    assert_eq!((cs[30].texto, cs[30].x), ("OK", 620));
    let mut ids: Vec<u16> = cs.iter().map(|c| c.id).collect();
    ids.sort_unstable();
    ids.dedup();
    assert_eq!(ids.len(), NUM_CONTROLES);
}

#[test]
fn tamano_y_negrita_nacen_deshabilitados_y_texto_pide_fuente() {
    let cs = controles(800, 600, Tool::Rect, true);
    assert!(cs[6].habilitado);
    assert!(cs[23..29].iter().all(|c| !c.habilitado));
    assert!(cs.iter().enumerate().all(|(k, c)| c.habilitado || (23..29).contains(&k)));

    let sin_fuente = controles(800, 600, Tool::Rect, false);
    assert!(!sin_fuente[6].habilitado);
    assert!(sin_fuente[23..29].iter().all(|c| !c.habilitado));

    let con_texto = controles(800, 600, Tool::Text, true);
    assert!(con_texto.iter().all(|c| c.habilitado));

    let texto_sin_fuente = controles(800, 600, Tool::Text, false);
    assert!(!texto_sin_fuente[6].habilitado);
    assert!(texto_sin_fuente[23..29].iter().all(|c| !c.habilitado));
}
