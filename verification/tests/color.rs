use platform_win::color::{color_de_colorref, color_por_defecto, colorref, Color};
use platform_win::fuentes::Rol;

#[test]
fn colorref_va_en_bgr_sin_alfa() {
    assert_eq!(colorref(Color::rgb(0xD8, 0x3B, 0x01)), 0x00013BD8);
    assert_eq!(colorref(Color::rgba(1, 2, 3, 0)), 0x00030201);
}

#[test]
fn el_colorref_del_dialogo_vuelve_a_color_opaco() {
    assert_eq!(color_de_colorref(0x00013BD8), Color::rgb(0xD8, 0x3B, 0x01));
    // El byte alto no cuenta.
    assert_eq!(color_de_colorref(0xFF030201), Color::rgb(1, 2, 3));
    let c = Color::rgba(10, 20, 30, 40);
    assert_eq!(color_de_colorref(colorref(c)), Color::rgb(10, 20, 30));
}

#[test]
fn el_color_por_defecto_es_el_acento_calido() {
    assert_eq!(color_por_defecto(), Color { r: 0xD8, g: 0x3B, b: 0x01, a: 255 });
}

#[test]
fn los_roles_de_fuente_llevan_los_tokens() {
    assert_eq!(Rol::Cuerpo.tam_logico(), 13);
    assert_eq!(Rol::Denso.tam_logico(), 12);
    assert_eq!(Rol::Secundario.tam_logico(), 11);
    assert_eq!(Rol::Mono.tam_logico(), 10);
    assert_eq!(Rol::Mono.familia(), "Consolas");
    assert_eq!(Rol::Cuerpo.familia(), "Segoe UI");
}
