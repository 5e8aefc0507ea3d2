use platform_win::editor::Herramienta;
use platform_win::dpi::Escala;
use platform_win::geometria::Zona;
use platform_win::props::{
    chip_en, chips, disponer_chips, etiquetas_px, medidas_chips, posicion, Accion, CensorMode,
    Propiedades, GROSORES, TAMANOS,
};

#[test]
fn las_formas_llevan_grosor_y_color() {
    let p = Propiedades::default();
    for h in [
        Herramienta::Flecha,
        Herramienta::Linea,
        Herramienta::Rect,
        Herramienta::Elipse,
        Herramienta::Lapiz,
    ] {
        let chips = chips(h, &p);
        assert_eq!(chips.len(), 2, "{h:?}");
        assert_eq!(chips[0].etiqueta, "Grosor 3 px");
        assert_eq!(chips[0].accion, Accion::MenuGrosor);
        assert!(chips[1].muestra_color);
    }
}

#[test]
fn el_texto_lleva_tamano_negrita_y_color() {
    let p = Propiedades { tamano_texto: 28, negrita: true, ..Propiedades::default() };
    let chips = chips(Herramienta::Texto, &p);
    assert_eq!(chips.len(), 3);
    assert_eq!(chips[0].etiqueta, "Tamaño 28");
    assert_eq!(chips[1].etiqueta, "Negrita: sí");
    assert_eq!(chips[1].accion, Accion::ToggleNegrita);
    assert_eq!(chips[2].accion, Accion::ElegirColor);
}

#[test]
fn el_resaltador_solo_lleva_color() {
    let chips = chips(Herramienta::Resaltador, &Propiedades::default());
    assert_eq!(chips.len(), 1);
    assert!(chips[0].muestra_color);
}

#[test]
fn seleccion_y_goma_no_llevan_chips() {
    let p = Propiedades::default();
    assert!(chips(Herramienta::Seleccion, &p).is_empty());
    assert!(chips(Herramienta::Goma, &p).is_empty());
}

#[test]
fn el_pixelado_lleva_modo_y_px_pero_no_color() {
    let chips = chips(Herramienta::Pixelado, &Propiedades::default());
    assert_eq!(chips.len(), 2);
    assert_eq!(chips[0].etiqueta, "Modo: mosaico");
    assert_eq!(chips[0].accion, Accion::ToggleCensura);
    assert_eq!(chips[1].etiqueta, "Bloque 8 px");
    assert_eq!(chips[1].accion, Accion::MenuCensuraPx);
    assert!(!chips[0].muestra_color && !chips[1].muestra_color);
}

#[test]
fn el_desenfoque_etiqueta_los_px_como_radio() {
    let p = Propiedades { censura: CensorMode::Blur { radius: 12 }, ..Propiedades::default() };
    let chips = chips(Herramienta::Pixelado, &p);
    assert_eq!(chips[0].etiqueta, "Modo: desenfoque");
    assert_eq!(chips[1].etiqueta, "Radio 12 px");
}

#[test]
fn los_pasos_llevan_tamano_y_color() {
    let chips = chips(Herramienta::Pasos, &Propiedades::default());
    assert_eq!(chips.len(), 2);
    assert_eq!(chips[0].etiqueta, "Tamaño 20");
    assert_eq!(chips[0].accion, Accion::MenuTamano);
    assert!(chips[1].muestra_color);
}

#[test]
fn el_texto_sin_negrita_lo_dice_y_el_grosor_grande_se_escribe_entero() {
    let p = Propiedades { grosor: 1234567, ..Propiedades::default() };
    assert_eq!(chips(Herramienta::Flecha, &p)[0].etiqueta, "Grosor 1234567 px");
    assert_eq!(chips(Herramienta::Texto, &Propiedades::default())[1].etiqueta, "Negrita: no");
    assert_eq!(chips(Herramienta::Texto, &Propiedades::default())[2].etiqueta, "Color");
}

#[test]
fn la_censura_da_su_px_segun_el_modo() {
    let mut p = Propiedades::default();
    assert_eq!(p.censura_px(), 8);
    p.censura = CensorMode::Blur { radius: 5 };
    assert_eq!(p.censura_px(), 5);
}

#[test]
fn los_chips_se_disponen_de_izquierda_a_derecha() {
    let p = Propiedades::default();
    let lista = chips(Herramienta::Rect, &p); // Grosor, Color
    let m = medidas_chips(Escala::nueva(96));
    let banda = Zona { left: 0, top: 40, right: 600, bottom: 66 };
    let zonas = disponer_chips(&lista, &[70, 40], banda, &m);
    assert_eq!(zonas.len(), 2);
    assert_eq!(zonas[0].zona, Zona { left: 12, top: 40, right: 82, bottom: 66 });
    assert_eq!(zonas[0].muestra, None);
    assert_eq!(zonas[0].accion, Accion::MenuGrosor);
    // El de color lleva muestra: 40 de texto + 6 de hueco + 14 de muestra.
    assert_eq!(zonas[1].zona, Zona { left: 98, top: 40, right: 158, bottom: 66 });
    assert_eq!(zonas[1].muestra, Some(Zona { left: 144, top: 46, right: 158, bottom: 60 }));
    // Hit-test.
    assert_eq!(chip_en(&zonas, (20, 50)), Some(Accion::MenuGrosor));
    assert_eq!(chip_en(&zonas, (150, 50)), Some(Accion::ElegirColor));
    assert_eq!(chip_en(&zonas, (90, 50)), None);
    assert_eq!(chip_en(&zonas, (20, 66)), None);
}

#[test]
fn los_menus_de_opciones_en_px() {
    let e = etiquetas_px(&GROSORES);
    assert_eq!(e, vec!["1 px", "2 px", "3 px", "5 px", "8 px"]);
    assert_eq!(posicion(&GROSORES, 3), Some(2));
    assert_eq!(posicion(&TAMANOS, 20), Some(2));
    assert_eq!(posicion(&TAMANOS, 21), None);
}
