use platform_win::barra::{
    accion_de_bandeja, accion_de_comando, destino_hotkey, mensaje_de_bucle, menu_bandeja, posicion_asa,
    texto_tooltip, AccionBandeja, AccionBarra, DestinoHotkey, EntradaMenu, HotkeysConfig,
    ModoCaptura, MENU_FULLSCREEN, MENU_QUIT, MENU_REPEAT, MENU_TOGGLE, MENU_WINDOW, WM_HOTKEY,
};
use platform_win::hotkeys::HotkeyId;
use platform_win::layout::Caja;
use platform_win::barra::{
    fila, hotkey_tooltip, HotkeyTooltip, ALTO_LOGICO, ID_CLOSE, ID_DELAY, ID_FIXED,
    ID_FULLSCREEN, ID_OBJECT, ID_RECORD, ID_REGION, ID_WINDOW,
};
use platform_win::botonera::{a_items, BotonDef, Elemento};
use platform_win::dpi::Escala;
use platform_win::layout::distribuir;

fn botones(fila: &[Elemento]) -> Vec<&BotonDef> {
    fila.iter()
        .filter_map(|e| match e {
            Elemento::Boton(b) => Some(b),
            _ => None,
        })
        .collect()
}

#[test]
fn la_fila_tiene_dieciseis_botones_con_ids_unicos_y_asa_delante() {
    let fila = fila();
    assert!(matches!(fila[0], Elemento::Asa));
    let botones = botones(&fila);
    assert_eq!(botones.len(), 16);
    let mut ids: Vec<u16> = botones.iter().map(|b| b.id).collect();
    ids.sort_unstable();
    ids.dedup();
    assert_eq!(ids.len(), 16, "ids repetidos");
}

#[test]
fn solo_lo_implementado_esta_habilitado() {
    let fila = fila();
    let habilitados: Vec<u16> =
        botones(&fila).iter().filter(|b| b.habilitado).map(|b| b.id).collect();
    assert_eq!(
        habilitados,
        vec![ID_FULLSCREEN, ID_WINDOW, ID_OBJECT, ID_REGION, ID_FIXED, ID_DELAY, ID_CLOSE]
    );
}

#[test]
fn los_habilitados_de_captura_anuncian_su_hotkey() {
    let fila = fila();
    for b in botones(&fila) {
        if hotkey_tooltip(b.id).is_some() {
            assert!(b.habilitado, "{} con tooltip de hotkey pero deshabilitado", b.nombre);
        }
    }
}

#[test]
fn grabar_lleva_el_tinte_de_grabacion_y_salir_cierra_la_fila() {
    let fila = fila();
    let botones = botones(&fila);
    let record = botones.iter().find(|b| b.id == ID_RECORD).unwrap();
    assert!(record.grabacion);
    assert_eq!(botones.last().unwrap().id, ID_CLOSE);
}

#[test]
fn la_fila_cabe_en_una_sola_linea_de_36_logicos() {
    let fila = fila();
    let items = a_items(&fila);
    assert_eq!(items.len(), fila.len());
    let escala = Escala::nueva(96);
    let (cajas, ancho) = distribuir(&items, escala, escala.px(ALTO_LOGICO), None);
    assert_eq!(cajas.len(), fila.len());
    for caja in &cajas {
        assert!(caja.y >= 0 && caja.y + caja.alto <= escala.px(ALTO_LOGICO));
    }
    assert!(ancho > 500 && ancho < 700, "ancho natural inesperado: {ancho}");
}

#[test]
fn cada_hotkey_de_tooltip_sale_de_su_boton() {
    assert_eq!(hotkey_tooltip(ID_FULLSCREEN), Some(HotkeyTooltip::Fullscreen));
    assert_eq!(hotkey_tooltip(ID_WINDOW), Some(HotkeyTooltip::Window));
    assert_eq!(hotkey_tooltip(ID_REGION), Some(HotkeyTooltip::Region));
    assert_eq!(hotkey_tooltip(ID_DELAY), Some(HotkeyTooltip::Delay));
    assert_eq!(hotkey_tooltip(ID_CLOSE), None);
    assert_eq!(hotkey_tooltip(0), None);
}

#[test]
fn la_fila_empieza_con_los_nombres_del_diseno() {
    let fila = fila();
    let b = botones(&fila);
    assert_eq!(b[0].nombre, "Pantalla completa");
    assert_eq!(b[2].nombre, "Objeto de ventana o menú");
    assert_eq!(b.last().unwrap().nombre, "Salir");
    let separadores = fila.iter().filter(|e| matches!(e, Elemento::Separador)).count();
    assert_eq!(separadores, 3);
}

#[test]
fn los_comandos_de_la_barra_y_del_menu() {
    let pantalla = AccionBarra::Capturar(ModoCaptura::Fullscreen);
    assert_eq!(accion_de_comando(ID_FULLSCREEN), pantalla);
    assert_eq!(accion_de_comando(MENU_FULLSCREEN), pantalla);
    let ventana = AccionBarra::Capturar(ModoCaptura::ActiveWindow);
    assert_eq!(accion_de_comando(ID_WINDOW), ventana);
    assert_eq!(accion_de_comando(MENU_WINDOW), ventana);
    assert_eq!(accion_de_comando(ID_REGION), AccionBarra::Region);
    assert_eq!(accion_de_comando(ID_DELAY), AccionBarra::ConRetardo);
    assert_eq!(accion_de_comando(MENU_REPEAT), AccionBarra::Repetir);
    assert_eq!(accion_de_comando(MENU_TOGGLE), AccionBarra::Alternar);
    assert_eq!(accion_de_comando(ID_CLOSE), AccionBarra::Salir);
    assert_eq!(accion_de_comando(MENU_QUIT), AccionBarra::Salir);
    assert_eq!(accion_de_comando(ID_RECORD), AccionBarra::Nada);
}

#[test]
fn el_tooltip_anuncia_el_hotkey_de_la_config() {
    let hk = HotkeysConfig {
        fullscreen: "Ctrl+Shift+1".to_string(),
        window: "Ctrl+Shift+2".to_string(),
        region: "Ctrl+Shift+3".to_string(),
        delay: "Ctrl+Shift+4".to_string(),
    };
    let fila = fila();
    let defs = botones(&fila);
    let por_id = |id: u16| *defs.iter().find(|b| b.id == id).unwrap();
    assert_eq!(texto_tooltip(por_id(ID_REGION), &hk), "Región (Ctrl+Shift+3)");
    assert_eq!(texto_tooltip(por_id(ID_DELAY), &hk), "Captura con retardo (Ctrl+Shift+4)");
    assert_eq!(texto_tooltip(por_id(ID_CLOSE), &hk), "Salir");
}

#[test]
fn el_hotkey_de_region_va_a_la_barra_y_el_resto_al_bus() {
    assert_eq!(destino_hotkey(HotkeyId(3), Some(HotkeyId(3))), DestinoHotkey::Region);
    assert_eq!(destino_hotkey(HotkeyId(2), Some(HotkeyId(3))), DestinoHotkey::Bus(HotkeyId(2)));
    assert_eq!(destino_hotkey(HotkeyId(2), None), DestinoHotkey::Bus(HotkeyId(2)));
}

#[test]
fn la_bandeja_y_su_menu() {
    assert_eq!(accion_de_bandeja(0x0202), AccionBandeja::Comando(MENU_TOGGLE));
    assert_eq!(accion_de_bandeja(0x0205), AccionBandeja::Menu);
    assert_eq!(accion_de_bandeja(0x007B), AccionBandeja::Menu);
    assert_eq!(accion_de_bandeja(0x0200), AccionBandeja::Nada);
    let menu = menu_bandeja();
    assert_eq!(menu.len(), 6);
    assert!(matches!(menu[2], EntradaMenu::Separador));
    assert!(matches!(menu[5], EntradaMenu::Comando(id, "Salir") if id == MENU_QUIT));
}

#[test]
fn el_asa_se_centra_en_su_caja() {
    let caja = Caja { x: 4, y: 4, ancho: 16, alto: 28 };
    assert_eq!(posicion_asa(&caja, 16), (4, 10));
    assert_eq!(posicion_asa(&caja, 20), (2, 8));
}

#[test]
fn el_bucle_desvia_solo_los_hotkeys_sin_ventana() {
    let region = Some(HotkeyId(3));
    assert_eq!(mensaje_de_bucle(WM_HOTKEY, true, 3, region), Some(DestinoHotkey::Region));
    assert_eq!(
        mensaje_de_bucle(WM_HOTKEY, true, 5, region),
        Some(DestinoHotkey::Bus(HotkeyId(5)))
    );
    // El id va en los 32 bits bajos del wparam.
    assert_eq!(
        mensaje_de_bucle(WM_HOTKEY, true, (1usize << 32) | 7, None),
        Some(DestinoHotkey::Bus(HotkeyId(7)))
    );
    // Con ventana, o cualquier otro mensaje, se despacha.
    assert_eq!(mensaje_de_bucle(WM_HOTKEY, false, 3, region), None);
    assert_eq!(mensaje_de_bucle(0x0201, true, 3, region), None);
}
