use platform_win::boton::{aspecto, posicion_icono, Aspecto, EstadoBoton, ODS_DISABLED, ODS_SELECTED};
use platform_win::geometria::Zona;
use platform_win::iconos::{Icono, DESHABILITADO, OPACO};
use platform_win::tema::claro;

#[test]
fn el_hover_se_enciende_una_vez_y_se_apaga_al_salir() {
    let mut e = EstadoBoton::nuevo(Icono::CaptureRegion, false);
    let t = e.al_mover();
    assert!(t.repintar && t.pedir_rastreo);
    e.rastreo_pedido(true);
    let t = e.al_mover();
    assert!(!t.repintar && !t.pedir_rastreo);
    assert!(e.hover && e.rastreando);
    e.al_salir();
    assert!(!e.hover && !e.rastreando);
}

#[test]
fn cada_estado_pinta_lo_suyo() {
    let p = claro();
    let mut e = EstadoBoton::nuevo(Icono::CaptureRegion, false);
    assert_eq!(aspecto(&e, 0, &p), Aspecto { fondo: None, color_icono: p.texto, opacidad: OPACO });
    assert_eq!(aspecto(&e, ODS_SELECTED, &p).fondo, Some(p.pressed));
    e.al_mover();
    assert_eq!(aspecto(&e, 0, &p).fondo, Some(p.hover));
    // Deshabilitado: sin hover y con el icono atenuado.
    assert_eq!(
        aspecto(&e, ODS_DISABLED, &p),
        Aspecto { fondo: None, color_icono: p.texto, opacidad: DESHABILITADO }
    );
    e.activo = true;
    assert_eq!(
        aspecto(&e, ODS_SELECTED, &p),
        Aspecto { fondo: Some(p.acento), color_icono: 0x00FFFFFF, opacidad: OPACO }
    );
    let grabar = EstadoBoton::nuevo(Icono::RecordStart, true);
    assert_eq!(aspecto(&grabar, 0, &p).color_icono, p.grabacion);
}

#[test]
fn el_icono_se_centra_en_el_boton() {
    let rc = Zona { left: 10, top: 20, right: 38, bottom: 48 };
    assert_eq!(posicion_icono(&rc, 16), (16, 26));
    assert_eq!(posicion_icono(&rc, 32), (8, 18));
}
