use platform_win::dpi::Escala;
use platform_win::geometria::{Rect, Zona};
use platform_win::seleccion::{
    dibujo_lupa, lineas_lupa, monitor_local, pixel_bajo_el_cursor, zona_de_seleccion, zona_lupa,
    AccionSeleccion, EventoSeleccion, Seleccion,
};

fn z(left: i32, top: i32, right: i32, bottom: i32) -> Zona {
    Zona { left, top, right, bottom }
}

#[test]
fn arrastrar_y_soltar_elige_la_region_normalizada() {
    let mut s = Seleccion::nueva();
    assert_eq!(s.paso(EventoSeleccion::Pulsar((60, 80))), AccionSeleccion::Capturar);
    assert_eq!(s.drag_start, Some((60, 80)));
    let lupa = z(76, 96, 202, 258);
    match s.paso(EventoSeleccion::Mover((10, 20), lupa)) {
        AccionSeleccion::Invalidar(zonas) => {
            // La lupa nueva y la selección nueva (no había previas).
            assert_eq!(zonas, vec![lupa, z(8, 18, 62, 82)]);
        }
        otra => panic!("{otra:?}"),
    }
    assert_eq!(s.sel_previa, Some(Rect::new(10, 20, 50, 60)));
    assert_eq!(
        s.paso(EventoSeleccion::Soltar((10, 20))),
        AccionSeleccion::Terminar { liberar_captura: true }
    );
    assert_eq!(s.outcome, Some(Some(Rect::new(10, 20, 50, 60))));
    // En coordenadas de escritorio con un monitor a la izquierda.
    assert_eq!(s.resultado((-1920, 0)), Some(Rect::new(-1910, 20, 50, 60)));
}

#[test]
fn el_segundo_movimiento_repinta_lo_viejo_y_lo_nuevo() {
    let mut s = Seleccion::nueva();
    s.paso(EventoSeleccion::Pulsar((0, 0)));
    let l1 = z(1, 1, 2, 2);
    let l2 = z(3, 3, 4, 4);
    s.paso(EventoSeleccion::Mover((5, 5), l1));
    match s.paso(EventoSeleccion::Mover((7, 9), l2)) {
        AccionSeleccion::Invalidar(zonas) => {
            assert_eq!(zonas, vec![l1, l2, z(-2, -2, 7, 7), z(-2, -2, 9, 11)]);
        }
        otra => panic!("{otra:?}"),
    }
}

#[test]
fn mover_sin_arrastre_solo_repinta_la_lupa() {
    let mut s = Seleccion::nueva();
    let l = z(0, 0, 10, 10);
    assert_eq!(s.paso(EventoSeleccion::Mover((3, 4), l)), AccionSeleccion::Invalidar(vec![l]));
    assert_eq!(s.cursor, (3, 4));
    // Soltar sin haber pulsado no hace nada.
    assert_eq!(s.paso(EventoSeleccion::Soltar((3, 4))), AccionSeleccion::Nada);
    assert_eq!(s.outcome, None);
}

#[test]
fn esc_cancela_sin_region() {
    let mut s = Seleccion::nueva();
    s.paso(EventoSeleccion::Pulsar((5, 5)));
    assert_eq!(
        s.paso(EventoSeleccion::Escape),
        AccionSeleccion::Terminar { liberar_captura: false }
    );
    assert_eq!(s.outcome, Some(None));
    assert_eq!(s.resultado((0, 0)), None);
}

#[test]
fn la_zona_de_una_seleccion_cubre_su_marco() {
    assert_eq!(zona_de_seleccion(Rect::new(10, 20, 30, 40)), z(8, 18, 42, 62));
}

#[test]
fn la_caja_de_lupa_a_96_dpi() {
    let monitor = Rect::new(0, 0, 1920, 1080);
    // Celda de 6, zoom de 126, información de 36, separación de 16.
    assert_eq!(zona_lupa(monitor, (100, 100), Escala::nueva(96)), z(116, 116, 242, 278));
    // Junto al borde inferior derecho se da la vuelta.
    assert_eq!(
        zona_lupa(monitor, (1900, 1060), Escala::nueva(96)),
        z(1758, 882, 1884, 1044)
    );
    // A 144 dpi todo crece a 1,5×.
    assert_eq!(zona_lupa(monitor, (100, 100), Escala::nueva(144)), z(124, 124, 313, 367));
}

#[test]
fn el_pixel_bajo_el_cursor_se_acota_al_frame() {
    // 2×2 BGRA.
    let bits = [1u8, 2, 3, 0, 4, 5, 6, 0, 7, 8, 9, 0, 10, 11, 12, 0];
    assert_eq!(pixel_bajo_el_cursor(&bits, (1, 1), 2, 2), (10, 11, 12));
    assert_eq!(pixel_bajo_el_cursor(&bits, (-5, 0), 2, 2), (1, 2, 3));
    assert_eq!(pixel_bajo_el_cursor(&bits, (99, 0), 2, 2), (4, 5, 6));
    // Un buffer corto da negro.
    assert_eq!(pixel_bajo_el_cursor(&bits[..8], (0, 1), 2, 2), (0, 0, 0));
}

#[test]
fn el_monitor_local_resta_el_origen() {
    assert_eq!(
        monitor_local(Some(z(0, 0, 1920, 1080)), (-1920, 0), 3840, 1080),
        Rect::new(1920, 0, 1920, 1080)
    );
    assert_eq!(monitor_local(None, (-1920, 0), 3840, 1080), Rect::new(0, 0, 3840, 1080));
}

#[test]
fn las_lineas_de_la_lupa() {
    let (l1, l2) = lineas_lupa(0xAB, 0x7D, 0x4A, (100, 5), (-1920, 0), None);
    assert_eq!(l1, "#4A7DAB · -1820, 5");
    assert_eq!(l2, "");
    let (_, l2) = lineas_lupa(0, 0, 0, (0, 0), (0, 0), Some(Rect::new(0, 0, 640, 480)));
    assert_eq!(l2, "sel 640 × 480");
}

#[test]
fn la_lupa_recuadra_el_pixel_del_cursor_y_reparte_el_texto() {
    let caja = z(100, 200, 226, 362);
    let d = dibujo_lupa(caja, (50, 60), (40, 50), Escala::nueva(96));
    // Celda de 6 px: el cursor está 10 celdas a la derecha y abajo.
    assert_eq!(d.recuadro_interior, z(160, 260, 166, 266));
    assert_eq!(d.recuadro_exterior, z(159, 259, 167, 267));
    // Bajo la rejilla de 21 × 6 = 126 px.
    assert_eq!(d.info, z(100, 326, 226, 362));
    // Margen 6, medio margen arriba, líneas de 18 px.
    assert_eq!(d.lineas.0, z(106, 329, 220, 362));
    assert_eq!(d.lineas.1, z(106, 347, 220, 362));
}
