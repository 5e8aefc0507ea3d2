use platform_win::geometria::Rect;
use platform_win::ventanas::{bajo_el_cursor, descartable, rect_de_ventana, Candidato};

fn c(x: i32, y: i32, w: u32, h: u32, profundidad: u16) -> Candidato {
    Candidato {
        rect: Rect::new(x, y, w, h),
        profundidad,
    }
}

#[test]
fn gana_el_rect_mas_pequeno_que_contiene_el_punto() {
    // Escritorio, diálogo dentro y botón dentro del diálogo.
    let cs = [
        c(0, 0, 1920, 1080, 0),
        c(400, 300, 400, 200, 0),
        c(420, 320, 80, 24, 1),
    ];
    assert_eq!(
        bajo_el_cursor(&cs, (430, 330)),
        Some(Rect::new(420, 320, 80, 24)),
        "sobre el botón debe ganar el botón"
    );
    assert_eq!(
        bajo_el_cursor(&cs, (600, 400)),
        Some(Rect::new(400, 300, 400, 200)),
        "dentro del diálogo pero fuera del botón"
    );
    assert_eq!(
        bajo_el_cursor(&cs, (50, 50)),
        Some(Rect::new(0, 0, 1920, 1080)),
        "fuera de todo menos del escritorio"
    );
}

#[test]
fn a_igual_area_gana_el_hijo() {
    // Un control que ocupa todo su padre: pasa con los paneles.
    let cs = [c(10, 10, 100, 50, 0), c(10, 10, 100, 50, 1)];
    let elegido = cs
        .iter()
        .filter(|x| x.rect.contains_point((20, 20)))
        .min_by_key(|x| {
            let area = x.rect.width as u64 * x.rect.height as u64;
            (area, u16::MAX - x.profundidad)
        })
        .unwrap();
    assert_eq!(elegido.profundidad, 1);
    // La biblioteca elige el mismo rect.
    assert_eq!(bajo_el_cursor(&cs, (20, 20)), Some(Rect::new(10, 10, 100, 50)));
}

#[test]
fn sin_candidatos_o_fuera_de_todos_es_none() {
    assert_eq!(bajo_el_cursor(&[], (5, 5)), None);
    assert_eq!(bajo_el_cursor(&[c(0, 0, 10, 10, 0)], (50, 50)), None);
}

#[test]
fn un_monitor_a_la_izquierda_del_primario_funciona_igual() {
    // Origen negativo: es el caso que rompe la aritmética sin signo.
    let cs = [c(-1920, 0, 1920, 1080, 0), c(-800, 100, 300, 200, 0)];
    assert_eq!(
        bajo_el_cursor(&cs, (-700, 150)),
        Some(Rect::new(-800, 100, 300, 200))
    );
    assert_eq!(
        bajo_el_cursor(&cs, (-1800, 900)),
        Some(Rect::new(-1920, 0, 1920, 1080))
    );
}

#[test]
fn a_igualdad_completa_vale_el_primero() {
    let cs = [c(0, 0, 10, 10, 2), c(5, 5, 10, 10, 2)];
    assert_eq!(bajo_el_cursor(&cs, (7, 7)), Some(Rect::new(0, 0, 10, 10)));
}

#[test]
fn el_borde_derecho_no_cuenta() {
    let cs = [c(0, 0, 10, 10, 0)];
    assert_eq!(bajo_el_cursor(&cs, (10, 5)), None);
    assert_eq!(bajo_el_cursor(&cs, (9, 9)), Some(Rect::new(0, 0, 10, 10)));
}

#[test]
fn solo_se_ofrecen_ventanas_visibles_y_no_ocultas_por_dwm() {
    assert!(descartable(false, None));
    assert!(descartable(true, Some(2)));
    assert!(!descartable(true, Some(0)));
    assert!(!descartable(true, None));
}

#[test]
fn una_ventana_sin_area_no_es_candidata() {
    assert_eq!(rect_de_ventana(-10, 5, 90, 55), Some(Rect::new(-10, 5, 100, 50)));
    assert_eq!(rect_de_ventana(0, 0, 0, 10), None);
    assert_eq!(rect_de_ventana(0, 0, 10, -1), None);
}
