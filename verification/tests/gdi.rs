use platform_win::gdi::{GdiScreenSource, ScreenSourceError};
use platform_win::geometria::Rect;

#[test]
fn una_region_absurda_devuelve_out_of_bounds_sin_capturar() {
    let source = GdiScreenSource::new();
    let escritorio = GdiScreenSource::rect_de_metricas(0, 0, 1920, 1080);
    let region = Rect::new(i32::MIN, i32::MIN, 1, 1);
    assert_eq!(
        source.validar_region(region, escritorio).unwrap_err(),
        ScreenSourceError::OutOfBounds(region)
    );
}

#[test]
fn una_region_dentro_del_escritorio_se_puede_capturar() {
    let source = GdiScreenSource::new();
    let escritorio = Rect::new(-1920, 0, 3840, 1080);
    assert_eq!(source.validar_region(Rect::new(-1920, 0, 8, 8), escritorio), Ok(()));
    assert_eq!(source.validar_region(escritorio, escritorio), Ok(()));
    // Vacía o asomando por un borde: fuera.
    let vacia = Rect::new(0, 0, 0, 10);
    assert_eq!(
        source.validar_region(vacia, escritorio),
        Err(ScreenSourceError::OutOfBounds(vacia))
    );
    let asoma = Rect::new(1900, 1000, 40, 40);
    assert_eq!(
        source.validar_region(asoma, escritorio),
        Err(ScreenSourceError::OutOfBounds(asoma))
    );
}

#[test]
fn las_metricas_negativas_dan_un_escritorio_vacio() {
    assert_eq!(
        GdiScreenSource::rect_de_metricas(-1920, -10, 3840, 1090),
        Rect::new(-1920, -10, 3840, 1090)
    );
    let r = GdiScreenSource::rect_de_metricas(0, 0, -5, 7);
    assert_eq!(r, Rect::new(0, 0, 0, 7));
    assert!(r.is_empty());
}

#[test]
fn los_bordes_dan_lados_no_negativos_y_saturados() {
    assert_eq!(
        GdiScreenSource::rect_de_bordes(-1920, 0, 0, 1080),
        Rect::new(-1920, 0, 1920, 1080)
    );
    assert_eq!(GdiScreenSource::rect_de_bordes(10, 10, 5, 5), Rect::new(10, 10, 0, 0));
    assert_eq!(
        GdiScreenSource::rect_de_bordes(i32::MIN, 0, i32::MAX, 1),
        Rect::new(i32::MIN, 0, i32::MAX as u32, 1)
    );
}

#[test]
fn sin_monitor_se_usa_el_escritorio() {
    let escritorio = Rect::new(0, 0, 3000, 1000);
    assert_eq!(GdiScreenSource::rect_de_monitor(None, escritorio), escritorio);
    assert_eq!(
        GdiScreenSource::rect_de_monitor(Some((1920, 0, 3000, 1000)), escritorio),
        Rect::new(1920, 0, 1080, 1000)
    );
}
