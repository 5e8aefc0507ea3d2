use platform_win::tema::{
    anuncia_cambio_de_tema, claro, codigo_de_modo, codigo_de_tema, modo_de_codigo, oscuro, resolver, rgb, tema_de_codigo,
    tema_del_sistema, Tema, ThemeMode,
};

#[test]
fn el_valor_del_registro_mapea_a_tema() {
    assert_eq!(tema_del_sistema(Some(0)), Tema::Oscuro);
    assert_eq!(tema_del_sistema(Some(1)), Tema::Claro);
    assert_eq!(tema_del_sistema(None), Tema::Claro); // sin clave = claro
}

#[test]
fn la_config_manda_sobre_el_sistema() {
    assert_eq!(resolver(ThemeMode::Auto, Tema::Oscuro), Tema::Oscuro);
    assert_eq!(resolver(ThemeMode::Light, Tema::Oscuro), Tema::Claro);
    assert_eq!(resolver(ThemeMode::Dark, Tema::Claro), Tema::Oscuro);
}

#[test]
fn las_paletas_llevan_los_tokens_del_diseno() {
    // COLORREF es 0x00BBGGRR.
    assert_eq!(claro().fondo, 0x00F3F3F3);
    assert_eq!(oscuro().fondo, 0x00202020);
    assert_eq!(claro().acento, 0x00C06700); // #0067C0
    assert_eq!(claro().grabacion, 0x00013BD8); // #D83B01
    assert_eq!(oscuro().acento, claro().acento);
}

#[test]
fn rgb_empaqueta_en_orden_bgr() {
    assert_eq!(rgb(0x12, 0x34, 0x56), 0x00563412);
}

#[test]
fn cada_tema_lleva_su_paleta() {
    assert_eq!(Tema::Claro.paleta(), claro());
    assert_eq!(Tema::Oscuro.paleta(), oscuro());
    assert!(Tema::Oscuro.es_oscuro());
    assert!(!Tema::Claro.es_oscuro());
}

#[test]
fn el_tema_guardado_se_relee_igual() {
    for t in [Tema::Claro, Tema::Oscuro] {
        assert_eq!(tema_de_codigo(codigo_de_tema(t)), t);
    }
    assert_eq!(codigo_de_tema(Tema::Oscuro), 1);
    assert_eq!(tema_de_codigo(7), Tema::Claro);
}

#[test]
fn solo_el_aviso_de_tema_cuenta_como_cambio() {
    assert!(anuncia_cambio_de_tema("ImmersiveColorSet"));
    assert!(!anuncia_cambio_de_tema("WindowMetrics"));
    assert!(!anuncia_cambio_de_tema(""));
}

#[test]
fn la_preferencia_guardada_se_relee() {
    for m in [ThemeMode::Auto, ThemeMode::Light, ThemeMode::Dark] {
        assert_eq!(modo_de_codigo(codigo_de_modo(m)), m);
    }
    assert_eq!(codigo_de_modo(ThemeMode::Dark), 2);
    assert_eq!(modo_de_codigo(9), ThemeMode::Auto);
}
