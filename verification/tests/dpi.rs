use platform_win::dpi::{dpi_de_wparam, Escala};

#[test]
fn px_escala_lineal_en_los_dpi_estandar() {
    assert_eq!(Escala::nueva(96).px(28), 28);
    assert_eq!(Escala::nueva(120).px(28), 35);
    assert_eq!(Escala::nueva(144).px(28), 42);
    assert_eq!(Escala::nueva(168).px(28), 49);
    assert_eq!(Escala::nueva(192).px(28), 56);
}

#[test]
fn px_redondea_al_mas_cercano() {
    assert_eq!(Escala::nueva(120).px(1), 1);
    assert_eq!(Escala::nueva(144).px(1), 2);
    assert_eq!(Escala::nueva(96).px(0), 0);
}

#[test]
fn un_dpi_de_cero_cae_a_96() {
    assert_eq!(Escala::nueva(0).px(10), 10);
    assert_eq!(Escala::nueva(0).dpi(), 96);
}

#[test]
fn el_wparam_de_dpichanged_lleva_el_dpi_en_el_word_bajo() {
    assert_eq!(dpi_de_wparam((144 << 16) | 144), 144);
}

#[test]
fn px_de_negativos_redondea_al_mas_cercano() {
    // -10 × 96 / 96 = -10 exacto.
    assert_eq!(Escala::nueva(96).px(-10), -10);
    assert_eq!(Escala::nueva(96).px(-1), -1);
    // -1 × 192 / 96 = -2 exacto.
    assert_eq!(Escala::nueva(192).px(-1), -2);
    // -1 × 144 / 96 = -1,5: la mitad va hacia arriba, a -1.
    assert_eq!(Escala::nueva(144).px(-1), -1);
    // -1 × 120 / 96 = -1,25 → -1.
    assert_eq!(Escala::nueva(120).px(-1), -1);
}

#[test]
fn cero_y_96_dpi_dan_la_misma_escala() {
    assert_eq!(Escala::nueva(0), Escala::nueva(96));
}
