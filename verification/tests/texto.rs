use platform_win::texto::{
    acaba_en, buscar, cadena, caracteres, en_minusculas, escribir_decimal, escribir_entero,
    incluye, prefijo, recortar, sufijo_desde, trozo_inicial, wide,
};

fn s(v: &[char]) -> String {
    v.iter().collect()
}

#[test]
fn wide_termina_en_nulo_y_codifica_en_utf16() {
    assert_eq!(wide("ab"), vec![0x61, 0x62, 0]);
    assert_eq!(wide(""), vec![0]);
    assert_eq!(wide("ñ€"), vec![0xF1, 0x20AC, 0]);
    // Fuera del plano básico: par sustituto.
    assert_eq!(wide("😀"), vec![0xD83D, 0xDE00, 0]);
}

#[test]
fn los_decimales_se_escriben_sin_ceros_a_la_izquierda() {
    let mut v = Vec::new();
    escribir_decimal(&mut v, 0);
    v.push(' ');
    escribir_decimal(&mut v, 1080);
    v.push(' ');
    escribir_decimal(&mut v, u64::MAX);
    assert_eq!(s(&v), format!("0 1080 {}", u64::MAX));
}

#[test]
fn los_enteros_llevan_su_signo() {
    let mut v = Vec::new();
    escribir_entero(&mut v, -1920);
    v.push(' ');
    escribir_entero(&mut v, 0);
    v.push(' ');
    escribir_entero(&mut v, i64::MIN);
    assert_eq!(s(&v), format!("-1920 0 {}", i64::MIN));
}

#[test]
fn recortar_quita_blancos_unicode_de_los_extremos() {
    let t = caracteres("\u{3000} hola mundo\t\n");
    assert_eq!(s(&recortar(&t)), "hola mundo");
    assert!(recortar(&caracteres("  \u{a0} ")).is_empty());
}

#[test]
fn busquedas_y_cortes() {
    let t = caracteres("Cambria & Cambria Math");
    let sep = caracteres(" & ");
    assert_eq!(buscar(&t, &sep), 7);
    assert_eq!(s(&trozo_inicial(&t, &sep)), "Cambria");
    assert_eq!(s(&trozo_inicial(&caracteres("Solo"), &sep)), "Solo");
    assert!(incluye(&t, &caracteres("Math")));
    assert!(!incluye(&t, &caracteres("math")));
    assert!(acaba_en(&t, &caracteres("Math")));
    assert_eq!(s(&prefijo(&t, 3)), "Cam");
    assert_eq!(s(&sufijo_desde(&t, 18)), "Math");
    assert_eq!(s(&en_minusculas(&caracteres("AbC-Ñ"))), "abc-Ñ");
    assert_eq!(cadena(&caracteres("ida y vuelta")), "ida y vuelta");
}
