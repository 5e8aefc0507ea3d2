use platform_win::catalogo::{texto_de_valor, va_antes, Cara, Caras};

fn cara(familia: &str, negrita: bool, ruta: &str) -> Cara {
    Cara { familia: familia.to_string(), negrita, ruta: ruta.to_string() }
}

fn chars(s: &str) -> Vec<char> {
    s.chars().collect()
}

#[test]
fn el_orden_de_los_nombres_es_el_de_las_cadenas() {
    for (a, b) in [("Arial", "Calibri"), ("Segoe", "Segoe UI"), ("", "a"), ("Z", "a"), ("a", "á")] {
        assert!(a < b);
        assert!(va_antes(&chars(a), &chars(b)), "{a} < {b}");
        assert!(!va_antes(&chars(b), &chars(a)), "{b} > {a}");
    }
    assert!(!va_antes(&chars("Igual"), &chars("Igual")));
}

#[test]
fn la_cara_de_mas_prioridad_gana() {
    let mut c = Caras::nuevo();
    c.insertar(cara("Segoe UI", false, "C:\\Windows\\Fonts\\segoeui.ttf"));
    c.insertar(cara("Segoe UI", false, "D:\\fonts\\segoeui.ttf"));
    assert_eq!(c.ruta("Segoe UI", false).as_deref(), Some("D:\\fonts\\segoeui.ttf"));
    assert_eq!(c.ruta("Segoe UI", true), None);
}

#[test]
fn las_familias_salen_ordenadas_con_sus_caras() {
    let mut c = Caras::nuevo();
    c.insertar(cara("Segoe UI", true, "segoeuib.ttf"));
    c.insertar(cara("Consolas", false, "consola.ttf"));
    c.insertar(cara("Segoe UI", false, "segoeui.ttf"));
    c.insertar(cara("Arial", false, "arial.ttf"));
    c.insertar(cara("Consolas", false, "consola2.ttf"));
    // Solo negrita: no llega a familia.
    c.insertar(cara("Impact", true, "impactb.ttf"));
    let f = c.familias();
    let nombres: Vec<&str> = f.iter().map(|x| x.nombre.as_str()).collect();
    assert_eq!(nombres, vec!["Arial", "Consolas", "Segoe UI"]);
    assert_eq!(f[1].normal, "consola2.ttf");
    assert_eq!(f[1].bold, None);
    assert_eq!(f[2].normal, "segoeui.ttf");
    assert_eq!(f[2].bold.as_deref(), Some("segoeuib.ttf"));
    assert!(Caras::nuevo().familias().is_empty());
}

#[test]
fn el_valor_del_registro_se_corta_en_el_nulo() {
    let buffer = [0x61u16, 0x62, 0, 0x63, 0x64];
    assert_eq!(texto_de_valor(&buffer, 10), vec![0x61, 0x62]);
    // Sin nulo, hasta lo escrito.
    assert_eq!(texto_de_valor(&[1, 2, 3], 4), vec![1, 2]);
    // Lo escrito nunca pasa del buffer.
    assert_eq!(texto_de_valor(&[1, 2, 3], 100), vec![1, 2, 3]);
}
