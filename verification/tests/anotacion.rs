use platform_win::anotacion::{
    comando_de_texto, Cierre, Desenlace, forma_en_curso, poner_crlf, quitar_crlf, Arrastre, ComandoTexto, EfectoClic,
    EfectoDibujo, EstadoDibujo, Forma,
};
use platform_win::color::Color;
use platform_win::dibujo::{AccionDibujo, Tool};
use platform_win::geometria::Rect;

fn chars(s: &str) -> Vec<char> {
    s.chars().collect()
}

fn s(v: &[char]) -> String {
    v.iter().collect()
}

#[test]
fn el_arrastre_da_la_forma_de_la_herramienta() {
    let rojo = Color::rgb(255, 0, 0);
    let mut a = Arrastre::empezar((40, 30));
    a.mover((10, 50), Tool::Rect);
    match forma_en_curso(Tool::Rect, &a, rojo, 3) {
        Some(Forma::Rect { rect, color, grosor }) => {
            assert_eq!(rect, Rect::new(10, 30, 30, 20));
            assert_eq!((color, grosor), (rojo, 3));
        }
        _ => panic!("se esperaba un rect"),
    }
    match forma_en_curso(Tool::Arrow, &a, rojo, 5) {
        Some(Forma::Flecha { desde, hasta, .. }) => assert_eq!((desde, hasta), ((40, 30), (10, 50))),
        _ => panic!("se esperaba una flecha"),
    }
    match forma_en_curso(Tool::Highlight, &a, rojo, 5) {
        Some(Forma::Resaltado { color, .. }) => assert_eq!(color, Color::rgba(255, 0, 0, 128)),
        _ => panic!("se esperaba un resaltado"),
    }
    assert!(forma_en_curso(Tool::Text, &a, rojo, 3).is_none());
}

#[test]
fn el_lapiz_apunta_todos_los_puntos() {
    let mut a = Arrastre::empezar((1, 1));
    a.mover((2, 2), Tool::Pen);
    a.mover((3, 5), Tool::Pen);
    match forma_en_curso(Tool::Pen, &a, Color::rgb(0, 0, 0), 1) {
        Some(Forma::Lapiz { puntos, .. }) => assert_eq!(puntos, vec![(1, 1), (2, 2), (3, 5)]),
        _ => panic!("se esperaba un trazo"),
    }
    // Otras herramientas no apuntan puntos.
    let mut b = Arrastre::empezar((1, 1));
    b.mover((9, 9), Tool::Line);
    assert_eq!(b.points, vec![(1, 1)]);
}

#[test]
fn el_crlf_del_control_se_quita_y_se_pone() {
    assert_eq!(s(&quitar_crlf(&chars("a\r\nb\r\n"))), "a\nb\n");
    assert_eq!(s(&quitar_crlf(&chars("a\rb\r\r\n"))), "a\rb\r\n");
    assert_eq!(s(&poner_crlf(&chars("a\nb"))), "a\r\nb");
    for t in ["", "x", "\n\n", "\r\n", "a\r\nb\nc\r"] {
        assert_eq!(s(&quitar_crlf(&poner_crlf(&chars(t)))), t);
    }
}

#[test]
fn confirmar_una_caja_de_texto() {
    match comando_de_texto(None, &chars("hola\r\nmundo")) {
        ComandoTexto::Anadir(t) => assert_eq!(t, "hola\nmundo"),
        _ => panic!("se esperaba añadir"),
    }
    assert!(matches!(comando_de_texto(None, &chars(" \r\n\t")), ComandoTexto::Ninguno));
    match comando_de_texto(Some(3), &chars("otro")) {
        ComandoTexto::Reemplazar(i, t) => assert_eq!((i, t.as_str()), (3, "otro")),
        _ => panic!("se esperaba reemplazar"),
    }
    assert!(matches!(comando_de_texto(Some(3), &chars("   ")), ComandoTexto::Quitar(3)));
}

#[test]
fn la_ventana_de_dibujo_empieza_con_rect_rojo_de_3() {
    let e = EstadoDibujo::nuevo(true);
    assert_eq!(e.tool, Tool::Rect);
    assert_eq!(e.color, Color::rgb(255, 0, 0));
    assert_eq!((e.grosor, e.tamano, e.negrita), (3, 20, false));
    assert!(e.arrastre.is_none());
}

#[test]
fn los_comandos_cambian_las_propiedades() {
    let mut e = EstadoDibujo::nuevo(true);
    assert_eq!(e.comando(AccionDibujo::Herramienta(Tool::Text)), EfectoDibujo::ControlesDeTexto(true));
    assert_eq!(e.tool, Tool::Text);
    assert_eq!(e.comando(AccionDibujo::Herramienta(Tool::Pen)), EfectoDibujo::ControlesDeTexto(false));
    assert_eq!(e.comando(AccionDibujo::Grosor(8)), EfectoDibujo::Nada);
    assert_eq!(e.comando(AccionDibujo::Tamano(36)), EfectoDibujo::Nada);
    assert_eq!(e.comando(AccionDibujo::Negrita), EfectoDibujo::Nada);
    assert_eq!((e.grosor, e.tamano, e.negrita), (8, 36, true));
    assert_eq!(e.comando(AccionDibujo::MasColor), EfectoDibujo::PedirColor);
    assert_eq!(e.comando(AccionDibujo::Aceptar), EfectoDibujo::Aceptar);
    let mut sin_fuente = EstadoDibujo::nuevo(false);
    assert_eq!(
        sin_fuente.comando(AccionDibujo::Herramienta(Tool::Text)),
        EfectoDibujo::ControlesDeTexto(false)
    );
}

#[test]
fn arrastrar_y_soltar_deja_la_forma() {
    let mut e = EstadoDibujo::nuevo(true);
    e.comando(AccionDibujo::Herramienta(Tool::Ellipse));
    assert_eq!(e.pulsar(None), EfectoClic::Nada);
    assert_eq!(e.pulsar(Some((5, 5))), EfectoClic::Capturar);
    assert!(e.mover(Some((15, 25))));
    assert!(!e.mover(None));
    match e.soltar() {
        Some(Some(Forma::Elipse { rect, grosor, .. })) => {
            assert_eq!(rect, Rect::new(5, 5, 10, 20));
            assert_eq!(grosor, 3);
        }
        _ => panic!("se esperaba una elipse"),
    }
    assert!(e.arrastre.is_none());
    assert!(e.soltar().is_none());
    assert!(!e.mover(Some((1, 1))));
}

#[test]
fn con_texto_el_clic_abre_una_caja() {
    let mut e = EstadoDibujo::nuevo(true);
    e.comando(AccionDibujo::Herramienta(Tool::Text));
    assert_eq!(e.pulsar(Some((7, 8))), EfectoClic::AbrirTexto((7, 8)));
    assert!(e.arrastre.is_none());
}

#[test]
fn cerrar_con_ok_devuelve_el_frame_y_cancelar_no() {
    let mut c = Cierre::nuevo();
    assert!(c.en_curso());
    c.aceptar();
    assert!(!c.en_curso());
    c.destruida();
    assert_eq!(c.desenlace, Some(Desenlace::Aceptado));
    assert!(c.devuelve_frame());

    let mut c = Cierre::nuevo();
    // Con anotaciones y sin confirmar: la ventana sigue.
    assert!(!c.cancelar(false, false));
    assert!(c.en_curso());
    // Sin anotaciones se descarta sin preguntar.
    assert!(c.cancelar(true, false));
    assert_eq!(c.desenlace, Some(Desenlace::Descartado));
    assert!(!c.devuelve_frame());

    // Destruida sin desenlace: cuenta como descartada.
    let mut c = Cierre::nuevo();
    c.destruida();
    assert_eq!(c.desenlace, Some(Desenlace::Descartado));
    assert!(!c.devuelve_frame());
}
