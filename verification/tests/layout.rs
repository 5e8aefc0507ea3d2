use platform_win::dpi::Escala;
use platform_win::layout::{ancho_natural, distribuir, Caja, Item};

#[test]
fn una_fila_de_botones_se_encadena_con_espaciado_4() {
    let e96 = Escala::nueva(96);
    let (cajas, ancho) = distribuir(&[Item::Boton, Item::Boton], e96, 36, None);
    assert_eq!(cajas[0], Caja { x: 4, y: 4, ancho: 28, alto: 28 });
    assert_eq!(cajas[1].x, 4 + 28 + 4);
    assert_eq!(ancho, 4 + 28 + 4 + 28 + 4);
}

#[test]
fn el_separador_es_una_linea_centrada_con_margenes() {
    let e96 = Escala::nueva(96);
    let (cajas, _) = distribuir(&[Item::Boton, Item::Separador, Item::Boton], e96, 36, None);
    let sep = cajas[1];
    assert_eq!(sep.ancho, 1);
    assert_eq!(sep.alto, 20);
    assert_eq!(sep.x, 4 + 28 + 4 + 3);
    assert_eq!(cajas[2].x, sep.x + 1 + 3 + 4);
}

#[test]
fn el_asa_es_estrecha_y_alta_como_un_boton() {
    let e96 = Escala::nueva(96);
    let (cajas, _) = distribuir(&[Item::Asa, Item::Boton], e96, 36, None);
    assert_eq!(cajas[0], Caja { x: 4, y: 4, ancho: 16, alto: 28 });
}

#[test]
fn a_150_por_ciento_todo_escala() {
    let e144 = Escala::nueva(144);
    let (cajas, ancho) = distribuir(&[Item::Boton, Item::Boton], e144, 54, None);
    assert_eq!(cajas[0], Caja { x: 6, y: 6, ancho: 42, alto: 42 });
    assert_eq!(cajas[1].x, 6 + 42 + 6);
    assert_eq!(ancho, 6 + 42 + 6 + 42 + 6);
}

#[test]
fn el_muelle_absorbe_el_sobrante_cuando_hay_ancho_fijo() {
    let e96 = Escala::nueva(96);
    let (cajas, ancho) =
        distribuir(&[Item::Boton, Item::Muelle, Item::Boton], e96, 36, Some(200));
    assert_eq!(ancho, 200);
    assert_eq!(cajas[1].ancho, 128);
    assert_eq!(cajas[2].x, 4 + 28 + 4 + 128 + 4);
    assert_eq!(cajas[2].x + cajas[2].ancho + 4, 200);
}

#[test]
fn sin_ancho_fijo_el_muelle_no_ocupa() {
    let e96 = Escala::nueva(96);
    let (cajas, _) = distribuir(&[Item::Boton, Item::Muelle, Item::Boton], e96, 36, None);
    assert_eq!(cajas[1].ancho, 0);
    assert_eq!(cajas[2].x, 4 + 28 + 4 + 0 + 4);
}

#[test]
fn solo_el_primer_muelle_absorbe_y_la_fila_llena_el_ancho() {
    let e96 = Escala::nueva(96);
    let items = [Item::Muelle, Item::Boton, Item::Muelle, Item::Boton];
    let (cajas, ancho) = distribuir(&items, e96, 36, Some(300));
    assert_eq!(ancho_natural(&items, e96), 4 + (0 + 4) + (28 + 4) + (0 + 4) + (28 + 4));
    assert_eq!(cajas[0].ancho, 300 - 76);
    assert_eq!(cajas[2].ancho, 0);
    assert_eq!(cajas[3].x + cajas[3].ancho + 4, ancho);
}

#[test]
fn un_ancho_menor_que_el_natural_no_da_muelle_negativo() {
    let e96 = Escala::nueva(96);
    let (cajas, ancho) = distribuir(&[Item::Boton, Item::Muelle], e96, 36, Some(10));
    assert_eq!(ancho, 10);
    assert_eq!(cajas[1].ancho, 0);
    assert_eq!(cajas[1].alto, 36);
}
