use platform_win::geometria::Rect;
use platform_win::overlay::{ajustar_tam, hex_de_bgra, lupa_box_pos, lupa_source, rect_between, rect_fijo};

#[test]
fn rect_between_normaliza_las_cuatro_direcciones() {
    let esperado = Rect::new(10, 20, 30, 40);
    assert_eq!(rect_between((10, 20), (40, 60)), esperado);
    assert_eq!(rect_between((40, 60), (10, 20)), esperado);
    assert_eq!(rect_between((40, 20), (10, 60)), esperado);
    assert_eq!(rect_between((10, 60), (40, 20)), esperado);
}

#[test]
fn rect_between_de_un_clic_es_un_pixel() {
    assert_eq!(rect_between((5, 5), (5, 5)), Rect::new(5, 5, 1, 1));
}

#[test]
fn lupa_source_centra_el_cursor_en_la_celda_central() {
    assert_eq!(lupa_source((100, 100), 1920, 1080), Rect::new(90, 90, 21, 21));
}

#[test]
fn lupa_source_clampa_en_las_esquinas() {
    assert_eq!(lupa_source((0, 0), 1920, 1080), Rect::new(0, 0, 21, 21));
    assert_eq!(lupa_source((1919, 1079), 1920, 1080), Rect::new(1899, 1059, 21, 21));
}

const CAJA: (i32, i32) = (126, 162);
const OFFSET: i32 = 16;

#[test]
fn lupa_box_va_junto_al_cursor() {
    let monitor = Rect::new(0, 0, 1920, 1080);
    assert_eq!(lupa_box_pos(monitor, (100, 100), CAJA, OFFSET), (116, 116));
}

#[test]
fn lupa_box_flipa_en_horizontal_cerca_del_borde_derecho() {
    let monitor = Rect::new(0, 0, 1920, 1080);
    assert_eq!(lupa_box_pos(monitor, (1850, 100), CAJA, OFFSET), (1850 - 16 - 126, 116));
}

#[test]
fn lupa_box_flipa_en_vertical_cerca_del_borde_inferior() {
    let monitor = Rect::new(0, 0, 1920, 1080);
    assert_eq!(lupa_box_pos(monitor, (100, 1000), CAJA, OFFSET), (116, 1000 - 16 - 162));
}

#[test]
fn lupa_box_flipa_en_ambos_ejes_en_la_esquina() {
    let monitor = Rect::new(0, 0, 1920, 1080);
    assert_eq!(
        lupa_box_pos(monitor, (1900, 1060), CAJA, OFFSET),
        (1900 - 16 - 126, 1060 - 16 - 162)
    );
}

#[test]
fn lupa_box_no_se_sale_por_arriba_izquierda_al_flipar() {
    let monitor = Rect::new(0, 0, 200, 200);
    assert_eq!(lupa_box_pos(monitor, (120, 190), CAJA, OFFSET), (0, 12));
}

#[test]
fn lupa_box_respeta_monitores_con_origen_negativo() {
    let monitor = Rect::new(-1920, 0, 1920, 1080);
    assert_eq!(lupa_box_pos(monitor, (-1800, 100), CAJA, OFFSET), (-1784, 116));
    assert_eq!(lupa_box_pos(monitor, (-50, 100), CAJA, OFFSET), (-50 - 16 - 126, 116));
}

#[test]
fn el_hex_va_en_orden_rgb_y_mayusculas() {
    assert_eq!(hex_de_bgra(0xAB, 0x7D, 0x4A), "#4A7DAB");
    assert_eq!(hex_de_bgra(0, 0, 0), "#000000");
    assert_eq!(hex_de_bgra(255, 255, 255), "#FFFFFF");
}

const LIMITE: Rect = Rect { x: 0, y: 0, width: 1000, height: 800 };

#[test]
fn el_rect_fijo_se_centra_en_el_cursor() {
    assert_eq!(rect_fijo((500, 400), (200, 100), LIMITE), Rect::new(400, 350, 200, 100));
}

#[test]
fn el_rect_fijo_no_se_sale_del_limite() {
    assert_eq!(rect_fijo((10, 10), (200, 100), LIMITE), Rect::new(0, 0, 200, 100));
    assert_eq!(rect_fijo((995, 795), (200, 100), LIMITE), Rect::new(800, 700, 200, 100));
}

#[test]
fn un_rect_mayor_que_el_limite_se_recorta_al_limite() {
    let pequeno = Rect::new(0, 0, 100, 80);
    assert_eq!(rect_fijo((50, 40), (400, 300), pequeno), Rect::new(0, 0, 100, 80));
}

#[test]
fn el_limite_con_origen_negativo_funciona() {
    let limite = Rect::new(-1920, -100, 3840, 1180);
    assert_eq!(rect_fijo((-1900, -90), (200, 100), limite), Rect::new(-1920, -100, 200, 100));
    assert_eq!(rect_fijo((0, 400), (200, 100), limite), Rect::new(-100, 350, 200, 100));
}

#[test]
fn la_rueda_ajusta_el_tamano_con_minimo() {
    assert_eq!(ajustar_tam((200, 100), 1, false), (210, 110));
    assert_eq!(ajustar_tam((200, 100), -1, false), (190, 90));
    assert_eq!(ajustar_tam((200, 100), 2, true), (220, 100));
    assert_eq!(ajustar_tam((10, 10), -5, false), (8, 8));
}

#[test]
fn la_rueda_no_pasa_del_maximo_de_32_bits() {
    assert_eq!(ajustar_tam((u32::MAX - 3, 5), 1, false), (u32::MAX, 15));
}

#[test]
fn un_tamano_cero_da_un_pixel() {
    assert_eq!(rect_fijo((500, 400), (0, 0), LIMITE), Rect::new(500, 400, 1, 1));
}
