use platform_win::pixels::{bgra_to_rgba_opaque, canal_alfa, rgba_to_bgra, rows_bottom_up, whiten_half};

#[test]
fn intercambia_b_y_r_y_fuerza_alfa_opaco() {
    let mut px = vec![1u8, 2, 3, 0, 10, 20, 30, 128];
    bgra_to_rgba_opaque(&mut px);
    assert_eq!(px, vec![3, 2, 1, 255, 30, 20, 10, 255]);
}

#[test]
fn buffer_vacio_no_hace_nada() {
    let mut px: Vec<u8> = Vec::new();
    bgra_to_rgba_opaque(&mut px);
    assert!(px.is_empty());
}

#[test]
fn los_bytes_sobrantes_no_se_tocan() {
    let mut px = vec![1u8, 2, 3, 4, 5, 6];
    bgra_to_rgba_opaque(&mut px);
    assert_eq!(px, vec![3, 2, 1, 255, 5, 6]);
}

#[test]
fn rgba_to_bgra_intercambia_r_y_b_y_conserva_el_alfa() {
    let mut px = vec![1u8, 2, 3, 4, 10, 20, 30, 40, 99];
    rgba_to_bgra(&mut px);
    assert_eq!(px, vec![3, 2, 1, 4, 30, 20, 10, 40, 99]);
    rgba_to_bgra(&mut px);
    assert_eq!(px, vec![1, 2, 3, 4, 10, 20, 30, 40, 99]);
}

#[test]
fn rows_bottom_up_invierte_las_filas() {
    // 1×3: tres filas de un píxel.
    let px = [1u8, 1, 1, 1, 2, 2, 2, 2, 3, 3, 3, 3];
    let r = rows_bottom_up(&px, 1, 3);
    assert_eq!(r, vec![3, 3, 3, 3, 2, 2, 2, 2, 1, 1, 1, 1]);
    assert_eq!(rows_bottom_up(&r, 1, 3), px.to_vec());
    assert!(rows_bottom_up(&[], 0, 0).is_empty());
}

#[test]
fn la_mascara_blanca_lleva_cada_canal_a_medio_camino() {
    let mut px = vec![0u8, 255, 100, 7, 1, 2, 3, 4, 9];
    whiten_half(&mut px);
    assert_eq!(px, vec![127, 255, 177, 7, 128, 128, 129, 4, 9]);
}

#[test]
fn el_canal_alfa_toma_un_byte_por_pixel() {
    let rgba = [1, 2, 3, 40, 5, 6, 7, 80, 9, 10];
    assert_eq!(canal_alfa(&rgba), vec![40, 80]);
    assert!(canal_alfa(&[]).is_empty());
}
