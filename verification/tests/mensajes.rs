use platform_win::mensajes::{
    codigo_de_comando, golpe_arrastrable, id_de_comando, punto, HTCAPTION, HTCLIENT,
};

#[test]
fn punto_lee_las_dos_palabras_con_signo() {
    assert_eq!(punto(0x0014_000A), (10, 20));
    // 0xFFFF = -1 y 0x8000 = -32768.
    assert_eq!(punto(0x8000_FFFFu32 as isize), (-1, -32768));
    assert_eq!(punto(0x7FFF_7FFF), (32767, 32767));
    // Lo que hay por encima de los 32 bits no cuenta.
    assert_eq!(punto(-1), (-1, -1));
}

#[test]
fn el_wparam_de_un_comando_lleva_id_y_codigo() {
    assert_eq!(id_de_comando(0x0200_0FA0), 4000);
    assert_eq!(codigo_de_comando(0x0200_0FA0), 0x0200);
}

#[test]
fn el_cliente_se_arrastra_como_la_barra_de_titulo() {
    assert_eq!(golpe_arrastrable(HTCLIENT), HTCAPTION);
    assert_eq!(golpe_arrastrable(0), 0);
    assert_eq!(golpe_arrastrable(20), 20);
}
