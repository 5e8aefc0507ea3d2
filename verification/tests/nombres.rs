use platform_win::nombres::{analizar, de_archivo, extension_valida};

#[test]
fn separa_la_familia_de_la_negrita() {
    assert_eq!(analizar("Segoe UI (TrueType)"), Some(("Segoe UI".to_string(), false)));
    assert_eq!(analizar("Segoe UI Bold (TrueType)"), Some(("Segoe UI".to_string(), true)));
    assert_eq!(analizar("Consolas (TrueType)"), Some(("Consolas".to_string(), false)));
}

#[test]
fn descarta_cursivas_y_pesos_intermedios() {
    assert_eq!(analizar("Segoe UI Italic (TrueType)"), None);
    assert_eq!(analizar("Segoe UI Bold Italic (TrueType)"), None);
    assert_eq!(analizar("Segoe UI Semibold (TrueType)"), None);
    assert_eq!(analizar("Segoe UI Black (TrueType)"), None);
    assert_eq!(analizar("Segoe UI Light (TrueType)"), None);
}

#[test]
fn descarta_lo_que_no_lleva_sufijo_de_tipo() {
    assert_eq!(analizar("MS Sans Serif 8,10,12,14,18,24"), None);
    assert_eq!(analizar(""), None);
}

#[test]
fn toma_la_primera_de_un_valor_con_varias_familias() {
    assert_eq!(
        analizar("Cambria & Cambria Math (TrueType)"),
        Some(("Cambria".to_string(), false))
    );
}

#[test]
fn una_familia_que_se_llama_bold_no_se_queda_vacia() {
    assert_eq!(analizar("Bold (TrueType)"), Some(("Bold".to_string(), false)));
}

#[test]
fn regular_es_la_cara_normal_de_su_familia_no_otra_familia() {
    assert_eq!(analizar("Alef Regular (TrueType)"), analizar("Alef (TrueType)"));
    assert_eq!(analizar("Amiri Regular (TrueType)"), Some(("Amiri".to_string(), false)));
    assert_eq!(
        analizar("Amiri Quran Regular (TrueType)"),
        Some(("Amiri Quran".to_string(), false))
    );
    assert_eq!(analizar("Regular (TrueType)"), Some(("Regular".to_string(), false)));
}

#[test]
fn el_nombre_de_archivo_separa_guiones_y_negrita() {
    assert_eq!(de_archivo("MiFuente"), Some(("MiFuente".to_string(), false)));
    assert_eq!(de_archivo("MiFuente-Bold"), Some(("MiFuente".to_string(), true)));
    assert_eq!(de_archivo("Mi_Fuente_bold"), Some(("Mi Fuente".to_string(), true)));
    assert_eq!(de_archivo("Bold"), Some(("Bold".to_string(), false)));
    assert_eq!(de_archivo(""), None);
    assert_eq!(de_archivo("   "), None);
}

#[test]
fn los_otros_tipos_y_los_oblicuos() {
    assert_eq!(analizar("Bahnschrift (OpenType)"), Some(("Bahnschrift".to_string(), false)));
    assert_eq!(analizar("Segoe UI Variable (VarType)"), Some(("Segoe UI Variable".to_string(), false)));
    assert_eq!(analizar("Fira Sans OBLIQUE (TrueType)"), None);
    assert_eq!(analizar("  Arial Bold  (TrueType)"), Some(("Arial".to_string(), true)));
    assert_eq!(analizar(" & Otra (TrueType)"), None);
}

#[test]
fn el_archivo_recorta_blancos_y_acepta_bold_en_mayusculas() {
    assert_eq!(de_archivo("  Mi-Fuente-BOLD  "), Some(("Mi Fuente".to_string(), true)));
    assert_eq!(de_archivo("-Bold"), Some(("Bold".to_string(), false)));
    assert_eq!(de_archivo("Mi Fuente Boldest"), Some(("Mi Fuente Boldest".to_string(), false)));
}

#[test]
fn solo_ttf_y_otf_son_extensiones_validas() {
    assert!(extension_valida(Some("ttf")));
    assert!(extension_valida(Some("OTF")));
    assert!(extension_valida(Some("TtF")));
    assert!(!extension_valida(Some("ttc")));
    assert!(!extension_valida(Some("fon")));
    assert!(!extension_valida(None));
}
