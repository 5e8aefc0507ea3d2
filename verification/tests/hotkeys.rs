use platform_win::hotkeys::{
    mods_of, vk_of, Alta, Hotkey, HotkeyError, HotkeyId, KeyCode, Modifiers, Win32HotkeyProvider,
    MOD_ALT, MOD_CONTROL, MOD_NOREPEAT, MOD_SHIFT, MOD_WIN, VK_F1, VK_SNAPSHOT,
};

#[test]
fn mapea_modificadores_a_flags_win32() {
    let m = Modifiers {
        ctrl: true,
        alt: true,
        ..Modifiers::default()
    };
    assert_eq!(mods_of(&m), MOD_CONTROL | MOD_ALT);
    assert_eq!(mods_of(&Modifiers::default()), 0);
}

#[test]
fn mapea_teclas_a_vk() {
    assert_eq!(vk_of(KeyCode::Char('a')), Some(0x41));
    assert_eq!(vk_of(KeyCode::Char('7')), Some(0x37));
    assert_eq!(vk_of(KeyCode::F(12)), Some(VK_F1 + 11));
    assert_eq!(vk_of(KeyCode::PrintScreen), Some(VK_SNAPSHOT));
}

#[test]
fn teclas_fuera_de_rango_no_mapean() {
    assert_eq!(vk_of(KeyCode::Char('ñ')), None);
    assert_eq!(vk_of(KeyCode::F(25)), None);
}

#[test]
fn todos_los_modificadores_suman_sus_flags() {
    let m = Modifiers { ctrl: true, alt: true, shift: true, win: true };
    assert_eq!(mods_of(&m), MOD_CONTROL | MOD_ALT | MOD_SHIFT | MOD_WIN);
    assert_eq!(vk_of(KeyCode::F(0)), None);
    assert_eq!(vk_of(KeyCode::F(24)), Some(VK_F1 + 23));
    assert_eq!(vk_of(KeyCode::Char('z')), Some(0x5A));
    // Solo minúsculas y dígitos: la mayúscula no es una tecla distinta.
    assert_eq!(vk_of(KeyCode::Char('Z')), None);
}

fn ctrl_shift(key: KeyCode) -> Hotkey {
    Hotkey {
        modifiers: Modifiers { ctrl: true, shift: true, ..Modifiers::default() },
        key,
    }
}

#[test]
fn dar_de_alta_pide_id_flags_con_norepeat_y_vk() {
    let mut p = Win32HotkeyProvider::new();
    let h = ctrl_shift(KeyCode::F(9));
    let alta = p.alta(h).unwrap();
    assert_eq!(
        alta,
        Alta {
            id: HotkeyId(1),
            modificadores: MOD_CONTROL | MOD_SHIFT | MOD_NOREPEAT,
            vk: VK_F1 + 8,
        }
    );
    p.alta_hecha(h, alta);
    assert_eq!(p.ids(), vec![HotkeyId(1)]);
    // El mismo atajo otra vez se rechaza.
    assert_eq!(p.alta(h), Err(HotkeyError::AlreadyRegistered(h)));
    // Otro atajo recibe el id siguiente.
    let h2 = ctrl_shift(KeyCode::Char('a'));
    assert_eq!(p.alta(h2).unwrap().id, HotkeyId(2));
}

#[test]
fn una_tecla_sin_vk_no_se_da_de_alta() {
    let p = Win32HotkeyProvider::new();
    let h = ctrl_shift(KeyCode::Char('ñ'));
    assert_eq!(
        p.alta(h),
        Err(HotkeyError::Platform("tecla no mapeable: Char('ñ')".to_string()))
    );
    let f30 = ctrl_shift(KeyCode::F(30));
    assert_eq!(
        p.alta(f30),
        Err(HotkeyError::Platform("tecla no mapeable: F(30)".to_string()))
    );
}

#[test]
fn dar_de_baja_encuentra_el_id_o_falla() {
    let mut p = Win32HotkeyProvider::new();
    let h1 = ctrl_shift(KeyCode::F(1));
    let h2 = ctrl_shift(KeyCode::F(2));
    let a1 = p.alta(h1).unwrap();
    p.alta_hecha(h1, a1);
    let a2 = p.alta(h2).unwrap();
    p.alta_hecha(h2, a2);
    assert_eq!(p.baja(HotkeyId(2)), Ok(1));
    assert_eq!(p.baja(HotkeyId(7)), Err(HotkeyError::UnknownId(HotkeyId(7))));
    let pos = p.baja(HotkeyId(1)).unwrap();
    p.baja_hecha(pos);
    assert_eq!(p.ids(), vec![HotkeyId(2)]);
    assert_eq!(p.baja(HotkeyId(1)), Err(HotkeyError::UnknownId(HotkeyId(1))));
    // El atajo dado de baja puede volver a darse de alta, con id nuevo.
    assert_eq!(p.alta(h1).unwrap().id, HotkeyId(3));
}

#[test]
fn dar_de_alta_y_de_baja_deja_los_atajos_como_estaban() {
    let mut p = Win32HotkeyProvider::new();
    let h1 = ctrl_shift(KeyCode::F(1));
    let a1 = p.alta(h1).unwrap();
    p.alta_hecha(h1, a1);
    let h2 = ctrl_shift(KeyCode::Char('z'));
    let a2 = p.alta(h2).unwrap();
    p.alta_hecha(h2, a2);
    let pos = p.baja(a2.id).unwrap();
    assert_eq!(pos, 1);
    p.baja_hecha(pos);
    assert_eq!(p.ids(), vec![HotkeyId(1)]);
}
