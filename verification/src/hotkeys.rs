//! Atajos globales: traducción de teclas y modificadores a los códigos de
//! `RegisterHotKey`, y el registro de lo dado de alta (ids únicos, sin
//! atajos repetidos). La llamada al sistema la hace quien usa el registro,
//! entre la decisión (`alta`/`baja`) y su confirmación.

use vstd::prelude::*;
use crate::texto::{anadir, cadena, caracteres, decimal, escribir_decimal};

verus! {

/// `MOD_ALT` de `RegisterHotKey`.
pub const MOD_ALT: u32 = 0x0001;
/// `MOD_CONTROL` de `RegisterHotKey`.
pub const MOD_CONTROL: u32 = 0x0002;
/// `MOD_SHIFT` de `RegisterHotKey`.
pub const MOD_SHIFT: u32 = 0x0004;
/// `MOD_WIN` de `RegisterHotKey`.
pub const MOD_WIN: u32 = 0x0008;
/// `MOD_NOREPEAT`: sin autorrepetición al mantener pulsado.
pub const MOD_NOREPEAT: u32 = 0x4000;
/// Virtual-key de F1 (F1..F24 son consecutivas).
pub const VK_F1: u16 = 0x70;
/// Virtual-key de Impr Pant.
pub const VK_SNAPSHOT: u16 = 0x2C;

#[derive(Clone, Copy, PartialEq, Eq, Debug, Structural)]
pub struct Modifiers {
    pub ctrl: bool,
    pub alt: bool,
    pub shift: bool,
    pub win: bool,
}

impl Default for Modifiers {
    fn default() -> (m: Modifiers)
        ensures
            m == (Modifiers { ctrl: false, alt: false, shift: false, win: false }),
    {
        Modifiers { ctrl: false, alt: false, shift: false, win: false }
    }
}

#[derive(Clone, Copy, PartialEq, Eq, Debug, Structural)]
pub enum KeyCode {
    Char(char),
    F(u8),
    PrintScreen,
}

#[derive(Clone, Copy, PartialEq, Eq, Debug, Structural)]
pub struct Hotkey {
    pub modifiers: Modifiers,
    pub key: KeyCode,
}

#[derive(Clone, Copy, PartialEq, Eq, Debug, Structural)]
pub struct HotkeyId(pub u32);

/// Flags `MOD_*` de unos modificadores.
pub open spec fn flags_de(m: Modifiers) -> u32 {
    ((if m.ctrl {
        MOD_CONTROL
    } else {
        0
    }) + (if m.alt {
        MOD_ALT
    } else {
        0
    }) + (if m.shift {
        MOD_SHIFT
    } else {
        0
    }) + (if m.win {
        MOD_WIN
    } else {
        0
    })) as u32
}

/// Modificadores → flags `MOD_*`.
pub fn mods_of(m: &Modifiers) -> (mods: u32)
    ensures
        mods == flags_de(*m),
{
    let mut mods: u32 = 0;
    if m.ctrl {
        assert(mods | 2 == mods + 2) by (bit_vector)
            requires
                mods == 0,
        ;
        mods = mods | MOD_CONTROL;
    }
    if m.alt {
        assert(mods | 1 == mods + 1) by (bit_vector)
            requires
                mods == 0 || mods == 2,
        ;
        mods = mods | MOD_ALT;
    }
    if m.shift {
        assert(mods | 4 == mods + 4) by (bit_vector)
            requires
                mods <= 3,
        ;
        mods = mods | MOD_SHIFT;
    }
    if m.win {
        assert(mods | 8 == mods + 8) by (bit_vector)
            requires
                mods <= 7,
        ;
        mods = mods | MOD_WIN;
    }
    mods
}

/// Virtual-key de una tecla; `None` si no es representable: para a-z y
/// 0-9 el VK es el ASCII en mayúscula, F1..F24 van seguidas e Impr Pant
/// tiene el suyo.
pub open spec fn vk_spec(key: KeyCode) -> Option<u16> {
    match key {
        KeyCode::Char(c) => if 'a' <= c <= 'z' {
            Some(((c as int) - 32) as u16)
        } else if '0' <= c <= '9' {
            Some((c as int) as u16)
        } else {
            None
        },
        KeyCode::F(n) => if 1 <= n <= 24 {
            Some((VK_F1 + n - 1) as u16)
        } else {
            None
        },
        KeyCode::PrintScreen => Some(VK_SNAPSHOT),
    }
}

/// Qué teclas tienen virtual-key y cuál: cada dígito ASCII, su propio
/// código (0x30..0x39); cada minúscula ASCII, el código de su mayúscula
/// (0x41..0x5A); F1..F24, 0x70..0x87 seguidas; Impr Pant, 0x2C; ningún
/// otro carácter ni otra tecla de función tiene.
pub proof fn ley_las_teclas_y_sus_codigos(c: char, n: u8)
    ensures
        '0' <= c <= '9' ==> vk_spec(KeyCode::Char(c)) == Some((c as u32) as u16)
            && 0x30 <= (c as u32) <= 0x39,
        'a' <= c <= 'z' ==> vk_spec(KeyCode::Char(c)) == Some(((c as u32) - 0x20) as u16)
            && 0x41 <= (c as u32) - 0x20 <= 0x5A,
        !('0' <= c <= '9') && !('a' <= c <= 'z') ==> vk_spec(KeyCode::Char(c)) is None,
        1 <= n <= 24 ==> vk_spec(KeyCode::F(n)) == Some((0x70 + n - 1) as u16),
        !(1 <= n <= 24) ==> vk_spec(KeyCode::F(n)) is None,
        vk_spec(KeyCode::PrintScreen) == Some(0x2Cu16),
{
}

/// Tecla → virtual-key code. `None` si no es representable.
pub fn vk_of(key: KeyCode) -> (vk: Option<u16>)
    ensures
        vk == vk_spec(key),
{
    match key {
        KeyCode::Char(c) => {
            if 'a' <= c && c <= 'z' {
                Some((crate::texto::codigo(c) - 32) as u16)
            } else if '0' <= c && c <= '9' {
                Some(crate::texto::codigo(c) as u16)
            } else {
                None
            }
        },
        KeyCode::F(n) => {
            if 1 <= n && n <= 24 {
                Some(VK_F1 + (n as u16 - 1))
            } else {
                None
            }
        },
        KeyCode::PrintScreen => Some(VK_SNAPSHOT),
    }
}

/// Por qué no se puede dar de alta o de baja un atajo.
#[derive(Clone, PartialEq, Eq, Debug)]
pub enum HotkeyError {
    AlreadyRegistered(Hotkey),
    UnknownId(HotkeyId),
    /// La plataforma no lo admite (tecla sin virtual-key, o el sistema lo
    /// rechazó); lleva el motivo.
    Platform(String),
    /// Se agotaron los ids.
    SinIds,
}

/// Un `HotkeyError` como valores.
pub enum FalloHotkey {
    AlreadyRegistered(Hotkey),
    UnknownId(HotkeyId),
    Platform(Seq<char>),
    SinIds,
}

impl View for HotkeyError {
    type V = FalloHotkey;

    open spec fn view(&self) -> FalloHotkey {
        match self {
            HotkeyError::AlreadyRegistered(h) => FalloHotkey::AlreadyRegistered(*h),
            HotkeyError::UnknownId(id) => FalloHotkey::UnknownId(*id),
            HotkeyError::Platform(m) => FalloHotkey::Platform(m@),
            HotkeyError::SinIds => FalloHotkey::SinIds,
        }
    }
}

/// Cómo se nombra una tecla en los mensajes: `Char('x')` (el carácter
/// tal cual), `F(n)` o `PrintScreen`.
pub open spec fn nombre_tecla(k: KeyCode) -> Seq<char> {
    match k {
        KeyCode::Char(c) => "Char('"@ + seq![c] + "')"@,
        KeyCode::F(n) => "F("@ + decimal(n as nat) + ")"@,
        KeyCode::PrintScreen => "PrintScreen"@,
    }
}

/// Motivo del error de una tecla sin virtual-key.
pub open spec fn motivo_no_mapeable(k: KeyCode) -> Seq<char> {
    "tecla no mapeable: "@ + nombre_tecla(k)
}

/// Mensaje de una tecla sin virtual-key.
fn mensaje_no_mapeable(k: KeyCode) -> (m: String)
    ensures
        m@ == motivo_no_mapeable(k),
{
    let mut v: Vec<char> = caracteres("tecla no mapeable: ");
    match k {
        KeyCode::Char(c) => {
            anadir(&mut v, &caracteres("Char('"));
            v.push(c);
            anadir(&mut v, &caracteres("')"));
        },
        KeyCode::F(n) => {
            anadir(&mut v, &caracteres("F("));
            escribir_decimal(&mut v, n as u64);
            anadir(&mut v, &caracteres(")"));
        },
        KeyCode::PrintScreen => {
            anadir(&mut v, &caracteres("PrintScreen"));
        },
    }
    proof {
        reveal_strlit("tecla no mapeable: ");
    }
    assert(v@ =~= motivo_no_mapeable(k));
    cadena(&v)
}

/// Lo que hay que pedir al sistema para dar de alta un atajo.
#[derive(Clone, Copy, PartialEq, Eq, Debug, Structural)]
pub struct Alta {
    pub id: HotkeyId,
    /// Flags `MOD_*` (con `MOD_NOREPEAT`).
    pub modificadores: u32,
    pub vk: u16,
}

/// Atajos dados de alta y el siguiente id libre.
pub struct Win32HotkeyProvider {
    next_id: u32,
    registered: Vec<(HotkeyId, Hotkey)>,
}

/// Contenido del registro.
pub struct Registro {
    pub siguiente: nat,
    pub atajos: Seq<(HotkeyId, Hotkey)>,
}

/// Posición del atajo con id `id`, o -1.
pub open spec fn posicion_de(atajos: Seq<(HotkeyId, Hotkey)>, id: HotkeyId) -> int
    decreases atajos.len(),
{
    if atajos.len() == 0 {
        -1
    } else if atajos.last().0 == id {
        atajos.len() - 1
    } else {
        posicion_de(atajos.drop_last(), id)
    }
}

/// El atajo ya está dado de alta.
pub open spec fn ya_registrado(atajos: Seq<(HotkeyId, Hotkey)>, h: Hotkey) -> bool {
    exists|i: int| 0 <= i < atajos.len() && atajos[i].1 == h
}

/// Qué se pide al sistema para dar de alta `h`, o por qué no.
pub open spec fn alta_spec(r: Registro, h: Hotkey) -> Result<Alta, FalloHotkey> {
    if ya_registrado(r.atajos, h) {
        Err(FalloHotkey::AlreadyRegistered(h))
    } else if vk_spec(h.key) is None {
        Err(FalloHotkey::Platform(motivo_no_mapeable(h.key)))
    } else if r.siguiente >= u32::MAX {
        Err(FalloHotkey::SinIds)
    } else {
        Ok(
            Alta {
                id: HotkeyId(r.siguiente as u32),
                modificadores: (flags_de(h.modifiers) + MOD_NOREPEAT) as u32,
                vk: vk_spec(h.key)->0,
            },
        )
    }
}

impl View for Win32HotkeyProvider {
    type V = Registro;

    closed spec fn view(&self) -> Registro {
        Registro { siguiente: self.next_id as nat, atajos: self.registered@ }
    }
}

impl Win32HotkeyProvider {
    /// Invariante: ids positivos, únicos y menores que el siguiente;
    /// ningún atajo repetido.
    pub open spec fn bien_formado(&self) -> bool {
        let r = self@;
        &&& r.siguiente >= 1
        &&& forall|i: int| 0 <= i < r.atajos.len() ==> 1 <= (#[trigger] r.atajos[i]).0.0 < r.siguiente
        &&& forall|i: int, j: int|
            0 <= i < j < r.atajos.len() ==> (#[trigger] r.atajos[i]).0 != (#[trigger] r.atajos[j]).0
                && r.atajos[i].1 != r.atajos[j].1
    }

    pub fn new() -> (p: Self)
        ensures
            p@.siguiente == 1,
            p@.atajos.len() == 0,
            p.bien_formado(),
    {
        Win32HotkeyProvider { next_id: 1, registered: Vec::new() }
    }

    /// Qué pedir al sistema para dar de alta `hotkey`: error si ya está,
    /// error de plataforma si la tecla no tiene virtual-key, o si no
    /// quedan ids.
    pub fn alta(&self, hotkey: Hotkey) -> (r: Result<Alta, HotkeyError>)
        ensures
            match r {
                Ok(a) => alta_spec(self@, hotkey) == Ok::<Alta, FalloHotkey>(a),
                Err(e) => alta_spec(self@, hotkey) == Err::<Alta, FalloHotkey>(e@),
            },
    {
        let mut i: usize = 0;
        while i < self.registered.len()
            invariant
                i <= self.registered@.len(),
                forall|k: int| 0 <= k < i ==> self.registered@[k].1 != hotkey,
            decreases self.registered@.len() - i,
        {
            if self.registered[i].1 == hotkey {
                assert(ya_registrado(self@.atajos, hotkey));
                return Err(HotkeyError::AlreadyRegistered(hotkey));
            }
            i = i + 1;
        }
        assert(!ya_registrado(self@.atajos, hotkey));
        let vk = match vk_of(hotkey.key) {
            Some(vk) => vk,
            None => return Err(HotkeyError::Platform(mensaje_no_mapeable(hotkey.key))),
        };
        if self.next_id == u32::MAX {
            return Err(HotkeyError::SinIds);
        }
        let mods = mods_of(&hotkey.modifiers);
        assert(mods | MOD_NOREPEAT == mods + MOD_NOREPEAT) by (bit_vector)
            requires
                mods <= 15,
        ;
        Ok(Alta { id: HotkeyId(self.next_id), modificadores: mods | MOD_NOREPEAT, vk })
    }

    /// El sistema aceptó el alta: queda registrado con el id del alta y el
    /// siguiente id avanza.
    pub fn alta_hecha(&mut self, hotkey: Hotkey, alta: Alta)
        requires
            old(self).bien_formado(),
            alta_spec(old(self)@, hotkey) == Ok::<Alta, FalloHotkey>(alta),
        ensures
            final(self).bien_formado(),
            final(self)@.siguiente == old(self)@.siguiente + 1,
            final(self)@.atajos == old(self)@.atajos.push((alta.id, hotkey)),
    {
        self.registered.push((alta.id, hotkey));
        self.next_id = self.next_id + 1;
        assert forall|i: int, j: int|
            0 <= i < j < self@.atajos.len() implies (#[trigger] self@.atajos[i]).0 != (
            #[trigger] self@.atajos[j]).0 && self@.atajos[i].1 != self@.atajos[j].1 by {
            if j == self@.atajos.len() - 1 {
                assert(old(self)@.atajos[i] == self@.atajos[i]);
            }
        }
    }

    /// Posición del atajo `id` para darlo de baja, o `UnknownId`.
    pub fn baja(&self, id: HotkeyId) -> (r: Result<usize, HotkeyError>)
        ensures
            match r {
                Ok(pos) => pos == posicion_de(self@.atajos, id) && pos < self@.atajos.len(),
                Err(e) => e@ == FalloHotkey::UnknownId(id) && posicion_de(self@.atajos, id) == -1,
            },
    {
        let mut n: usize = self.registered.len();
        assert(self@.atajos.take(n as int) =~= self@.atajos);
        while n > 0
            invariant
                n <= self.registered@.len(),
                posicion_de(self@.atajos, id) == posicion_de(self@.atajos.take(n as int), id),
            decreases n,
        {
            let ghost t = self@.atajos.take(n as int);
            assert(t.drop_last() =~= self@.atajos.take(n - 1));
            if self.registered[n - 1].0 == id {
                return Ok(n - 1);
            }
            n = n - 1;
        }
        Err(HotkeyError::UnknownId(id))
    }

    /// El sistema aceptó la baja de la posición `pos`: deja de estar.
    pub fn baja_hecha(&mut self, pos: usize)
        requires
            old(self).bien_formado(),
            pos < old(self)@.atajos.len(),
        ensures
            final(self).bien_formado(),
            final(self)@.siguiente == old(self)@.siguiente,
            final(self)@.atajos == old(self)@.atajos.remove(pos as int),
    {
        self.registered.remove(pos);
        assert forall|i: int, j: int|
            0 <= i < j < self@.atajos.len() implies (#[trigger] self@.atajos[i]).0 != (
            #[trigger] self@.atajos[j]).0 && self@.atajos[i].1 != self@.atajos[j].1 by {
            let (a, b) = (if i < pos {
                i
            } else {
                i + 1
            }, if j < pos {
                j
            } else {
                j + 1
            });
            assert(self@.atajos[i] == old(self)@.atajos[a]);
            assert(self@.atajos[j] == old(self)@.atajos[b]);
        }
        assert forall|i: int| 0 <= i < self@.atajos.len() implies 1 <= (
        #[trigger] self@.atajos[i]).0.0 < self@.siguiente by {
            if i < pos {
                assert(self@.atajos[i] == old(self)@.atajos[i]);
            } else {
                assert(self@.atajos[i] == old(self)@.atajos[i + 1]);
            }
        }
    }

    /// Ids dados de alta, en orden de alta (para liberarlos al final).
    pub fn ids(&self) -> (v: Vec<HotkeyId>)
        ensures
            v@ == self@.atajos.map_values(|a: (HotkeyId, Hotkey)| a.0),
    {
        let mut v: Vec<HotkeyId> = Vec::new();
        let mut i: usize = 0;
        while i < self.registered.len()
            invariant
                i <= self.registered@.len(),
                v@ == self@.atajos.take(i as int).map_values(|a: (HotkeyId, Hotkey)| a.0),
            decreases self.registered@.len() - i,
        {
            v.push(self.registered[i].0);
            assert(self@.atajos.take(i + 1).map_values(|a: (HotkeyId, Hotkey)| a.0)
                =~= self@.atajos.take(i as int).map_values(|a: (HotkeyId, Hotkey)| a.0).push(
                self@.atajos[i as int].0,
            ));
            i = i + 1;
        }
        assert(self@.atajos.take(self@.atajos.len() as int) =~= self@.atajos);
        v
    }
}

/// Dar de alta y buscar para la baja: el id recién dado de alta se
/// encuentra en la última posición, con su atajo, y ningún otro atajo
/// dado de alta antes tenía ese id.
pub proof fn ley_lo_dado_de_alta_se_encuentra(
    antes: Seq<(HotkeyId, Hotkey)>,
    siguiente: nat,
    alta: Alta,
    h: Hotkey,
)
    requires
        forall|i: int| 0 <= i < antes.len() ==> (#[trigger] antes[i]).0.0 < siguiente,
        alta.id.0 == siguiente,
    ensures
        posicion_de(antes.push((alta.id, h)), alta.id) == antes.len(),
        antes.push((alta.id, h))[antes.len() as int].1 == h,
        posicion_de(antes, alta.id) == -1,
{
    lema_id_ausente(antes, siguiente, alta.id);
    assert(antes.push((alta.id, h)).drop_last() =~= antes);
}

/// Dar de alta un atajo y después de baja deja los atajos como estaban:
/// la baja encuentra el alta en la última posición y quitar esa posición
/// devuelve la lista de antes.
pub proof fn ley_alta_y_baja_se_deshacen(r: Registro, h: Hotkey, alta: Alta)
    requires
        forall|i: int| 0 <= i < r.atajos.len() ==> (#[trigger] r.atajos[i]).0.0 < r.siguiente,
        alta_spec(r, h) == Ok::<Alta, FalloHotkey>(alta),
    ensures
        ({
            let despues = r.atajos.push((alta.id, h));
            &&& posicion_de(despues, alta.id) == r.atajos.len()
            &&& despues.remove(r.atajos.len() as int) == r.atajos
        }),
{
    ley_lo_dado_de_alta_se_encuentra(r.atajos, r.siguiente, alta, h);
    assert(r.atajos.push((alta.id, h)).remove(r.atajos.len() as int) =~= r.atajos);
}

proof fn lema_id_ausente(atajos: Seq<(HotkeyId, Hotkey)>, siguiente: nat, id: HotkeyId)
    requires
        forall|i: int| 0 <= i < atajos.len() ==> (#[trigger] atajos[i]).0.0 < siguiente,
        id.0 >= siguiente,
    ensures
        posicion_de(atajos, id) == -1,
    decreases atajos.len(),
{
    if atajos.len() > 0 {
        let t = atajos.drop_last();
        assert forall|i: int| 0 <= i < t.len() implies (#[trigger] t[i]).0.0 < siguiente by {
            assert(t[i] == atajos[i]);
        }
        assert(atajos.last().0.0 < siguiente);
        lema_id_ausente(t, siguiente, id);
    }
}

} // verus!
