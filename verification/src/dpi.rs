//! Escala de unidades lógicas (rejilla a 96 dpi) a píxeles físicos.

use vstd::prelude::*;

verus! {

/// Conversor de unidades lógicas a píxeles físicos al DPI de una ventana.
#[derive(Clone, Copy, PartialEq, Eq, Debug, Structural)]
pub struct Escala(u32);

/// Píxeles físicos de `logico` unidades a `dpi`: `logico × dpi / 96`
/// redondeado al entero más cercano, las mitades hacia arriba (también
/// con negativos): el suelo de `(logico × dpi + 48) / 96`.
pub open spec fn px_de(dpi: u32, logico: int) -> int {
    (logico * dpi + 48) / 96
}

impl Escala {
    /// DPI efectivo: nunca 0.
    pub closed spec fn dpi_spec(self) -> u32 {
        self.0
    }

    /// Bien formada: el DPI no es 0.
    #[verifier::type_invariant]
    pub closed spec fn bien_formada(self) -> bool {
        self.0 > 0
    }

    /// Una escala bien formada (toda escala construida lo está, por su
    /// invariante de tipo) tiene DPI positivo.
    pub proof fn lema_dpi_positivo(self)
        requires
            self.bien_formada(),
        ensures
            self.dpi_spec() > 0,
    {
    }

    /// Una escala no es más que su DPI: dos escalas con el mismo DPI son
    /// la misma. Así `nueva(0)` y `nueva(96)` dan la misma escala.
    pub proof fn ley_la_escala_es_su_dpi(a: Escala, b: Escala)
        ensures
            a.dpi_spec() == b.dpi_spec() ==> a == b,
    {
    }

    /// `px` sobre enteros matemáticos, antes de quedarse en 32 bits.
    pub open spec fn px_spec(self, logico: int) -> int {
        px_de(self.dpi_spec(), logico)
    }

    /// Escala de un DPI; 0 (lo que da el sistema con una ventana
    /// inválida) se trata como 100 % (96 dpi).
    pub fn nueva(dpi: u32) -> (e: Self)
        ensures
            e.dpi_spec() == (if dpi == 0 {
                96
            } else {
                dpi
            }),
    {
        Escala(if dpi == 0 {
            96
        } else {
            dpi
        })
    }

    pub fn dpi(self) -> (d: u32)
        ensures
            d == self.dpi_spec(),
    {
        self.0
    }

    /// Lógico → físico con redondeo al más cercano (mitades hacia arriba).
    pub fn px(self, logico: i32) -> (r: i32)
        ensures
            r == #[verifier::truncate] (self.px_spec(logico as int) as i32),
    {
        let l = logico as i64;
        let d = self.0 as i64;
        assert(-0x8000_0000 * 0xffff_ffff <= l * d <= 0x7fff_ffff * 0xffff_ffff) by (nonlinear_arith)
            requires
                -0x8000_0000 <= l <= 0x7fff_ffff,
                0 <= d <= 0xffff_ffff,
        ;
        let producto = l * d + 48;
        assert(producto == logico * self.0 + 48);
        let q = if producto >= 0 {
            producto / 96
        } else {
            let m = -producto;
            let c = (m + 95) / 96;
            assert(-c == producto / 96) by (nonlinear_arith)
                requires
                    m > 0,
                    producto == -m,
                    c == (m + 95) / 96,
            ;
            -c
        };
        assert(q == (producto as int) / 96);
        #[verifier::truncate]
        (q as i32)
    }
}

/// DPI nuevo que trae `WM_DPICHANGED` en su wparam: la palabra baja.
pub fn dpi_de_wparam(wparam: usize) -> (d: u32)
    ensures
        d == wparam % 65536,
{
    assert((wparam & 0xFFFF) == wparam % 65536) by (bit_vector);
    (wparam & 0xFFFF) as u32
}

} // verus!
