//! División entera con el redondeo de Rust (hacia cero) y acotaciones.

use vstd::prelude::*;

verus! {

/// Cociente de la división entera de Rust: trunca hacia cero.
pub open spec fn cociente(a: int, b: int) -> int
    recommends
        b > 0,
{
    if a >= 0 {
        a / b
    } else {
        -((-a) / b)
    }
}

/// Menor de dos enteros.
pub open spec fn minimo(a: int, b: int) -> int {
    if a <= b {
        a
    } else {
        b
    }
}

/// Mayor de dos enteros.
pub open spec fn maximo(a: int, b: int) -> int {
    if a >= b {
        a
    } else {
        b
    }
}

/// `v` acotado a `[lo, hi]` (`Ord::clamp`; exige `lo <= hi`).
pub open spec fn acotado(v: int, lo: int, hi: int) -> int {
    if v < lo {
        lo
    } else if v > hi {
        hi
    } else {
        v
    }
}

/// `v.clamp(lo, hi)` en 32 bits (exige `lo <= hi`, como `Ord::clamp`).
pub fn acotar(v: i32, lo: i32, hi: i32) -> (r: i32)
    requires
        lo <= hi,
    ensures
        r == acotado(v as int, lo as int, hi as int),
{
    if v < lo {
        lo
    } else if v > hi {
        hi
    } else {
        v
    }
}

} // verus!
