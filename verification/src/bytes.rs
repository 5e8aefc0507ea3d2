//! Bytes little-endian y utilidades para escribir cabeceras binarias.

use vstd::prelude::*;

verus! {

/// Bytes little-endian de un `u16`.
pub open spec fn le16(v: u16) -> Seq<u8> {
    seq![(v % 256) as u8, (v / 256) as u8]
}

/// Bytes little-endian de un `u32`.
pub open spec fn le32(v: u32) -> Seq<u8> {
    seq![(v % 256) as u8, ((v / 256) % 256) as u8, ((v / 65536) % 256) as u8, (v / 16777216) as u8]
}

/// `n` bytes a cero.
pub open spec fn ceros(n: nat) -> Seq<u8> {
    Seq::new(n, |i: int| 0u8)
}

/// Añade `x` en little-endian.
pub fn poner_u16(v: &mut Vec<u8>, x: u16)
    ensures
        final(v)@ == old(v)@ + le16(x),
{
    v.push((x % 256) as u8);
    v.push((x / 256) as u8);
    assert(final(v)@ =~= old(v)@ + le16(x));
}

/// Añade `x` en little-endian.
pub fn poner_u32(v: &mut Vec<u8>, x: u32)
    ensures
        final(v)@ == old(v)@ + le32(x),
{
    v.push((x % 256) as u8);
    v.push(((x / 256) % 256) as u8);
    v.push(((x / 65536) % 256) as u8);
    v.push((x / 16777216) as u8);
    assert(final(v)@ =~= old(v)@ + le32(x));
}

/// Añade `n` bytes a cero.
pub fn poner_ceros(v: &mut Vec<u8>, n: usize)
    ensures
        final(v)@ == old(v)@ + ceros(n as nat),
{
    let mut i: usize = 0;
    while i < n
        invariant
            i <= n,
            v@ == old(v)@ + ceros(i as nat),
        decreases n - i,
    {
        v.push(0);
        assert(old(v)@ + ceros((i + 1) as nat) =~= (old(v)@ + ceros(i as nat)).push(0u8));
        i = i + 1;
    }
}

/// Añade al final de `v` todos los bytes de `w`.
pub fn anadir_bytes(v: &mut Vec<u8>, w: &[u8])
    ensures
        final(v)@ == old(v)@ + w@,
{
    let mut i: usize = 0;
    while i < w.len()
        invariant
            i <= w@.len(),
            v@ == old(v)@ + w@.take(i as int),
        decreases w@.len() - i,
    {
        v.push(w[i]);
        assert(w@.take(i + 1) == w@.take(i as int).push(w@[i as int]));
        i = i + 1;
    }
    assert(w@.take(w@.len() as int) == w@);
}

} // verus!
