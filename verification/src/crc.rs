//! CRC-32/ISO-HDLC: reflected polynomial `0xEDB88320`, initial value and
//! final xor `0xFFFFFFFF`. The variant the bootloader and the ECU use.

use vstd::prelude::*;

verus! {

/// Reflected CRC-32 polynomial.
pub const CRC32_POLY: u32 = 0xEDB8_8320;

/// One bit step of the reflected shift register.
pub open spec fn crc_step(c: u32) -> u32 {
    if c & 1 != 0 {
        (c >> 1) ^ CRC32_POLY
    } else {
        c >> 1
    }
}

/// `n` bit steps.
pub open spec fn crc_steps(c: u32, n: nat) -> u32
    decreases n,
{
    if n == 0 {
        c
    } else {
        crc_step(crc_steps(c, (n - 1) as nat))
    }
}

/// The register after absorbing one byte.
pub open spec fn crc_byte(c: u32, b: u8) -> u32 {
    crc_steps(c ^ (b as u32), 8)
}

/// The register after absorbing `data`, starting from `c`.
pub open spec fn crc_register(c: u32, data: Seq<u8>) -> u32
    decreases data.len(),
{
    if data.len() == 0 {
        c
    } else {
        crc_byte(crc_register(c, data.drop_last()), data.last())
    }
}

/// CRC-32/ISO-HDLC of `data`.
pub open spec fn crc32_spec(data: Seq<u8>) -> u32 {
    crc_register(0xFFFF_FFFF, data) ^ 0xFFFF_FFFF
}

/// CRC-32/ISO-HDLC of `data`.
pub fn crc32(data: &[u8]) -> (r: u32)
    ensures
        r == crc32_spec(data@),
{
    let mut crc: u32 = 0xFFFF_FFFF;
    let mut i: usize = 0;
    while i < data.len()
        invariant
            i <= data@.len(),
            crc == crc_register(0xFFFF_FFFF, data@.take(i as int)),
        decreases data@.len() - i,
    {
        crc = crc ^ (data[i] as u32);
        let ghost start = crc;
        let mut j: u32 = 0;
        while j < 8
            invariant
                j <= 8,
                crc == crc_steps(start, j as nat),
            decreases 8 - j,
        {
            crc = if crc & 1 != 0 {
                (crc >> 1) ^ CRC32_POLY
            } else {
                crc >> 1
            };
            j = j + 1;
        }
        assert(data@.take(i + 1).drop_last() =~= data@.take(i as int));
        i = i + 1;
    }
    assert(data@.take(data@.len() as int) =~= data@);
    crc ^ 0xFFFF_FFFF
}

// ---- Error detection ---------------------------------------------

/// Bytewise xor of two sequences of the same length.
pub open spec fn seq_xor(a: Seq<u8>, b: Seq<u8>) -> Seq<u8> {
    Seq::new(a.len(), |i: int| a[i] ^ b[i])
}

proof fn lemma_step_linear(a: u32, b: u32)
    ensures
        crc_step(a ^ b) == crc_step(a) ^ crc_step(b),
{
    assert(
        (if (a ^ b) & 1u32 != 0 { ((a ^ b) >> 1u32) ^ 0xEDB8_8320u32 } else { (a ^ b) >> 1u32 })
        == (if a & 1u32 != 0 { (a >> 1u32) ^ 0xEDB8_8320u32 } else { a >> 1u32 }) ^ (if b & 1u32
            != 0 { (b >> 1u32) ^ 0xEDB8_8320u32 } else { b >> 1u32 })
    ) by (bit_vector);
}

proof fn lemma_steps_linear(a: u32, b: u32, n: nat)
    ensures
        crc_steps(a ^ b, n) == crc_steps(a, n) ^ crc_steps(b, n),
    decreases n,
{
    if n > 0 {
        lemma_steps_linear(a, b, (n - 1) as nat);
        lemma_step_linear(crc_steps(a, (n - 1) as nat), crc_steps(b, (n - 1) as nat));
    }
}

proof fn lemma_byte_linear(a: u32, b: u32, x: u8, y: u8)
    ensures
        crc_byte(a ^ b, x ^ y) == crc_byte(a, x) ^ crc_byte(b, y),
{
    assert((a ^ b) ^ ((x ^ y) as u32) == (a ^ (x as u32)) ^ (b ^ (y as u32))) by (bit_vector);
    lemma_steps_linear(a ^ (x as u32), b ^ (y as u32), 8);
}

/// The register is linear over GF(2) in the initial value and the data.
proof fn lemma_register_linear(a: u32, b: u32, s: Seq<u8>, t: Seq<u8>)
    requires
        s.len() == t.len(),
    ensures
        crc_register(a ^ b, seq_xor(s, t)) == crc_register(a, s) ^ crc_register(b, t),
    decreases s.len(),
{
    if s.len() > 0 {
        let e = seq_xor(s, t);
        assert(e.drop_last() =~= seq_xor(s.drop_last(), t.drop_last()));
        lemma_register_linear(a, b, s.drop_last(), t.drop_last());
        lemma_byte_linear(
            crc_register(a, s.drop_last()),
            crc_register(b, t.drop_last()),
            s.last(),
            t.last(),
        );
    }
}

/// Absorbing `s` then `t` is absorbing `s + t`.
proof fn lemma_register_append(c: u32, s: Seq<u8>, t: Seq<u8>)
    ensures
        crc_register(c, s + t) == crc_register(crc_register(c, s), t),
    decreases t.len(),
{
    if t.len() == 0 {
        assert(s + t =~= s);
    } else {
        assert((s + t).drop_last() =~= s + t.drop_last());
        lemma_register_append(c, s, t.drop_last());
    }
}

proof fn lemma_step_nonzero(c: u32)
    ensures
        c != 0 <==> crc_step(c) != 0,
{
    assert(c != 0 <==> (if c & 1u32 != 0 { (c >> 1u32) ^ 0xEDB8_8320u32 } else { c >> 1u32 })
        != 0) by (bit_vector);
}

proof fn lemma_steps_nonzero(c: u32, n: nat)
    ensures
        c != 0 <==> crc_steps(c, n) != 0,
    decreases n,
{
    if n > 0 {
        lemma_steps_nonzero(c, (n - 1) as nat);
        lemma_step_nonzero(crc_steps(c, (n - 1) as nat));
    }
}

/// A run of zero bytes keeps a zero register zero and a non-zero register
/// non-zero.
proof fn lemma_zeros_keep_nonzero(c: u32, z: Seq<u8>)
    requires
        forall|i: int| 0 <= i < z.len() ==> z[i] == 0,
    ensures
        c != 0 <==> crc_register(c, z) != 0,
    decreases z.len(),
{
    if z.len() > 0 {
        lemma_zeros_keep_nonzero(c, z.drop_last());
        let r = crc_register(c, z.drop_last());
        assert(r ^ (0u8 as u32) == r) by (bit_vector);
        lemma_steps_nonzero(r, 8);
    }
}

/// Eight bit steps written out.
spec fn eight_steps(c: u32) -> u32 {
    crc_step(crc_step(crc_step(crc_step(crc_step(crc_step(crc_step(crc_step(c))))))))
}

proof fn lemma_eight_steps(c: u32)
    ensures
        crc_steps(c, 8) == eight_steps(c),
{
    reveal_with_fuel(crc_steps, 9);
}

/// A non-zero byte absorbed into a zero register leaves a bit above the low
/// byte set, so no following byte can cancel it.
proof fn lemma_two_bytes_nonzero(d1: u8, d2: u8)
    requires
        d1 != 0 || d2 != 0,
    ensures
        crc_byte(crc_byte(0, d1), d2) != 0,
{
    let c1 = crc_byte(0, d1);
    lemma_eight_steps(0u32 ^ (d1 as u32));
    let x = d1 as u32;
    assert(x != 0 && x < 256 ==> (eight_steps(x) >> 8u32) != 0) by (bit_vector);
    assert(0u32 ^ (d1 as u32) == d1 as u32) by (bit_vector);
    if d1 == 0 {
        lemma_steps_nonzero(0, 8);
        assert(c1 == 0);
        assert(0u32 ^ (d2 as u32) == d2 as u32) by (bit_vector);
        lemma_steps_nonzero(d2 as u32, 8);
    } else {
        let y = d2 as u32;
        assert((c1 >> 8u32) != 0 && y < 256 ==> c1 ^ y != 0) by (bit_vector);
        lemma_steps_nonzero(c1 ^ y, 8);
    }
}

/// CRC-32 detects every change confined to two adjacent bytes: two
/// messages of the same length that differ, and differ only at positions
/// `k` and `k + 1`, have different CRCs.
pub proof fn lemma_crc32_detects_two_byte_change(m1: Seq<u8>, m2: Seq<u8>, k: int)
    requires
        m1.len() == m2.len(),
        0 <= k,
        k + 1 < m1.len(),
        forall|i: int| 0 <= i < m1.len() && i != k && i != k + 1 ==> m1[i] == m2[i],
        m1 != m2,
    ensures
        crc32_spec(m1) != crc32_spec(m2),
{
    let e = seq_xor(m1, m2);
    lemma_register_linear(0xFFFF_FFFF, 0xFFFF_FFFF, m1, m2);
    assert(0xFFFF_FFFFu32 ^ 0xFFFF_FFFFu32 == 0u32) by (bit_vector);
    let c1 = crc_register(0xFFFF_FFFF, m1);
    let c2 = crc_register(0xFFFF_FFFF, m2);
    // e = zeros(k) + [d1, d2] + zeros(rest)
    let head = e.take(k);
    let mid = e.subrange(k, k + 2);
    let tail = e.subrange(k + 2, e.len() as int);
    assert(e =~= head + mid + tail);
    assert forall|i: int| 0 <= i < head.len() implies head[i] == 0 by {
        assert(m1[i] == m2[i]);
        let a = m1[i];
        assert(a ^ a == 0) by (bit_vector);
    }
    assert forall|i: int| 0 <= i < tail.len() implies tail[i] == 0 by {
        assert(m1[i + k + 2] == m2[i + k + 2]);
        let a = m1[i + k + 2];
        assert(a ^ a == 0) by (bit_vector);
    }
    let d1 = mid[0];
    let d2 = mid[1];
    if d1 == 0 && d2 == 0 {
        let a = m1[k];
        let b = m2[k];
        assert(a ^ b == 0 ==> a == b) by (bit_vector);
        let a2 = m1[k + 1];
        let b2 = m2[k + 1];
        assert(a2 ^ b2 == 0 ==> a2 == b2) by (bit_vector);
        assert(m1 =~= m2);
    }
    lemma_register_append(0, head + mid, tail);
    lemma_register_append(0, head, mid);
    lemma_zeros_keep_nonzero(0, head);
    assert(mid.drop_last().drop_last() =~= Seq::<u8>::empty());
    assert(mid.drop_last().last() == d1);
    lemma_two_bytes_nonzero(d1, d2);
    assert(crc_register(0, head) == 0);
    assert(crc_register(0, mid.drop_last().drop_last()) == 0);
    assert(crc_register(0, mid.drop_last()) == crc_byte(0, d1));
    assert(mid.last() == d2);
    assert(crc_register(0, mid) == crc_byte(crc_byte(0, d1), d2));
    assert(crc_register(0, head + mid) != 0);
    lemma_zeros_keep_nonzero(crc_register(0, head + mid), tail);
    assert(crc_register(0, e) != 0);
    assert(c1 ^ c2 != 0);
    assert(c1 ^ c2 != 0 ==> (c1 ^ 0xFFFF_FFFFu32) != (c2 ^ 0xFFFF_FFFFu32)) by (bit_vector);
}


/// The register steps by the reflected polynomial `0xEDB88320`: shift right
/// one bit, folding the polynomial in when the bit shifted out was set; and
/// the checksum starts from and is finished with `0xFFFFFFFF`.
pub proof fn lemma_crc32_parameters(c: u32, data: Seq<u8>)
    ensures
        crc_step(c) == (if c % 2 == 1 {
            (c / 2) ^ 0xEDB8_8320u32
        } else {
            c / 2
        }),
        crc32_spec(data) == crc_register(0xFFFF_FFFFu32, data) ^ 0xFFFF_FFFFu32,
{
    assert((c & 1 != 0) == (c % 2 == 1) && c >> 1 == c / 2) by (bit_vector);
}
} // verus!
