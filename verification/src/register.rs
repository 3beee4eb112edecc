use vstd::prelude::*;

verus! {

/// The processor status register P, one flag per field.
#[derive(Debug, Clone, Copy)]
pub struct StatusRegister {
    /// Carry
    pub c: bool,
    /// Zero
    pub z: bool,
    /// Interrupt disable
    pub i: bool,
    /// Decimal mode
    pub d: bool,
    /// Break command
    pub b: bool,
    /// Overflow
    pub v: bool,
    /// Negative
    pub n: bool,
}

/// 1 if the flag is set, 0 otherwise.
pub open spec fn flag_value(f: bool) -> int {
    if f { 1 } else { 0 }
}

/// The byte that encodes a status register: C in bit 0, Z in bit 1, I in bit 2,
/// D in bit 3, B in bit 4, bit 5 always set, V in bit 6 and N in bit 7.
pub open spec fn status_byte(s: StatusRegister) -> u8 {
    (flag_value(s.c) + 2 * flag_value(s.z) + 4 * flag_value(s.i) + 8 * flag_value(s.d)
        + 16 * flag_value(s.b) + 32 + 64 * flag_value(s.v) + 128 * flag_value(s.n)) as u8
}

/// The status register that a byte encodes; bit 5 is ignored.
pub open spec fn status_of_byte(byte: u8) -> StatusRegister {
    StatusRegister {
        c: byte % 2 == 1,
        z: (byte / 2) % 2 == 1,
        i: (byte / 4) % 2 == 1,
        d: (byte / 8) % 2 == 1,
        b: (byte / 16) % 2 == 1,
        v: (byte / 64) % 2 == 1,
        n: (byte / 128) % 2 == 1,
    }
}

/// Setting bit `k` of a byte whose value is below 2^k adds 2^k.
proof fn lemma_or_high_bit(r: u8, k: u8)
    requires
        k < 8,
        r < (1u8 << k),
    ensures
        r | (1u8 << k) == r + (1u8 << k),
{
    assert(r | (1u8 << k) == r + (1u8 << k)) by (bit_vector)
        requires
            k < 8,
            r < (1u8 << k),
    ;
}

/// A single-bit mask tests the same bit as division and remainder.
proof fn lemma_masks(byte: u8)
    ensures
        ((byte & 0x01) != 0) == (byte % 2 == 1),
        ((byte & 0x02) != 0) == ((byte / 2) % 2 == 1),
        ((byte & 0x04) != 0) == ((byte / 4) % 2 == 1),
        ((byte & 0x08) != 0) == ((byte / 8) % 2 == 1),
        ((byte & 0x10) != 0) == ((byte / 16) % 2 == 1),
        ((byte & 0x40) != 0) == ((byte / 64) % 2 == 1),
        ((byte & 0x80) != 0) == ((byte / 128) % 2 == 1),
{
    assert(((byte & 0x01) != 0) == (byte % 2 == 1) && ((byte & 0x02) != 0) == ((byte / 2) % 2 == 1)
        && ((byte & 0x04) != 0) == ((byte / 4) % 2 == 1) && ((byte & 0x08) != 0) == ((byte / 8) % 2
        == 1) && ((byte & 0x10) != 0) == ((byte / 16) % 2 == 1) && ((byte & 0x40) != 0) == ((byte
        / 64) % 2 == 1) && ((byte & 0x80) != 0) == ((byte / 128) % 2 == 1)) by (bit_vector);
}

impl StatusRegister {
    /// A status register with every flag clear.
    pub fn new() -> (s: Self)
        ensures
            !s.c && !s.z && !s.i && !s.d && !s.b && !s.v && !s.n,
    {
        StatusRegister { c: false, z: false, i: false, d: false, b: false, v: false, n: false }
    }

    /// Encodes the flags as a byte, with bit 5 always set.
    pub fn as_byte(&self) -> (result: u8)
        ensures
            result == status_byte(*self),
    {
        let mut result = 0u8;
        proof {
            assert((1u8 << 0u8) == 1 && (1u8 << 1u8) == 2 && (1u8 << 2u8) == 4 && (1u8 << 3u8) == 8
                && (1u8 << 4u8) == 16 && (1u8 << 5u8) == 32 && (1u8 << 6u8) == 64 && (1u8 << 7u8)
                == 128) by (bit_vector);
        }
        if self.c {
            proof { lemma_or_high_bit(result, 0); }
            result |= 0b0000_0001;
        }
        if self.z {
            proof { lemma_or_high_bit(result, 1); }
            result |= 0b0000_0010;
        }
        if self.i {
            proof { lemma_or_high_bit(result, 2); }
            result |= 0b0000_0100;
        }
        if self.d {
            proof { lemma_or_high_bit(result, 3); }
            result |= 0b0000_1000;
        }
        if self.b {
            proof { lemma_or_high_bit(result, 4); }
            result |= 0b0001_0000;
        }
        proof { lemma_or_high_bit(result, 5); }
        result |= 0b0010_0000;
        if self.v {
            proof { lemma_or_high_bit(result, 6); }
            result |= 0b0100_0000;
        }
        if self.n {
            proof { lemma_or_high_bit(result, 7); }
            result |= 0b1000_0000;
        }
        result
    }

    /// Decodes the flags from a byte; bit 5 is ignored.
    pub fn from_byte(byte: u8) -> (s: Self)
        ensures
            s == status_of_byte(byte),
    {
        proof { lemma_masks(byte); }
        StatusRegister {
            c: (byte & 0b0000_0001) != 0,
            z: (byte & 0b0000_0010) != 0,
            i: (byte & 0b0000_0100) != 0,
            d: (byte & 0b0000_1000) != 0,
            b: (byte & 0b0001_0000) != 0,
            v: (byte & 0b0100_0000) != 0,
            n: (byte & 0b1000_0000) != 0,
        }
    }
}

/// The encoded status has C in bit 0, Z in bit 1, I in bit 2, D in bit 3, B in
/// bit 4, bit 5 set, V in bit 6 and N in bit 7.
pub proof fn lemma_status_byte_bits(s: StatusRegister)
    ensures
        (status_byte(s) % 2 == 1) == s.c,
        ((status_byte(s) / 2) % 2 == 1) == s.z,
        ((status_byte(s) / 4) % 2 == 1) == s.i,
        ((status_byte(s) / 8) % 2 == 1) == s.d,
        ((status_byte(s) / 16) % 2 == 1) == s.b,
        (status_byte(s) / 32) % 2 == 1,
        ((status_byte(s) / 64) % 2 == 1) == s.v,
        ((status_byte(s) / 128) % 2 == 1) == s.n,
{
    lemma_from_byte_as_byte(s);
}

/// Decoding the byte that encodes a status register gives back the same register.
pub proof fn lemma_from_byte_as_byte(s: StatusRegister)
    ensures
        status_of_byte(status_byte(s)) == s,
{
}

/// Encoding the decoded flags of a byte gives back the byte with bit 5 set.
pub proof fn lemma_as_byte_from_byte(byte: u8)
    ensures
        status_byte(status_of_byte(byte)) == byte | 0x20,
{
    assert(byte | 0x20 == byte % 2 + 2 * ((byte / 2) % 2) + 4 * ((byte / 4) % 2) + 8 * ((byte / 8)
        % 2) + 16 * ((byte / 16) % 2) + 32 + 64 * ((byte / 64) % 2) + 128 * ((byte / 128) % 2))
        by (bit_vector);
}

} // verus!
