//! The processor's condition flags and their packing into the status byte.

use vstd::prelude::*;

verus! {

/// The seven condition flags and the reserved bit.
#[derive(Debug, Clone, Copy, PartialEq, Eq, Structural)]
pub struct StatusFlags {
    pub carry: bool,
    pub zero: bool,
    pub interrupt: bool,
    pub decimal: bool,
    pub brk: bool,
    pub ignored: bool,
    pub overflow: bool,
    pub negative: bool,
}

/// The weight that a flag contributes to the status byte when it is set.
pub open spec fn weight(flag: bool, value: int) -> int {
    if flag {
        value
    } else {
        0
    }
}

/// Whether the binary digit of the given weight (a power of two) is set in `byte`.
#[verifier::opaque]
pub open spec fn digit(byte: u8, value: int) -> bool {
    (byte as int / value) % 2 == 1
}

/// Setting a bit that is above every bit set so far adds its weight.
proof fn lemma_set_bit(byte: u8, bit: u8)
    by (bit_vector)
    requires
        bit == 0x01 || bit == 0x02 || bit == 0x04 || bit == 0x08 || bit == 0x10 || bit == 0x20
            || bit == 0x40 || bit == 0x80,
        byte < bit,
    ensures
        byte | bit == byte + bit,
{
}

/// Testing a bit by mask reads the binary digit of that weight.
proof fn lemma_test_bit(byte: u8)
    by (bit_vector)
    ensures
        (byte & 0x01 != 0) == ((byte / 0x01) % 2 == 1),
        (byte & 0x02 != 0) == ((byte / 0x02) % 2 == 1),
        (byte & 0x04 != 0) == ((byte / 0x04) % 2 == 1),
        (byte & 0x08 != 0) == ((byte / 0x08) % 2 == 1),
        (byte & 0x10 != 0) == ((byte / 0x10) % 2 == 1),
        (byte & 0x20 != 0) == ((byte / 0x20) % 2 == 1),
        (byte & 0x40 != 0) == ((byte / 0x40) % 2 == 1),
        (byte & 0x80 != 0) == ((byte / 0x80) % 2 == 1),
{
}

impl StatusFlags {
    /// All flags clear.
    pub open spec fn cleared() -> StatusFlags {
        StatusFlags {
            carry: false,
            zero: false,
            interrupt: false,
            decimal: false,
            brk: false,
            ignored: false,
            overflow: false,
            negative: false,
        }
    }

    /// The status byte: each set flag contributes its weight, carry lowest and
    /// negative highest.
    pub open spec fn packed(self) -> int {
        weight(self.carry, 0x01) + weight(self.zero, 0x02) + weight(self.interrupt, 0x04) + weight(
            self.decimal,
            0x08,
        ) + weight(self.brk, 0x10) + weight(self.ignored, 0x20) + weight(self.overflow, 0x40)
            + weight(self.negative, 0x80)
    }

    /// The flags that a status byte stands for.
    pub open spec fn unpacked(byte: u8) -> StatusFlags {
        StatusFlags {
            carry: digit(byte, 0x01),
            zero: digit(byte, 0x02),
            interrupt: digit(byte, 0x04),
            decimal: digit(byte, 0x08),
            brk: digit(byte, 0x10),
            ignored: digit(byte, 0x20),
            overflow: digit(byte, 0x40),
            negative: digit(byte, 0x80),
        }
    }

    pub fn new() -> (flags: Self)
        ensures
            flags == Self::cleared(),
    {
        Self {
            carry: false,
            zero: false,
            interrupt: false,
            decimal: false,
            brk: false,
            ignored: false,
            overflow: false,
            negative: false,
        }
    }

    /// Packs the flags into the status byte.
    pub fn to_byte(&self) -> (byte: u8)
        ensures
            byte == self.packed(),
    {
        let mut byte: u8 = 0x00;
        if self.carry {
            proof {
                lemma_set_bit(byte, 0x01);
            }
            byte |= 0x01;
        }
        if self.zero {
            proof {
                lemma_set_bit(byte, 0x02);
            }
            byte |= 0x02;
        }
        if self.interrupt {
            proof {
                lemma_set_bit(byte, 0x04);
            }
            byte |= 0x04;
        }
        if self.decimal {
            proof {
                lemma_set_bit(byte, 0x08);
            }
            byte |= 0x08;
        }
        if self.brk {
            proof {
                lemma_set_bit(byte, 0x10);
            }
            byte |= 0x10;
        }
        if self.ignored {
            proof {
                lemma_set_bit(byte, 0x20);
            }
            byte |= 0x20;
        }
        if self.overflow {
            proof {
                lemma_set_bit(byte, 0x40);
            }
            byte |= 0x40;
        }
        if self.negative {
            proof {
                lemma_set_bit(byte, 0x80);
            }
            byte |= 0x80;
        }
        byte
    }

    /// Unpacks a status byte. The receiver's own flags play no part.
    pub fn from_byte(&self, byte: u8) -> (flags: Self)
        ensures
            flags == Self::unpacked(byte),
    {
        proof {
            reveal(digit);
            lemma_test_bit(byte);
        }
        Self {
            carry: byte & 0x01 != 0,
            zero: byte & 0x02 != 0,
            interrupt: byte & 0x04 != 0,
            decimal: byte & 0x08 != 0,
            brk: byte & 0x10 != 0,
            ignored: byte & 0x20 != 0,
            overflow: byte & 0x40 != 0,
            negative: byte & 0x80 != 0,
        }
    }
}

impl Default for StatusFlags {
    fn default() -> (flags: Self)
        ensures
            flags == Self::cleared(),
    {
        Self::new()
    }
}

/// Unpacking the packed flags gives the flags back.
pub proof fn lemma_pack_unpack(flags: StatusFlags)
    ensures
        StatusFlags::unpacked(flags.packed() as u8) == flags,
{
    reveal(digit);
    let tail7 = weight(flags.negative, 1);
    let tail6 = weight(flags.overflow, 1) + 2 * tail7;
    let tail5 = weight(flags.ignored, 1) + 2 * tail6;
    let tail4 = weight(flags.brk, 1) + 2 * tail5;
    let tail3 = weight(flags.decimal, 1) + 2 * tail4;
    let tail2 = weight(flags.interrupt, 1) + 2 * tail3;
    let tail1 = weight(flags.zero, 1) + 2 * tail2;
    let tail0 = weight(flags.carry, 1) + 2 * tail1;
    assert(flags.packed() == tail0);
    assert(tail0 / 0x02 == tail1 && tail0 / 0x04 == tail2 && tail0 / 0x08 == tail3);
    assert(tail0 / 0x10 == tail4 && tail0 / 0x20 == tail5 && tail0 / 0x40 == tail6);
    assert(tail0 / 0x80 == tail7);
}

/// Packing the flags of a status byte gives the byte back.
pub proof fn lemma_unpack_pack(byte: u8)
    ensures
        StatusFlags::unpacked(byte).packed() == byte,
{
    reveal(digit);
    let b = byte as int;
    assert(b == 0x02 * (b / 0x02) + weight(digit(byte, 0x01), 0x01));
    assert(b / 0x02 == 2 * (b / 0x04) + weight(digit(byte, 0x02), 1));
    assert(b / 0x04 == 2 * (b / 0x08) + weight(digit(byte, 0x04), 1));
    assert(b / 0x08 == 2 * (b / 0x10) + weight(digit(byte, 0x08), 1));
    assert(b / 0x10 == 2 * (b / 0x20) + weight(digit(byte, 0x10), 1));
    assert(b / 0x20 == 2 * (b / 0x40) + weight(digit(byte, 0x20), 1));
    assert(b / 0x40 == 2 * (b / 0x80) + weight(digit(byte, 0x40), 1));
    assert(b / 0x80 == weight(digit(byte, 0x80), 1));
}

} // verus!
