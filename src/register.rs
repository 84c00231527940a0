//! A register pair of the DMG CPU: two bytes that can be written one at a
//! time (raw or as two BCD digits) or together as one 16-bit word.
use vstd::prelude::*;

verus! {

/// The byte that holds `d` (below one hundred) as two BCD digits: tens in the
/// high nibble, units in the low nibble.
pub open spec fn bcd_encode(d: int) -> int {
    (d / 10) * 16 + d % 10
}

/// The decimal number that byte `b` stands for when read as two BCD digits.
/// Nibbles above nine are not rejected: they simply weigh as their value.
pub open spec fn bcd_decode(b: int) -> int {
    (b / 16) * 10 + b % 16
}

/// The 16-bit word made of a high byte and a low byte.
pub open spec fn wide_of(bytes: (u8, u8)) -> int {
    bytes.0 * 256 + bytes.1
}

/// What a register-pair write reports back. Only the plain outcome is ever
/// produced today.
#[derive(Debug, Clone, Copy, PartialEq, Eq, Structural)]
pub enum BitResult {
    Standard,
    Overflow,
    Underflow,
}

/// A decimal value that does not fit in two BCD digits.
#[derive(Debug, Clone, Copy, PartialEq, Eq, Structural)]
pub struct EncodingError {
    /// The value that was asked to be encoded.
    pub value: u8,
}

/// An object that represents a "register pair" as found in the DMG unit.
pub struct RegPair {
    high_bits: u8,
    low_bits: u8,
}

impl View for RegPair {
    /// The high byte and the low byte, in that order.
    type V = (u8, u8);

    closed spec fn view(&self) -> (u8, u8) {
        (self.high_bits, self.low_bits)
    }
}

impl RegPair {
    pub fn new() -> (r: Self)
        ensures
            r@ == (0u8, 0u8),
    {
        RegPair { high_bits: 0, low_bits: 0 }
    }

    /// Set the "high" register to the BCD encoding of `val`.
    /// Fails, leaving the pair as it was, when `val` has more than two digits.
    pub fn set_high_bcd(&mut self, val: u8) -> (r: Result<u8, EncodingError>)
        ensures
            val <= 99 ==> (r matches Ok(b) && b == bcd_encode(val as int)
                && final(self)@ == (b, old(self)@.1)),
            val > 99 ==> r == Err::<u8, EncodingError>(EncodingError { value: val })
                && final(self)@ == old(self)@,
    {
        let bcd = RegPair::decimal_to_bcd(val)?;
        self.high_bits = bcd;
        Ok(bcd)
    }

    /// Set the "low" register to the BCD encoding of `val`.
    /// Fails, leaving the pair as it was, when `val` has more than two digits.
    pub fn set_low_bcd(&mut self, val: u8) -> (r: Result<u8, EncodingError>)
        ensures
            val <= 99 ==> (r matches Ok(b) && b == bcd_encode(val as int)
                && final(self)@ == (old(self)@.0, b)),
            val > 99 ==> r == Err::<u8, EncodingError>(EncodingError { value: val })
                && final(self)@ == old(self)@,
    {
        let bcd = RegPair::decimal_to_bcd(val)?;
        self.low_bits = bcd;
        Ok(bcd)
    }

    /// Store a raw byte in the "high" register, without any encoding.
    pub fn set_high_bin(&mut self, val: u8)
        ensures
            final(self)@ == (val, old(self)@.1),
    {
        self.high_bits = val;
    }

    /// Store a raw byte in the "low" register, without any encoding.
    pub fn set_low_bin(&mut self, val: u8)
        ensures
            final(self)@ == (old(self)@.0, val),
    {
        self.low_bits = val;
    }

    /// Set both registers at once from a 16-bit word, without BCD encoding:
    /// the high register takes the upper byte, the low register the lower one.
    pub fn set_wide(&mut self, val: u16) -> (r: BitResult)
        ensures
            final(self)@.0 == val / 256,
            final(self)@.1 == val % 256,
            wide_of(final(self)@) == val,
            r == BitResult::Standard,
    {
        let high = (val >> 8) as u8;
        let low = (val & 0xFF) as u8;
        assert(val >> 8 == val / 256 && val & 0xFF == val % 256) by (bit_vector);
        self.high_bits = high;
        self.low_bits = low;
        BitResult::Standard
    }

    /// The 16-bit word held across both registers, high byte first.
    pub fn get_wide(&self) -> (r: u16)
        ensures
            r == wide_of(self@),
    {
        (self.high_bits as u16) * 256 + (self.low_bits as u16)
    }

    /// The decimal number held across both registers when each is read as
    /// two BCD digits: the high register gives the hundreds.
    pub fn to_int(&self) -> (r: u16)
        ensures
            r == bcd_decode(self@.0 as int) * 100 + bcd_decode(self@.1 as int),
    {
        let hi_dec = RegPair::bcd_to_decimal(self.high_bits) as u16;
        let lo_dec = RegPair::bcd_to_decimal(self.low_bits) as u16;
        hi_dec * 100 + lo_dec
    }

    /// The raw byte stored in the low register.
    pub fn get_low(&self) -> (r: u8)
        ensures
            r == self@.1,
    {
        self.low_bits
    }

    /// The raw byte stored in the high register.
    pub fn get_high(&self) -> (r: u8)
        ensures
            r == self@.0,
    {
        self.high_bits
    }

    /// Read a byte as two BCD digits and give the decimal number they form.
    pub fn bcd_to_decimal(bcd: u8) -> (r: u8)
        ensures
            r == bcd_decode(bcd as int),
    {
        let dig1 = bcd >> 4;
        let dig2 = bcd & 0x0F;
        assert(bcd >> 4 == bcd / 16 && bcd & 0x0F == bcd % 16) by (bit_vector);
        dig1 * 10 + dig2
    }

    /// Encode a decimal number below one hundred as two BCD digits.
    /// Fails on a number with more than two digits.
    pub fn decimal_to_bcd(dec: u8) -> (r: Result<u8, EncodingError>)
        ensures
            dec <= 99 ==> (r matches Ok(b) && b == bcd_encode(dec as int)),
            dec > 99 ==> r == Err::<u8, EncodingError>(EncodingError { value: dec }),
    {
        if dec > 99 {
            return Err(EncodingError { value: dec });
        }
        let units = dec % 10;
        let tens = (dec / 10) % 10;
        assert(tens < 10 ==> tens << 4 == tens * 16) by (bit_vector);
        assert(units < 10 && tens < 10 ==> (tens << 4) | units == (tens << 4) + units)
            by (bit_vector);
        Ok((tens << 4) | units)
    }
}

/// Encoding a decimal number below one hundred as BCD and reading it back
/// gives the number itself.
pub proof fn lemma_bcd_round_trip(d: u8)
    requires
        d <= 99,
    ensures
        bcd_decode(bcd_encode(d as int)) == d,
{
    let b = bcd_encode(d as int);
    assert(b / 16 == d / 10 && b % 16 == d % 10);
}

/// After a register pair is written with a word, its high byte is the word
/// shifted right by eight and its low byte is the word's lowest eight bits.
pub proof fn lemma_wide_write_read(pair: RegPair, v: u16)
    requires
        pair@.0 == v / 256,
        pair@.1 == v % 256,
    ensures
        pair@.0 == v >> 8,
        pair@.1 == v & 0xFF,
        wide_of(pair@) == v,
{
    assert(v >> 8 == v / 256 && v & 0xFF == v % 256) by (bit_vector);
}

} // verus!
