//! The four-bit unit in which permissions are counted.

use vstd::prelude::*;

verus! {

/// A four-bit unsigned quantity. Each variant is named after its bits, the
/// most significant first.
#[derive(Clone, Copy, Debug, PartialEq, Eq, Structural)]
pub enum Nibble {
    B0000,
    B0001,
    B0010,
    B0011,
    B0100,
    B0101,
    B0110,
    B0111,
    B1000,
    B1001,
    B1010,
    B1011,
    B1100,
    B1101,
    B1110,
    B1111,
}

impl Nibble {
    /// The number between 0 and 15 that the nibble stands for.
    pub open spec fn value(self) -> u8 {
        match self {
            Nibble::B0000 => 0,
            Nibble::B0001 => 1,
            Nibble::B0010 => 2,
            Nibble::B0011 => 3,
            Nibble::B0100 => 4,
            Nibble::B0101 => 5,
            Nibble::B0110 => 6,
            Nibble::B0111 => 7,
            Nibble::B1000 => 8,
            Nibble::B1001 => 9,
            Nibble::B1010 => 10,
            Nibble::B1011 => 11,
            Nibble::B1100 => 12,
            Nibble::B1101 => 13,
            Nibble::B1110 => 14,
            Nibble::B1111 => 15,
        }
    }

    /// The nibble that stands for `value`, where `value` is at most 15.
    /// Larger numbers have no nibble of their own and are given the zero
    /// nibble here; `from_byte` never asks for one.
    pub open spec fn with_value(value: u8) -> Nibble {
        match value {
            1 => Nibble::B0001,
            2 => Nibble::B0010,
            3 => Nibble::B0011,
            4 => Nibble::B0100,
            5 => Nibble::B0101,
            6 => Nibble::B0110,
            7 => Nibble::B0111,
            8 => Nibble::B1000,
            9 => Nibble::B1001,
            10 => Nibble::B1010,
            11 => Nibble::B1011,
            12 => Nibble::B1100,
            13 => Nibble::B1101,
            14 => Nibble::B1110,
            15 => Nibble::B1111,
            _ => Nibble::B0000,
        }
    }

    /// The nibble made of the low four bits of `byte`.
    pub open spec fn from_byte(byte: u8) -> Nibble {
        Nibble::with_value(byte & 0x0F)
    }

    /// Bitwise OR of two nibbles.
    pub open spec fn or(self, rhs: Nibble) -> Nibble {
        Nibble::from_byte(self.value() | rhs.value())
    }

    /// The nibble as an integer between 0 and 15.
    pub fn to_u4(self: &Nibble) -> (value: u8)
        ensures
            value == self.value(),
            value <= 0x0F,
    {
        let value: u8 = self.into();
        assert(value & 0x0F == value) by (bit_vector)
            requires
                value <= 15,
        ;
        value & 0x0F
    }
}

impl std::convert::From<&Nibble> for u8 {
    fn from(nibble: &Nibble) -> (value: u8)
        ensures
            value == nibble.value(),
    {
        match nibble {
            Nibble::B0000 => 0b0000,
            Nibble::B0001 => 0b0001,
            Nibble::B0010 => 0b0010,
            Nibble::B0011 => 0b0011,
            Nibble::B0100 => 0b0100,
            Nibble::B0101 => 0b0101,
            Nibble::B0110 => 0b0110,
            Nibble::B0111 => 0b0111,
            Nibble::B1000 => 0b1000,
            Nibble::B1001 => 0b1001,
            Nibble::B1010 => 0b1010,
            Nibble::B1011 => 0b1011,
            Nibble::B1100 => 0b1100,
            Nibble::B1101 => 0b1101,
            Nibble::B1110 => 0b1110,
            Nibble::B1111 => 0b1111,
        }
    }
}

impl vstd::std_specs::convert::FromSpecImpl<&Nibble> for u8 {
    open spec fn obeys_from_spec() -> bool {
        true
    }

    open spec fn from_spec(nibble: &Nibble) -> u8 {
        nibble.value()
    }
}

impl std::default::Default for Nibble {
    /// The zero nibble: no bit set.
    fn default() -> (nibble: Nibble)
        ensures
            nibble == Nibble::B0000,
    {
        Nibble::B0000
    }
}

impl std::convert::From<u8> for Nibble {
    /// Keeps the low four bits of `value`: a byte above 15 is folded into
    /// range, never refused.
    fn from(value: u8) -> (nibble: Nibble)
        ensures
            nibble == Nibble::from_byte(value),
            nibble.value() == value & 0x0F,
        decreases value,
    {
        if value > 0x0Fu8 {
            assert(value & 0x0F < value && (value & 0x0F) & 0x0F == value & 0x0F) by (bit_vector)
                requires
                    value > 0x0F,
            ;
            return Self::from(value & 0x0Fu8);
        }
        assert(value & 0x0F == value) by (bit_vector)
            requires
                value <= 0x0F,
        ;
        match value {
            0b0000 => Nibble::B0000,
            0b0001 => Nibble::B0001,
            0b0010 => Nibble::B0010,
            0b0011 => Nibble::B0011,
            0b0100 => Nibble::B0100,
            0b0101 => Nibble::B0101,
            0b0110 => Nibble::B0110,
            0b0111 => Nibble::B0111,
            0b1000 => Nibble::B1000,
            0b1001 => Nibble::B1001,
            0b1010 => Nibble::B1010,
            0b1011 => Nibble::B1011,
            0b1100 => Nibble::B1100,
            0b1101 => Nibble::B1101,
            0b1110 => Nibble::B1110,
            0b1111 => Nibble::B1111,
            _ => Nibble::default(),
        }
    }
}

impl vstd::std_specs::convert::FromSpecImpl<u8> for Nibble {
    open spec fn obeys_from_spec() -> bool {
        true
    }

    open spec fn from_spec(value: u8) -> Nibble {
        Nibble::from_byte(value)
    }
}

impl std::ops::BitOr for Nibble {
    type Output = Self;

    /// Bitwise OR of the two four-bit values.
    fn bitor(self, rhs: Self) -> (result: Self)
        ensures
            result == self.or(rhs),
            result.value() == self.value() | rhs.value(),
    {
        let lhs_ref = &self;
        let rhs_ref = &rhs;
        let lhsu8: u8 = lhs_ref.into();
        let rhsu8: u8 = rhs_ref.into();
        let mut result: u8 = lhsu8 | rhsu8;
        assert((lhsu8 | rhsu8) & 0x0F == lhsu8 | rhsu8) by (bit_vector)
            requires
                lhsu8 <= 15,
                rhsu8 <= 15,
        ;
        result = result & 0x0F;
        let element: Nibble = result.into();
        element
    }
}

impl vstd::std_specs::ops::BitOrSpecImpl for Nibble {
    open spec fn obeys_bitor_spec() -> bool {
        true
    }

    open spec fn bitor_req(self, rhs: Nibble) -> bool {
        true
    }

    open spec fn bitor_spec(self, rhs: Nibble) -> Nibble {
        self.or(rhs)
    }
}

/// The value of the nibble of a byte is the low four bits of the byte.
pub proof fn lemma_from_byte_value(byte: u8)
    ensures
        Nibble::from_byte(byte).value() == byte & 0x0F,
{
    let low = byte & 0x0F;
    assert(low <= 15) by (bit_vector)
        requires
            low == byte & 0x0F,
    ;
}

/// A nibble is the nibble of its own value: `value` undoes `from_byte`.
pub proof fn lemma_value_round_trip(nibble: Nibble)
    ensures
        nibble.value() <= 15,
        Nibble::with_value(nibble.value()) == nibble,
        Nibble::from_byte(nibble.value()) == nibble,
{
    let value = nibble.value();
    assert(value & 0x0F == value) by (bit_vector)
        requires
            value <= 15,
    ;
}

/// The value of the OR of two nibbles is the OR of their values, which
/// already fits in four bits.
pub proof fn lemma_or_value(a: Nibble, b: Nibble)
    ensures
        a.or(b).value() == a.value() | b.value(),
        a.or(b).value() == (a.value() | b.value()) & 0x0F,
{
    let x = a.value();
    let y = b.value();
    assert((x | y) & 0x0F == x | y) by (bit_vector)
        requires
            x <= 15,
            y <= 15,
    ;
    lemma_from_byte_value(x | y);
}

/// OR does not depend on the order of its operands, and its value is the OR
/// of the two values, cut to four bits.
pub proof fn lemma_or_commutative(a: Nibble, b: Nibble)
    ensures
        a.or(b) == b.or(a),
        a.or(b).value() == (a.value() | b.value()) & 0x0F,
{
    let x = a.value();
    let y = b.value();
    assert(x | y == y | x) by (bit_vector);
    lemma_or_value(a, b);
}

/// OR does not depend on how three operands are grouped.
pub proof fn lemma_or_associative(a: Nibble, b: Nibble, c: Nibble)
    ensures
        a.or(b).or(c) == a.or(b.or(c)),
{
    let x = a.value();
    let y = b.value();
    let z = c.value();
    lemma_or_value(a, b);
    lemma_or_value(b, c);
    assert((x | y) | z == x | (y | z)) by (bit_vector);
}

/// The OR of a nibble with itself is the nibble.
pub proof fn lemma_or_idempotent(a: Nibble)
    ensures
        a.or(a) == a,
{
    let x = a.value();
    assert(x | x == x) by (bit_vector);
    lemma_value_round_trip(a);
}

/// The zero nibble changes nothing under OR.
pub proof fn lemma_or_identity(a: Nibble)
    ensures
        a.or(Nibble::B0000) == a,
        Nibble::B0000.or(a) == a,
{
    let x = a.value();
    assert(x | 0u8 == x && 0u8 | x == x) by (bit_vector);
    lemma_value_round_trip(a);
}

} // verus!
