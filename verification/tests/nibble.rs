use posix_fs::file_system::nibble::Nibble;

const ALL: [Nibble; 16] = [
    Nibble::B0000,
    Nibble::B0001,
    Nibble::B0010,
    Nibble::B0011,
    Nibble::B0100,
    Nibble::B0101,
    Nibble::B0110,
    Nibble::B0111,
    Nibble::B1000,
    Nibble::B1001,
    Nibble::B1010,
    Nibble::B1011,
    Nibble::B1100,
    Nibble::B1101,
    Nibble::B1110,
    Nibble::B1111,
];

#[test]
fn variants_count_from_zero_to_fifteen() {
    for (i, nibble) in ALL.iter().enumerate() {
        assert_eq!(nibble.to_u4() as usize, i);
        assert_eq!(u8::from(nibble) as usize, i);
    }
}

#[test]
fn from_byte_keeps_the_low_four_bits() {
    for b in 0u8..=255 {
        assert_eq!(Nibble::from(b).to_u4(), b & 0x0F);
    }
}

#[test]
fn from_byte_folds_large_bytes_into_range() {
    assert_eq!(Nibble::from(0x10), Nibble::B0000);
    assert_eq!(Nibble::from(0x35), Nibble::B0101);
    assert_eq!(Nibble::from(0xFF), Nibble::B1111);
    assert_eq!(Nibble::from(0xF0), Nibble::B0000);
}

#[test]
fn from_byte_undoes_to_u4() {
    for nibble in ALL {
        assert_eq!(Nibble::from(nibble.to_u4()), nibble);
    }
}

#[test]
fn or_is_commutative_and_ors_the_values() {
    for a in ALL {
        for b in ALL {
            assert_eq!(a | b, b | a);
            assert_eq!((a | b).to_u4(), (a.to_u4() | b.to_u4()) & 0x0F);
        }
    }
}

#[test]
fn or_is_associative() {
    for a in ALL {
        for b in ALL {
            for c in ALL {
                assert_eq!((a | b) | c, a | (b | c));
            }
        }
    }
}

#[test]
fn or_is_idempotent_with_zero_as_identity() {
    for a in ALL {
        assert_eq!(a | a, a);
        assert_eq!(a | Nibble::B0000, a);
        assert_eq!(Nibble::B0000 | a, a);
    }
}

#[test]
fn or_of_chosen_nibbles() {
    assert_eq!(Nibble::B0001 | Nibble::B0010, Nibble::B0011);
    assert_eq!(Nibble::B0101 | Nibble::B1010, Nibble::B1111);
    assert_eq!(Nibble::B1100 | Nibble::B0100, Nibble::B1100);
}

#[test]
fn default_is_the_zero_nibble() {
    assert_eq!(Nibble::default(), Nibble::B0000);
    assert_eq!(Nibble::default().to_u4(), 0);
}
