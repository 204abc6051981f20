use iab_gpp::encoding::base64::{base64_value, copy_bits, decode, Base64Reader, DecodeError, DecodeExt};
use iab_gpp::encoding::fibonacci::fibonacci_iterator;
use iab_gpp::encoding::{base64_bit_reader, DataReader, ReadError};
use std::collections::BTreeSet;

/// Turns a string of '0' and '1' (other characters are ignored) into bytes,
/// the last byte completed with zero bits.
fn b(s: &str) -> Vec<u8> {
    let chars = s
        .chars()
        .filter(|&c| c == '1' || c == '0')
        .collect::<Vec<_>>();
    chars
        .chunks(8)
        .map(|c| (8 - c.len(), String::from_iter(c)))
        .map(|(l, s)| u8::from_str_radix(&s, 2).map(|n| n << l))
        .collect::<Result<Vec<_>, _>>()
        .unwrap_or(vec![])
}

#[test]
fn bytes() {
    assert_eq!(b("00000001 00000010 00000011"), vec![1, 2, 3]);
    assert_eq!(b("000000 010000 001000 000011"), vec![1, 2, 3]);
    assert_eq!(b("000000 010000 001000 000011 1000"), vec![1, 2, 3, 128]);
    assert_eq!(b("000000 010000 001000 000011 100"), vec![1, 2, 3, 128]);
}

#[test]
fn read_int() {
    let test_cases = [(b("000101"), 6, 5), (b("101010"), 6, 42)];

    for (buf, bits, expected_value) in test_cases {
        let mut reader = DataReader::new(&buf);

        assert_eq!(reader.read_fixed_integer(bits).unwrap(), expected_value);
    }
}

#[test]
fn read_int_too_wide_or_past_end() {
    let buf = b("101010");
    let mut reader = DataReader::new(&buf);
    assert_eq!(reader.read_fixed_integer(65), Err(ReadError::InvalidInput));
    assert_eq!(reader.read_fixed_integer(8), Ok(0b1010_1000));
    assert_eq!(reader.read_bool(), Err(ReadError::UnexpectedEof));
    let mut reader = DataReader::new(&buf);
    assert_eq!(reader.read_fixed_integer(9), Err(ReadError::UnexpectedEof));
}

#[test]
fn read_fibonacci() {
    let test_cases = [
        (b("11"), 1),
        (b("011"), 2),
        (b("0011"), 3),
        (b("1011"), 4),
        (b("00011"), 5),
        (b("10011"), 6),
        (b("01011"), 7),
        (b("0100000000001011"), 2), // overflow for u8, we ignore bits we can't encode
    ];

    for (buf, expected_value) in test_cases {
        let mut reader = DataReader::new(&buf);

        assert_eq!(reader.read_fibonacci_integer::<u8>().unwrap(), expected_value);
    }
}

#[test]
fn read_fibonacci_without_end_marker() {
    let buf = b("01010101");
    let mut reader = DataReader::new(&buf);
    assert_eq!(reader.read_fibonacci_integer::<u16>(), Err(ReadError::UnexpectedEof));
}

#[test]
fn read_string() {
    let test_cases = [(b("101010"), 1, "k"), (b("101010 101011"), 2, "kl")];

    for (buf, chars, expected_value) in test_cases {
        let mut reader = DataReader::new(&buf);

        assert_eq!(reader.read_string(chars).unwrap(), expected_value);
    }
}

#[test]
fn read_datetime_as_unix_timestamp() {
    let test_cases = [(b("001111101100100110001110010001011101"), 1685434479)];

    for (buf, expected_value) in test_cases {
        let mut reader = DataReader::new(&buf);

        assert_eq!(reader.read_datetime_as_unix_timestamp().unwrap(), expected_value);
    }
}

#[test]
fn read_fixed_bitfield() {
    let test_cases = [(b("10101"), 5, BTreeSet::from_iter([1, 3, 5]))];

    for (buf, bits, expected_value) in test_cases {
        let mut reader = DataReader::new(&buf);

        assert_eq!(reader.read_fixed_bitfield(bits).unwrap(), expected_value);
    }
}

#[test]
fn read_variable_bitfield() {
    let test_cases = [(b("0000000000000101 10101"), BTreeSet::from_iter([1, 3, 5]))];

    for (buf, expected_value) in test_cases {
        let mut reader = DataReader::new(&buf);

        assert_eq!(reader.read_variable_bitfield().unwrap(), expected_value);
    }
}

#[test]
fn read_integer_range() {
    let test_cases = [(
        b("000000000010 0 0000000000000011 1 0000000000000101 0000000000001000"),
        vec![3, 5, 6, 7, 8],
    )];

    for (buf, expected_value) in test_cases {
        let mut reader = DataReader::new(&buf);

        assert_eq!(reader.read_integer_range().unwrap(), expected_value);
    }
}

#[test]
fn read_fibonacci_range() {
    let test_cases = [
        (b("000000000010 0 0011 1 011 0011"), vec![3, 5, 6, 7, 8]),
        (b("000000000010 0 011 0 1011"), vec![2, 6]),
    ];

    for (buf, expected_value) in test_cases {
        let mut reader = DataReader::new(&buf);

        assert_eq!(reader.read_fibonacci_range::<u8>().unwrap(), expected_value);
    }
}

#[test]
fn read_optimized_range() {
    let test_cases = [
        (b("1 000000000010 0 0011 1 011 0011"), BTreeSet::from_iter([3, 5, 6, 7, 8])),
        (b("0 0000000000000101 10101"), BTreeSet::from_iter([1, 3, 5])),
    ];

    for (buf, expected_value) in test_cases {
        let mut reader = DataReader::new(&buf);

        assert_eq!(reader.read_optimized_range().unwrap(), expected_value);
    }
}

#[test]
fn read_optimized_int_range() {
    let test_cases = [
        (
            b("0000000000000000 1 000000000010 0 0000000000000011 1 0000000000000101 0000000000001000"),
            BTreeSet::from_iter([3, 5, 6, 7, 8]),
        ),
        (b("0000000000000101 0 10101"), BTreeSet::from_iter([1, 3, 5])),
    ];

    for (buf, expected_value) in test_cases {
        let mut reader = DataReader::new(&buf);

        assert_eq!(reader.read_optimized_integer_range().unwrap(), expected_value);
    }
}

#[test]
fn read_array_of_ranges() {
    // one range: key 5, type 1, optimized integer range of 3 bits [1, 3]
    let buf = b("000000000001 000101 01 0000000000000011 0 101");
    let mut reader = DataReader::new(&buf);
    let ranges = reader.read_array_of_ranges().unwrap();
    assert_eq!(ranges.len(), 1);
    assert_eq!(ranges[0].key, 5);
    assert_eq!(ranges[0].range_type, 1);
    assert_eq!(ranges[0].ids, BTreeSet::from_iter([1, 3]));
}

#[test]
fn read_n_array_of_ranges() {
    // one range: key 3 (4 bits), type 2 (2 bits), optimized range as a variable bit field
    let buf = b("000000000001 0011 10 0 0000000000000010 01");
    let mut reader = DataReader::new(&buf);
    let ranges = reader.read_n_array_of_ranges(4, 2).unwrap();
    assert_eq!(ranges.len(), 1);
    assert_eq!(ranges[0].key, 3);
    assert_eq!(ranges[0].range_type, 2);
    assert_eq!(ranges[0].ids, BTreeSet::from_iter([2]));
}

#[test]
fn sequence_is_correct() {
    let mut it = fibonacci_iterator::<u16>();
    let mut values = vec![];
    for _ in 0..16 {
        values.push(it.next().unwrap());
    }
    assert_eq!(
        values,
        vec![1, 2, 3, 5, 8, 13, 21, 34, 55, 89, 144, 233, 377, 610, 987, 1597]
    );
}

#[test]
fn u8_overflow() {
    let mut it = fibonacci_iterator::<u8>();
    let mut values = vec![];
    while let Some(v) = it.next() {
        values.push(v);
    }
    assert_eq!(values, vec![1, 2, 3, 5, 8, 13, 21, 34, 55, 89, 144, 233]);
    assert_eq!(it.next(), None);
}

#[test]
fn base64_value_map() {
    let cases = [
        (b'A', Some(0)),
        (b'Z', Some(25)),
        (b'a', Some(26)),
        (b'z', Some(51)),
        (b'0', Some(52)),
        (b'9', Some(61)),
        (b'-', Some(62)),
        (b'_', Some(63)),
        (b'=', None),
        (b'#', None),
    ];
    for (c, expected) in cases {
        assert_eq!(base64_value(c), expected);
    }
}

#[test]
fn test_base64_reader() {
    let cases: [(&str, Vec<u8>); 2] = [("DBABM", vec![12, 16, 1, 48]), ("", vec![])];
    for (s, expected) in cases {
        let mut r = Base64Reader::new(s.as_bytes());
        let mut buf = vec![0; 32];
        let n = r.read(&mut buf).unwrap();
        buf.truncate(n);
        assert_eq!(buf, expected);
    }
}

#[test]
fn test_base64_reader_error() {
    let mut r = Base64Reader::new("===".as_bytes());
    let mut buf = vec![0; 32];
    assert!(matches!(r.read(&mut buf), Err(DecodeError::InvalidByte(0, b'='))));

    let mut r = Base64Reader::new("a  ".as_bytes());
    let mut buf = vec![0; 32];
    assert!(matches!(r.read(&mut buf), Err(DecodeError::InvalidByte(1, b' '))));
}

#[test]
fn copy_bits_into_output() {
    // the six bits of 0b101101 copied from offset 0 at output bit 2
    let mut out = 0u8;
    assert_eq!(copy_bits(0b101101, 0, &mut out, 2), 6);
    assert_eq!(out, 0b0010_1101);
    // only two bits fit from output bit 6
    let mut out = 0u8;
    assert_eq!(copy_bits(0b110000, 0, &mut out, 6), 2);
    assert_eq!(out, 0b0000_0011);
    // from input offset 4, the last two bits
    let mut out = 0u8;
    assert_eq!(copy_bits(0b000011, 4, &mut out, 0), 2);
    assert_eq!(out, 0b1100_0000);
    // from input offset 6 nothing is left to copy
    let mut out = 0b1000_0001u8;
    assert_eq!(copy_bits(0b111111, 6, &mut out, 3), 0);
    assert_eq!(out, 0b1000_0001);
}

#[test]
fn bit_reader_over_base64() {
    let mut r = base64_bit_reader("DBABM".as_bytes());
    assert_eq!(r.read_fixed_integer(6), Ok(3));
    assert_eq!(r.read_fixed_integer(6), Ok(1));
    assert_eq!(r.read_fibonacci_range::<u8>(), Ok(vec![2]));

    // an invalid character ends the data with that character's error
    let mut r = base64_bit_reader("AAAA=".as_bytes());
    assert_eq!(r.read_fixed_integer(24), Ok(0));
    assert_eq!(
        r.read_bool(),
        Err(ReadError::InvalidData(DecodeError::InvalidByte(4, b'=')))
    );

    // a byte that the text fills only in part is completed with zero bits
    let mut r = base64_bit_reader("_".as_bytes());
    assert_eq!(r.read_fixed_integer(8), Ok(0b1111_1100));
    assert_eq!(r.read_bool(), Err(ReadError::UnexpectedEof));
}

#[test]
fn test_decode_base64() {
    assert_eq!(decode("DBABM").unwrap(), vec![12, 16, 1, 48]);
    assert!(decode("").unwrap().is_empty());
    assert!(matches!(decode("==="), Err(DecodeError::InvalidByte(0, b'='))));
    assert!(matches!(decode("   "), Err(DecodeError::InvalidByte(0, b' '))));
}

#[test]
fn decode_ext() {
    assert_eq!("DBABM".decode_base64_url().unwrap(), vec![12, 16, 1, 48]);
    assert!(matches!("AB=".decode_base64_url(), Err(DecodeError::InvalidByte(2, b'='))));
}

#[test]
fn base64_reader_in_several_reads() {
    let mut r = Base64Reader::new("DBABM".as_bytes());
    let mut out = vec![0u8; 2];
    assert!(matches!(r.read(&mut out), Ok(2)));
    let mut rest = vec![0u8; 32];
    let n = r.read(&mut rest).unwrap();
    rest.truncate(n);
    out.extend(rest);
    assert_eq!(out, vec![12, 16, 1, 48]);
    let mut more = vec![0u8; 4];
    assert!(matches!(r.read(&mut more), Ok(0)));
}

#[test]
fn base64_reader_in_byte_reads() {
    let mut r = Base64Reader::new("DBABM".as_bytes());
    let mut out = vec![];
    loop {
        let mut one = [0u8; 1];
        match r.read(&mut one) {
            Ok(0) => break,
            Ok(n) => out.extend_from_slice(&one[..n]),
            Err(_) => panic!("valid text"),
        }
    }
    assert_eq!(out, vec![12, 16, 1, 48]);
}
