use bqsp::{BoxPack, Data, Header};

#[test]
fn byte_repr() {
    let buffer = [0x00_u8; 16];
    let box_pack = BoxPack::new(Data::from(buffer.as_slice()), 1u16, 1);

    let header_array: [u8; Header::SIZE] = box_pack.header.into_array();
    let header_array_expected: [u8; Header::SIZE] = [16, 0, 0, 0, 1, 0, 1];
    assert_eq!(header_array, header_array_expected, "Header encoding mismatch!",);

    let header_decoded = Header::from_array(header_array_expected);
    assert_eq!(box_pack.header, header_decoded, "Header decoding mismatch!",);
}

#[test]
fn header_wire_bytes() {
    let header = Header { data_size: 4, data_type: 1, queue: 5 };

    assert_eq!(header.into_array(), [4, 0, 0, 0, 1, 0, 5]);
}

#[test]
fn header_round_trip() {
    let header = Header { data_size: 0xDEADBEEF, data_type: 0xBEAD, queue: 0x7F };

    assert_eq!(Header::from_array(header.into_array()), header);
}

#[test]
fn header_bytes_round_trip() {
    let bytes: [u8; Header::SIZE] = [0xFF, 1, 2, 3, 4, 5, 6];

    assert_eq!(Header::from_array(bytes).into_array(), bytes);
}

#[test]
fn wide_header_round_trip() {
    let header =
        bqsp::wide::Header { data_size: 0xAABBCCDD_EEFF0011, data_type: 0xBEAD, queue: 0x7F };

    assert_eq!(bqsp::wide::Header::from_array(header.into_array()), header);
}

#[test]
fn wide_header_bytes_round_trip() {
    let bytes: [u8; bqsp::wide::Header::SIZE] = [0xFF, 1, 2, 3, 4, 5, 6, 7, 8, 9, 10];

    assert_eq!(bqsp::wide::Header::from_array(bytes).into_array(), bytes);
}
