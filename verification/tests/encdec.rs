use bqsp::wide::{BoxPack, Header};
use bqsp::Data;

#[test]
fn box_encoding() {
    let payload: &[u8; 4] = b"BQSP";
    let data = Data::from(&payload[..]);

    assert_eq!(data.as_ref(), &payload[..]);

    let box_pack = BoxPack::new(data, 1u16, 5);

    assert_eq!(box_pack.header.get_data_size(), 4);
    assert_eq!(box_pack.header.get_data_type(), 1);
    assert_eq!(box_pack.header.get_data_queue(), 5);
}

#[test]
fn header_decoding() {
    let header_sample: [u8; 11] = [4, 0, 0, 0, 0, 0, 0, 0, 1, 0, 5];
    let header = Header::from_array(header_sample);

    assert_eq!(header.get_data_size(), 4);
    assert_eq!(header.get_data_type(), 1);
    assert_eq!(header.get_data_queue(), 5);
}
