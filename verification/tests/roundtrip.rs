use bqsp::deserializer::BoxDeserializer;
use bqsp::serializer::BoxSerializer;
use bqsp::{box_to_owned, data_to_owned, BoxDes, BoxPack, Data};

#[test]
fn pack_from_payload() {
    let box_pack = BoxPack::new(Data::from(&b"BQSP"[..]), 1u16, 5);

    assert_eq!(box_pack.header.get_data_size(), 4);
    assert_eq!(box_pack.header.get_data_type(), 1);
    assert_eq!(box_pack.header.get_data_queue(), 5);
}

#[test]
fn packet_wire_bytes() {
    let box_pack = BoxPack::new(Data::from(&b"BQSP"[..]), 1u16, 5);

    let packet = box_pack.make_packet();

    assert_eq!(packet, vec![4, 0, 0, 0, 1, 0, 5, 0x42, 0x51, 0x53, 0x50]);
}

#[test]
fn write_sync_emits_packet_bytes() {
    let box_pack = BoxPack::new(Data::from(&b"BQSP"[..]), 1u16, 5);

    let mut sink: Vec<u8> = Vec::new();
    box_pack.write_sync(&mut sink).unwrap();

    assert_eq!(sink, box_pack.make_packet());
    assert_eq!(sink, vec![4, 0, 0, 0, 1, 0, 5, 0x42, 0x51, 0x53, 0x50]);
}

#[test]
fn data_to_owned_keeps_content() {
    let source = b"payload kept byte for byte".to_vec();
    let borrowed = Data::from(&source);

    let owned = data_to_owned(borrowed);

    assert_eq!(owned.as_ref(), source.as_slice());
}

#[test]
fn box_to_owned_keeps_header_and_content() {
    let source = b"deferred".to_vec();
    let box_pack = BoxPack::new(Data::from(&source), 7u16, 3);
    let header = box_pack.header;

    let owned = box_to_owned(box_pack);

    assert_eq!(owned.header, header);
    assert_eq!(owned.data.as_ref(), source.as_slice());
}

#[test]
fn raw_bytes_round_trip_owned() {
    let payload = b"an arbitrary-length raw payload \x00\x01\x02".to_vec();

    let box_pack = payload.clone().serialize_owned_box(0u16, 9).unwrap();
    let box_des = BoxDes::<Vec<u8>>::try_from(box_pack).unwrap();

    assert_eq!(box_des.data, payload);
    assert_eq!(box_des.header.get_data_size(), payload.len() as u32);
    assert_eq!(box_des.header.get_data_queue(), 9);
}

#[test]
fn raw_bytes_round_trip_empty() {
    let payload: Vec<u8> = Vec::new();

    let box_pack = payload.clone().serialize_owned_box(2u16, 0).unwrap();
    let box_des = BoxDes::<Vec<u8>>::try_from(box_pack).unwrap();

    assert_eq!(box_des.data, payload);
    assert_eq!(box_des.header.get_data_size(), 0);
}

#[test]
fn raw_bytes_round_trip_borrowing() {
    let payload = b"borrowed then parsed".to_vec();

    let box_pack = payload.serialize_box(0u16, 1).unwrap();
    let box_des = BoxDes::<Vec<u8>>::try_from(box_pack).unwrap();

    assert_eq!(box_des.data, payload);
}

#[test]
fn deserialize_to_raw_bytes_never_fails() {
    let box_pack = BoxPack::new(Data::from(&b"\xFF\x00opaque"[..]), u16::MAX, u8::MAX);

    let box_des: BoxDes<Vec<u8>> = BoxDes::try_from(box_pack).unwrap();

    assert_eq!(box_des.data, b"\xFF\x00opaque".to_vec());
    assert_eq!(box_des.header.get_data_type(), u16::MAX);
}
