use znp_rs::znp_codec::{CodecError, Subsys, Type, ZnpCodec, ZpiCmd};

fn xor_all(b: &[u8]) -> u8 {
    b.iter().fold(0u8, |a, x| a ^ x)
}

#[test]
fn decodes_sync_response_example() {
    // XOR of 03 61 00 05 00 00 is 0x67: a trailer of 0x65 does not check.
    let given = [0xFE, 0x03, 0x61, 0x00, 0x05, 0x00, 0x00, 0x65];
    assert_eq!(ZnpCodec.decode(&given).err(), Some(CodecError::FcsMismatch));
    let bytes = [0xFE, 0x03, 0x61, 0x00, 0x05, 0x00, 0x00, 0x67];
    let mut codec = ZnpCodec;
    let (cmd, used) = codec.decode(&bytes).unwrap().unwrap();
    assert_eq!(used, 8);
    assert_eq!(cmd.typ(), Type::SRSP);
    assert_eq!(cmd.subsys(), Subsys::SYS);
    assert_eq!(cmd.cmd_id(), 0x00);
    assert_eq!(cmd.body, vec![0x05, 0x00, 0x00]);
}

#[test]
fn decode_leaves_following_bytes() {
    let bytes = [0xFE, 0x03, 0x61, 0x00, 0x05, 0x00, 0x00, 0x67, 0xFE, 0x00];
    let (_, used) = ZnpCodec.decode(&bytes).unwrap().unwrap();
    assert_eq!(used, 8);
}

#[test]
fn decode_waits_for_more_bytes() {
    assert_eq!(ZnpCodec.decode(&[0xFE, 0x03, 0x61]).unwrap().is_none(), true);
    assert_eq!(ZnpCodec.decode(&[0xFE, 0x03, 0x61, 0x00, 0x05, 0x00]).unwrap().is_none(), true);
    assert_eq!(ZnpCodec.decode(&[]).unwrap().is_none(), true);
}

#[test]
fn decode_rejects_bad_sof() {
    let r = ZnpCodec.decode(&[0xFD, 0x00, 0x61, 0x00, 0x61]);
    assert_eq!(r.err(), Some(CodecError::BadSof));
}

#[test]
fn decode_rejects_bad_checksum() {
    let r = ZnpCodec.decode(&[0xFE, 0x03, 0x61, 0x00, 0x05, 0x00, 0x00, 0x65]);
    assert_eq!(r.err(), Some(CodecError::FcsMismatch));
}

#[test]
fn decode_rejects_unknown_type_and_subsystem() {
    // cmd0 = 0x81: type nibble 0x80 is not a frame type
    let r = ZnpCodec.decode(&[0xFE, 0x00, 0x81, 0x00, 0x81]);
    assert_eq!(r.err(), Some(CodecError::UnknownType(0x80)));
    // cmd0 = 0x6A: subsystem 0x0A is unknown
    let r = ZnpCodec.decode(&[0xFE, 0x00, 0x6A, 0x00, 0x6A]);
    assert_eq!(r.err(), Some(CodecError::UnknownSubsys(0x0A)));
}

#[test]
fn encodes_frame_with_checksum() {
    let mut buf = vec![0xAA];
    let cmd = ZpiCmd::new(Type::SREQ, Subsys::SYS, 0x08, vec![0x00, 0x0F, 0x00]);
    ZnpCodec.encode(cmd, &mut buf).unwrap();
    assert_eq!(buf, vec![0xAA, 0xFE, 0x03, 0x21, 0x08, 0x00, 0x0F, 0x00, 0x25]);
    assert_eq!(xor_all(&buf[2..]), 0);
}

#[test]
fn encode_then_decode_round_trips() {
    let body: Vec<u8> = (0..250u32).map(|i| (i * 7) as u8).collect();
    let mut buf = Vec::new();
    ZnpCodec.encode(ZpiCmd::new(Type::AREQ, Subsys::APP, 0xC4, body.clone()), &mut buf).unwrap();
    assert_eq!(buf.len(), 255);
    assert_eq!(xor_all(&buf[1..]), 0);
    let (cmd, used) = ZnpCodec.decode(&buf).unwrap().unwrap();
    assert_eq!(used, 255);
    assert_eq!(cmd.typ(), Type::AREQ);
    assert_eq!(cmd.subsys(), Subsys::APP);
    assert_eq!(cmd.cmd_id(), 0xC4);
    assert_eq!(cmd.body, body);
}

#[test]
fn corrupting_a_payload_byte_is_a_checksum_error() {
    let mut buf = Vec::new();
    ZnpCodec.encode(ZpiCmd::new(Type::SRSP, Subsys::ZDO, 0x05, vec![1, 2, 3, 4]), &mut buf).unwrap();
    for i in 4..8 {
        let mut bad = buf.clone();
        bad[i] ^= 0x10;
        assert_eq!(ZnpCodec.decode(&bad).err(), Some(CodecError::FcsMismatch));
    }
}

#[test]
fn encode_refuses_long_payload() {
    let mut buf = vec![1, 2];
    let r = ZnpCodec.encode(ZpiCmd::new(Type::SREQ, Subsys::SYS, 0, vec![0; 251]), &mut buf);
    assert_eq!(r, Err(CodecError::TooLong(251)));
    assert_eq!(buf, vec![1, 2]);
}

#[test]
fn type_and_subsystem_codes() {
    assert_eq!(Type::SRSP.code(), 0x60);
    assert_eq!(Type::from_u8(0x40), Some(Type::AREQ));
    assert_eq!(Type::from_u8(0x10), None);
    assert_eq!(Subsys::APP.code(), 0x09);
    assert_eq!(Subsys::from_u8(0x05), Some(Subsys::ZDO));
    assert_eq!(Subsys::from_u8(0x0B), None);
}
