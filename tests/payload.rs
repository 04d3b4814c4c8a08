use znp_rs::cmd::af::{IncomingMsg, Register};
use znp_rs::cmd::sys::{NvRead, Reset, ResetReason, ResetReq, ResetType, StartTimer};
use znp_rs::cmd::types::{IEEEAddr, ShortAddr};
use znp_rs::cmd::zb::{ConfigId, ReadConfigRsp, ZbDeviceInfoProp, ZbGetDeviceInfoRsp};
use znp_rs::cmd::zdo::{Leaving, SimpleDescRsp, SourceRoute, StartupFromAppRsp, StartupFromAppStatus};
use znp_rs::areq::AreqOut;
use znp_rs::serde_znp::{deserialize, serialize, DecodeError};
use znp_rs::sreq::Sreq;
use znp_rs::znp_codec::{Subsys, Type, ZnpCodec};

#[test]
fn fixed_fields_are_little_endian() {
    let v = StartTimer { timer_id: 2, timeout: 0x1234 };
    assert_eq!(serialize(&v), vec![0x02, 0x34, 0x12]);
    let back: StartTimer = deserialize(&[0x02, 0x34, 0x12]).unwrap();
    assert_eq!(back.timer_id, 2);
    assert_eq!(back.timeout, 0x1234);
}

#[test]
fn counted_list_then_trailing_list() {
    let v = Register {
        ep: 11,
        app_prof: 0x0104,
        dev_type: 0x0400,
        dev_ver: 0,
        latency_req: 0,
        in_clusters: vec![0x0000, 0x0501],
        out_clusters: vec![0x0500, 0x0003],
    };
    let bytes = serialize(&v);
    assert_eq!(
        bytes,
        vec![11, 0x04, 0x01, 0x00, 0x04, 0, 0, 2, 0x00, 0x00, 0x01, 0x05, 0x00, 0x05, 0x03, 0x00]
    );
    let back: Register = deserialize(&bytes).unwrap();
    assert_eq!(back.in_clusters, vec![0x0000, 0x0501]);
    assert_eq!(back.out_clusters, vec![0x0500, 0x0003]);
    assert_eq!(back.app_prof, 0x0104);
}

#[test]
fn incoming_message_round_trips() {
    let v = IncomingMsg {
        group: 0,
        cluster: 0x0402,
        addr: ShortAddr(0x1A62),
        src_ep: 1,
        dest_ep: 1,
        was_broadcast: false,
        link_quality: 0x55,
        security_used: true,
        timestamp: 0x01020304,
        tr_seq: 9,
        data: vec![0x18, 0x01, 0x0A, 0x00, 0x00, 0x29, 0x34, 0x08],
    };
    let bytes = serialize(&v);
    assert_eq!(bytes.len(), 16 + 8);
    assert_eq!(&bytes[11..15], &[0x04, 0x03, 0x02, 0x01]);
    let back: IncomingMsg = deserialize(&bytes).unwrap();
    assert_eq!(back.addr, ShortAddr(0x1A62));
    assert_eq!(back.timestamp, 0x01020304);
    assert_eq!(back.security_used, true);
    assert_eq!(back.data, v.data);
}

#[test]
fn other_types_round_trip() {
    let v = Leaving {
        addr: ShortAddr(0xBEEF),
        ieee_addr: IEEEAddr(0x0011223344556677),
        request: true,
        children: false,
        rejoin: true,
    };
    let back: Leaving = deserialize(&serialize(&v)).unwrap();
    assert_eq!((back.addr, back.ieee_addr, back.request, back.children, back.rejoin), (v.addr, v.ieee_addr, true, false, true));

    let v = SourceRoute { dst_addr: ShortAddr(1), relay_list: vec![ShortAddr(2), ShortAddr(3)] };
    assert_eq!(serialize(&v), vec![1, 0, 2, 0, 3, 0]);
    let back: SourceRoute = deserialize(&serialize(&v)).unwrap();
    assert_eq!(back.relay_list, vec![ShortAddr(2), ShortAddr(3)]);

    let v = ZbGetDeviceInfoRsp { param: ZbDeviceInfoProp::IeeeAddr, value: [1, 2, 3, 4, 5, 6, 7, 8] };
    assert_eq!(serialize(&v), vec![1, 1, 2, 3, 4, 5, 6, 7, 8]);
    let back: ZbGetDeviceInfoRsp = deserialize(&serialize(&v)).unwrap();
    assert_eq!(back.param, ZbDeviceInfoProp::IeeeAddr);
    assert_eq!(back.value, [1, 2, 3, 4, 5, 6, 7, 8]);

    let v = SimpleDescRsp {
        src_addr: ShortAddr(0),
        status: 0,
        query_addr: ShortAddr(0),
        len: 10,
        endpoint: znp_rs::cmd::types::Endpoint(1),
        profile_id: 0x0104,
        device_id: 5,
        device_version: 0,
        input_clusters: vec![6],
        output_clusters: vec![],
    };
    let back: SimpleDescRsp = deserialize(&serialize(&v)).unwrap();
    assert_eq!(back.input_clusters, vec![6]);
    assert_eq!(back.output_clusters, Vec::<u16>::new());
}

#[test]
fn enum_fields_use_their_discriminant() {
    let v = ResetReq { typ: ResetType::Soft };
    assert_eq!(serialize(&v), vec![0x01]);
    let back: Reset = deserialize(&[0x02, 2, 0, 2, 6, 0]).unwrap();
    assert_eq!(back.reason, ResetReason::Watchdog);
    assert_eq!(back.hw_rev, 0);
    let back: ReadConfigRsp = deserialize(&[0, 0x83, 0x62, 0x1A]).unwrap();
    assert_eq!(back.id, ConfigId::Panid);
    assert_eq!(back.value, vec![0x62, 0x1A]);
    let back: StartupFromAppRsp = deserialize(&[1]).unwrap();
    assert_eq!(back.status, StartupFromAppStatus::New);
}

#[test]
fn decode_errors() {
    let r: Result<StartTimer, _> = deserialize(&[0x02, 0x34]);
    assert_eq!(r.err(), Some(DecodeError::UnexpectedEnd));
    // bytes after the last field are not read
    let r: StartTimer = deserialize(&[0x02, 0x34, 0x12, 0x00]).unwrap();
    assert_eq!((r.timer_id, r.timeout), (2, 0x1234));
    let r: Result<Reset, _> = deserialize(&[0x07, 2, 0, 2, 6, 0]);
    assert_eq!(r.err(), Some(DecodeError::InvalidValue));
    let r: Result<SourceRoute, _> = deserialize(&[1, 0, 2]);
    assert_eq!(r.err(), Some(DecodeError::UnexpectedEnd));
    let r: Result<Register, _> = deserialize(&[11, 4, 1, 0, 4, 0, 0, 3, 0, 0]);
    assert_eq!(r.err(), Some(DecodeError::UnexpectedEnd));
}

#[test]
fn booleans_read_nonzero_as_true() {
    let back: Leaving = deserialize(&[0, 0, 0, 0, 0, 0, 0, 0, 0, 0, 5, 2, 0]).unwrap();
    assert_eq!(back.request, true);
    assert_eq!(back.children, true);
    assert_eq!(back.rejoin, false);
}

#[test]
fn request_frames_carry_key_and_payload() {
    let req = NvRead { id: 0x0F00, offset: 0 };
    let frame = req.frame();
    assert_eq!(frame.typ(), Type::SREQ);
    assert_eq!(frame.subsys(), Subsys::SYS);
    assert_eq!(frame.cmd_id(), 0x08);
    assert_eq!(frame.body, vec![0x00, 0x0F, 0x00]);
    let mut buf = Vec::new();
    ZnpCodec.encode(frame, &mut buf).unwrap();
    let (back, _) = ZnpCodec.decode(&buf).unwrap().unwrap();
    let v: NvRead = deserialize(&back.body).unwrap();
    assert_eq!((v.id, v.offset), (0x0F00, 0));

    let f = ResetReq { typ: ResetType::Hard }.frame();
    assert_eq!(f.typ(), Type::AREQ);
    assert_eq!(f.cmd_id(), 0x00);
    assert_eq!(f.body, vec![0x00]);
}

#[test]
fn oversized_payload_fails_before_sending() {
    let v = Register {
        ep: 1,
        app_prof: 0x0104,
        dev_type: 5,
        dev_ver: 0,
        latency_req: 0,
        in_clusters: vec![0; 200],
        out_clusters: vec![0; 30],
    };
    let frame = v.frame();
    assert_eq!(frame.body.len(), 7 + 1 + 400 + 60);
    let mut buf = Vec::new();
    assert_eq!(ZnpCodec.encode(frame, &mut buf).is_err(), true);
    assert_eq!(buf.is_empty(), true);
}
