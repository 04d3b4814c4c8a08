use znp_rs::zcl::clusters::error::Error;
use znp_rs::zcl::clusters::general::{self, parse_report, CmdId, ReadError, VarType, VarTypeVal};
use znp_rs::zcl::clusters::{ClusterId, In};
use znp_rs::zcl::frame::{Direction, FrameControl, FrameType, ZclFrame};
use znp_rs::serde_znp::DecodeError;

#[test]
fn attribute_report_example() {
    let r = parse_report(&[0x00, 0x00, 0x20, 0x07]);
    assert_eq!(r.attrs.len(), 1);
    match r.attrs.get(&0x0000) {
        Some(VarTypeVal::Uint8(7)) => {}
        other => panic!("unexpected {:?}", other),
    }
}

#[test]
fn attribute_report_stops_at_bad_entry() {
    // index 1: Int16 -2; index 2: unknown tag 0x99
    let r = parse_report(&[0x01, 0x00, 0x29, 0xFE, 0xFF, 0x02, 0x00, 0x99, 0x01]);
    assert_eq!(r.attrs.len(), 1);
    assert_eq!(matches!(r.attrs.get(&1), Some(VarTypeVal::Int16(-2))), true);
    // second entry runs out of bytes
    let r = parse_report(&[0x01, 0x00, 0x10, 0x01, 0x02, 0x00, 0x21, 0x05]);
    assert_eq!(r.attrs.len(), 1);
    assert_eq!(matches!(r.attrs.get(&1), Some(VarTypeVal::Bool(true))), true);
    // a lone trailing byte ends the report
    let r = parse_report(&[0x05, 0x00, 0x28, 0x80, 0x07]);
    assert_eq!(r.attrs.len(), 1);
    assert_eq!(matches!(r.attrs.get(&5), Some(VarTypeVal::Int8(-128))), true);
}

#[test]
fn later_entry_replaces_earlier() {
    let r = parse_report(&[0x03, 0x00, 0x20, 0x01, 0x03, 0x00, 0x20, 0x02]);
    assert_eq!(r.attrs.len(), 1);
    assert_eq!(matches!(r.attrs.get(&3), Some(VarTypeVal::Uint8(2))), true);
}

#[test]
fn values_of_every_type() {
    let b = [
        0x24, 0x01, 0x02, 0x03, 0x04, 0x05, // Uint40
        0x42, 0x02, b'h', b'i', // String
        0x4c, 0x02, 0x00, 0x21, 0x34, 0x12, 0x41, 0x01, 0xAA, // Struct of two
    ];
    let (v, n) = VarTypeVal::parse(&b, 0).unwrap();
    assert_eq!(n, 6);
    assert_eq!(matches!(v, VarTypeVal::Uint40(0x0504030201)), true);
    let (v, n) = VarTypeVal::parse(&b, 6).unwrap();
    assert_eq!(n, 10);
    match v {
        VarTypeVal::String(s) => assert_eq!(s, b"hi".to_vec()),
        other => panic!("unexpected {:?}", other),
    }
    let (v, n) = VarTypeVal::parse(&b, 10).unwrap();
    assert_eq!(n, b.len());
    match v {
        VarTypeVal::Struct(items) => {
            assert_eq!(items.len(), 2);
            assert_eq!(matches!(items[0], VarTypeVal::Uint16(0x1234)), true);
            match &items[1] {
                VarTypeVal::Octstr(o) => assert_eq!(o, &vec![0xAA]),
                other => panic!("unexpected {:?}", other),
            }
        }
        other => panic!("unexpected {:?}", other),
    }
}

#[test]
fn value_errors() {
    assert_eq!(VarTypeVal::parse(&[0x99, 0], 0).err(), Some(ReadError::UnknownType(0x99)));
    assert_eq!(VarTypeVal::parse(&[0x21, 0], 0).err(), Some(ReadError::UnexpectedEnd));
    assert_eq!(VarTypeVal::parse(&[0x4c, 0x03], 0).err(), Some(ReadError::UnexpectedEnd));
    assert_eq!(VarTypeVal::parse(&[], 0).err(), Some(ReadError::UnexpectedEnd));
    assert_eq!(VarType::from_u8(0x4c), Some(VarType::Struct));
    assert_eq!(VarType::Bool.code(), 0x10);
}

#[test]
fn struct_keeps_elements_before_a_bad_one() {
    // count 2, one good Uint8, then an unknown tag
    let (v, n) = VarTypeVal::parse(&[0x4c, 0x02, 0x00, 0x20, 0x01, 0xFF], 0).unwrap();
    assert_eq!(n, 5);
    match v {
        VarTypeVal::Struct(items) => {
            assert_eq!(items.len(), 1);
            assert_eq!(matches!(items[0], VarTypeVal::Uint8(1)), true);
        }
        other => panic!("unexpected {:?}", other),
    }
    // count 3, bytes end after one element
    let (v, n) = VarTypeVal::parse(&[0x4c, 0x03, 0x00, 0x20, 0x01], 0).unwrap();
    assert_eq!(n, 5);
    assert_eq!(matches!(v, VarTypeVal::Struct(ref items) if items.len() == 1), true);
    // an element cut short
    let (v, n) = VarTypeVal::parse(&[0x4c, 0x02, 0x00, 0x21, 0x01], 0).unwrap();
    assert_eq!(n, 3);
    assert_eq!(matches!(v, VarTypeVal::Struct(ref items) if items.is_empty()), true);
    // in a report, the entry holding the struct is kept
    let r = parse_report(&[0x07, 0x00, 0x4c, 0x02, 0x00, 0x20, 0x01, 0xFF]);
    assert_eq!(r.attrs.len(), 1);
    assert_eq!(matches!(r.attrs.get(&7), Some(VarTypeVal::Struct(items)) if items.len() == 1), true);
}

#[test]
fn frame_header_without_manufacturer_code() {
    let f = ZclFrame::parse(&[0x18, 0x07, 0x0A, 0x00, 0x00, 0x20, 0x07]).unwrap();
    assert_eq!(
        f.frame_control,
        FrameControl {
            frame_type: FrameType::General,
            manufacturer_specific: false,
            direction: Direction::ClientToServer,
            disable_default_rsp: true,
            reserved: 0,
        }
    );
    assert_eq!(f.manufacturer_code, None);
    assert_eq!(f.trans_seq_num, 7);
    assert_eq!(f.cmd_id, 0x0A);
    assert_eq!(f.payload, vec![0x00, 0x00, 0x20, 0x07]);
}

#[test]
fn frame_header_with_manufacturer_code() {
    let f = ZclFrame::parse(&[0x25, 0x5F, 0x11, 0x01, 0x0B, 0xEE]).unwrap();
    assert_eq!(f.frame_control.frame_type, FrameType::Cluster);
    assert_eq!(f.frame_control.manufacturer_specific, true);
    assert_eq!(f.frame_control.direction, Direction::ServerToClient);
    assert_eq!(f.frame_control.reserved, 1);
    assert_eq!(f.manufacturer_code, Some(0x115F));
    assert_eq!(f.trans_seq_num, 1);
    assert_eq!(f.cmd_id, 0x0B);
    assert_eq!(f.payload, vec![0xEE]);
    assert_eq!(ZclFrame::parse(&[0x04, 0x5F, 0x11, 0x01]).is_none(), true);
    assert_eq!(ZclFrame::parse(&[0x02, 0x01, 0x0A]).is_none(), true);
    assert_eq!(ZclFrame::parse(&[]).is_none(), true);
    assert_eq!(FrameControl::unpack(0x03), None);
}

#[test]
fn cluster_dispatch() {
    let f = ZclFrame::parse(&[0x18, 0x07, 0x0A, 0x00, 0x00, 0x20, 0x07]).unwrap();
    match In::parse(ClusterId::TempMeasure, f) {
        Ok(In::General(general::In::AttrReport(r))) => assert_eq!(r.attrs.len(), 1),
        other => panic!("unexpected {:?}", other),
    }
    let f = ZclFrame::parse(&[0x18, 0x07, 0x12, 0x01, 0x00, 0x0A]).unwrap();
    match In::parse(ClusterId::GenOnOff, f) {
        Ok(In::General(general::In::DiscoverCmdsRecRsp(d))) => {
            assert_eq!(d.discovery_complete, true);
            assert_eq!(d.cmd_ids, vec![0x00, 0x0A]);
        }
        other => panic!("unexpected {:?}", other),
    }
    let f = ZclFrame::parse(&[0x18, 0x07, 0x12]).unwrap();
    assert_eq!(In::parse(ClusterId::GenOnOff, f).err(), Some(Error::Payload(DecodeError::UnexpectedEnd)));
    let f = ZclFrame::parse(&[0x18, 0x07, 0x01]).unwrap();
    assert_eq!(In::parse(ClusterId::GenOnOff, f).err(), Some(Error::UnknownCmd { cmd_id: 0x01 }));
    let f = ZclFrame::parse(&[0x01, 0x07, 0x01]).unwrap();
    assert_eq!(In::parse(ClusterId::RHMeasurement, f).err(), Some(Error::UnknownCmd { cmd_id: 0x01 }));
    let f = ZclFrame::parse(&[0x01, 0x07, 0x01]).unwrap();
    assert_eq!(
        In::parse(ClusterId::GenBasic, f).err(),
        Some(Error::UnimplementedCluster { cluster: ClusterId::GenBasic })
    );
    assert_eq!(CmdId::from_u8(0x0a), Some(CmdId::AttrReport));
}

#[test]
fn cluster_ids() {
    assert_eq!(ClusterId::from(0x0402), Ok(ClusterId::TempMeasure));
    assert_eq!(ClusterId::from(0x0405), Ok(ClusterId::RHMeasurement));
    assert_eq!(ClusterId::from(0x0006), Ok(ClusterId::GenOnOff));
    assert_eq!(ClusterId::from(0x0000), Ok(ClusterId::GenBasic));
    assert_eq!(ClusterId::from(0x0300), Err(Error::UnknownCluser { cluster: 0x0300 }));
    assert_eq!(Error::unknown_cmd(3), Error::UnknownCmd { cmd_id: 3 });
}
