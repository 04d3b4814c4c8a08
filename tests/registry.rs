use znp_rs::cmd::error::Error;
use znp_rs::cmd::{af, sys, zdo, Areq};
use znp_rs::serde_znp::DecodeError;
use znp_rs::znp_codec::{Subsys, Type, ZpiCmd};

#[test]
fn state_change_notification_is_classified() {
    let frame = ZpiCmd::new(Type::AREQ, Subsys::ZDO, 0xC0, vec![0x02]);
    match Areq::from_subsys(frame) {
        Ok(Areq::Zdo(zdo::In::StateChange(s))) => assert_eq!(s.state, 2),
        other => panic!("unexpected {:?}", other),
    }
}

#[test]
fn system_and_af_notifications_are_classified() {
    let frame = ZpiCmd::new(Type::AREQ, Subsys::SYS, 0x81, vec![0x03]);
    match Areq::from_subsys(frame) {
        Ok(Areq::Sys(sys::In::TimerExpired(t))) => assert_eq!(t.timer_id, 3),
        other => panic!("unexpected {:?}", other),
    }
    let mut body = vec![0, 0, 0x05, 0x04, 0x34, 0x12, 1, 1, 0, 0x40, 0, 0, 0, 0, 0, 7];
    body.extend_from_slice(&[0x18, 0x05]);
    let frame = ZpiCmd::new(Type::AREQ, Subsys::AF, 0x81, body);
    match Areq::from_subsys(frame) {
        Ok(Areq::Af(af::In::IncomingMsg(m))) => {
            assert_eq!(m.cluster, 0x0405);
            assert_eq!(m.addr.0, 0x1234);
            assert_eq!(m.link_quality, 0x40);
            assert_eq!(m.tr_seq, 7);
            assert_eq!(m.data, vec![0x18, 0x05]);
        }
        other => panic!("unexpected {:?}", other),
    }
}

#[test]
fn end_device_announcement_is_classified() {
    let body = vec![0x01, 0x00, 0x34, 0x12, 8, 7, 6, 5, 4, 3, 2, 1, 0x8E];
    let frame = ZpiCmd::new(Type::AREQ, Subsys::ZDO, 0xC1, body);
    match Areq::from_subsys(frame) {
        Ok(Areq::Zdo(zdo::In::EndDevAnnce(a))) => {
            assert_eq!(a.nwk_addr.0, 0x1234);
            assert_eq!(a.ieee_addr.0, 0x0102030405060708);
            assert_eq!(a.capabilities, 0x8E);
        }
        other => panic!("unexpected {:?}", other),
    }
}

#[test]
fn unknown_subsystem_and_command_are_unimplemented() {
    let frame = ZpiCmd::new(Type::AREQ, Subsys::UTIL, 0x80, vec![]);
    assert_eq!(
        Areq::from_subsys(frame).err(),
        Some(Error::Unimplemented { subsys: Subsys::UTIL, cmd_id: 0x80 })
    );
    let frame = ZpiCmd::new(Type::AREQ, Subsys::ZDO, 0xFF, vec![1]);
    assert_eq!(
        Areq::from_subsys(frame).err(),
        Some(Error::Unimplemented { subsys: Subsys::ZDO, cmd_id: 0xFF })
    );
}

#[test]
fn bad_payload_is_a_payload_error() {
    let frame = ZpiCmd::new(Type::AREQ, Subsys::ZDO, 0xC0, vec![]);
    assert_eq!(Areq::from_subsys(frame).err(), Some(Error::Payload(DecodeError::UnexpectedEnd)));
    let frame = ZpiCmd::new(Type::AREQ, Subsys::SYS, 0x80, vec![9, 0, 0, 0, 0, 0]);
    assert_eq!(Areq::from_subsys(frame).err(), Some(Error::Payload(DecodeError::InvalidValue)));
}

#[test]
fn error_constructors_copy_the_key() {
    let frame = ZpiCmd::new(Type::SRSP, Subsys::AF, 0x00, vec![]);
    assert_eq!(Error::unimplemented(&frame), Error::Unimplemented { subsys: Subsys::AF, cmd_id: 0 });
    assert_eq!(Error::mismatched(&frame), Error::Mismatched { subsys: Subsys::AF, cmd_id: 0 });
}
