use znp_rs::cmd::error::Error;
use znp_rs::cmd::sys::NvRead;
use znp_rs::cmd::zdo::ActiveEpReq;
use znp_rs::serde_znp::DecodeError;
use znp_rs::znp::{finish_sreq, Action, Correlator, LinkState, SreqError, Ticket, Waited};
use znp_rs::znp_codec::{Subsys, Type, ZpiCmd};

fn srsp(subsys: Subsys, cmd_id: u8, body: Vec<u8>) -> ZpiCmd {
    ZpiCmd::new(Type::SRSP, subsys, cmd_id, body)
}

#[test]
fn reply_matches_live_ticket_among_other_frames() {
    let mut c = Correlator::new();
    assert_eq!(c.begin(Subsys::ZDO, 0x05), Ok(()));
    let a = c.on_frame(ZpiCmd::new(Type::AREQ, Subsys::ZDO, 0xC0, vec![9]));
    assert_eq!(matches!(a, Action::Notify(_)), true);
    let a = c.on_frame(srsp(Subsys::ZDO, 0x04, vec![0]));
    assert_eq!(matches!(a, Action::Stale(_)), true);
    let a = c.on_frame(srsp(Subsys::SYS, 0x05, vec![0]));
    assert_eq!(matches!(a, Action::Stale(_)), true);
    let a = c.on_frame(ZpiCmd::new(Type::AREQ, Subsys::MAC, 0x01, vec![]));
    assert_eq!(matches!(a, Action::Unclassified(Error::Unimplemented { .. })), true);
    assert_eq!(c.state, LinkState::Awaiting(Ticket { subsys: Subsys::ZDO, cmd_id: 0x05 }));
    match c.on_frame(srsp(Subsys::ZDO, 0x05, vec![0])) {
        Action::Reply(f) => {
            let r = finish_sreq::<ActiveEpReq>(Waited::Reply(f)).unwrap();
            assert_eq!(r.status, 0);
        }
        other => panic!("unexpected {:?}", other),
    }
    assert_eq!(c.state, LinkState::Idle);
}

#[test]
fn timeout_releases_the_slot() {
    let mut c = Correlator::new();
    assert_eq!(c.begin(Subsys::SYS, 0x08), Ok(()));
    assert_eq!(c.begin(Subsys::ZDO, 0x05), Err(SreqError::Busy));
    assert_eq!(finish_sreq::<NvRead>(Waited::TimedOut).err(), Some(SreqError::TimedOut));
    c.expire();
    assert_eq!(c.state, LinkState::Idle);
    // the late reply of the timed-out request is stale
    let a = c.on_frame(srsp(Subsys::SYS, 0x08, vec![0, 0x55]));
    assert_eq!(matches!(a, Action::Stale(_)), true);
    assert_eq!(c.begin(Subsys::ZDO, 0x05), Ok(()));
    let a = c.on_frame(srsp(Subsys::SYS, 0x08, vec![0, 0x55]));
    assert_eq!(matches!(a, Action::Stale(_)), true);
    match c.on_frame(srsp(Subsys::ZDO, 0x05, vec![0])) {
        Action::Reply(f) => assert_eq!(finish_sreq::<ActiveEpReq>(Waited::Reply(f)).unwrap().status, 0),
        other => panic!("unexpected {:?}", other),
    }
}

#[test]
fn connection_loss_and_protocol_violations() {
    let mut c = Correlator::new();
    assert_eq!(c.begin(Subsys::SYS, 0x08), Ok(()));
    let a = c.on_frame(ZpiCmd::new(Type::SREQ, Subsys::SYS, 0x08, vec![]));
    assert_eq!(matches!(a, Action::Fatal), true);
    assert_eq!(c.state, LinkState::Closed);
    assert_eq!(c.begin(Subsys::SYS, 0x08), Err(SreqError::SerialPortGone));
    let a = c.on_frame(srsp(Subsys::SYS, 0x08, vec![]));
    assert_eq!(matches!(a, Action::Fatal), true);

    let mut d = Correlator::new();
    d.on_decode_error();
    assert_eq!(d.state, LinkState::Closed);
    assert_eq!(finish_sreq::<NvRead>(Waited::Gone).err(), Some(SreqError::SerialPortGone));
}

#[test]
fn bad_reply_payload_is_reported() {
    let r = finish_sreq::<NvRead>(Waited::Reply(srsp(Subsys::SYS, 0x08, vec![])));
    assert_eq!(r.err(), Some(SreqError::BadResponse(Error::Payload(DecodeError::UnexpectedEnd))));
    let r = finish_sreq::<NvRead>(Waited::Reply(srsp(Subsys::SYS, 0x08, vec![0, 0x55]))).unwrap();
    assert_eq!(format!("{:?}", r).contains("85"), true);
}
