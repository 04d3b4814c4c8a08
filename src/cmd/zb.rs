//! Simple API commands: device information and configuration.
use crate::serde_znp::{
    byte_of, copy_bytes, get_bytes, get_u8, views, DecodeError, Field, Kind, Payload, Value,
};
use crate::sreq::Sreq;
use crate::znp_codec::Subsys;
use vstd::prelude::*;

verus! {

#[derive(Debug, Clone, Copy, PartialEq, Eq, Structural)]
pub enum ZbDeviceInfoProp {
    DevState,
    IeeeAddr,
    ShortAddr,
    ParentShortAddr,
    ParentIeeeAddr,
    Channel,
    PanId,
    ExtPanId,
}

impl ZbDeviceInfoProp {
    pub open spec fn spec_code(self) -> u8 {
        match self {
            ZbDeviceInfoProp::DevState => 0,
            ZbDeviceInfoProp::IeeeAddr => 1,
            ZbDeviceInfoProp::ShortAddr => 2,
            ZbDeviceInfoProp::ParentShortAddr => 3,
            ZbDeviceInfoProp::ParentIeeeAddr => 4,
            ZbDeviceInfoProp::Channel => 5,
            ZbDeviceInfoProp::PanId => 6,
            ZbDeviceInfoProp::ExtPanId => 7,
        }
    }

    pub open spec fn spec_from_code(c: u8) -> Option<Self> {
        match c {
            0 => Some(ZbDeviceInfoProp::DevState),
            1 => Some(ZbDeviceInfoProp::IeeeAddr),
            2 => Some(ZbDeviceInfoProp::ShortAddr),
            3 => Some(ZbDeviceInfoProp::ParentShortAddr),
            4 => Some(ZbDeviceInfoProp::ParentIeeeAddr),
            5 => Some(ZbDeviceInfoProp::Channel),
            6 => Some(ZbDeviceInfoProp::PanId),
            7 => Some(ZbDeviceInfoProp::ExtPanId),
            _ => None,
        }
    }

    pub fn code(self) -> (r: u8)
        ensures
            r == self.spec_code(),
    {
        match self {
            ZbDeviceInfoProp::DevState => 0,
            ZbDeviceInfoProp::IeeeAddr => 1,
            ZbDeviceInfoProp::ShortAddr => 2,
            ZbDeviceInfoProp::ParentShortAddr => 3,
            ZbDeviceInfoProp::ParentIeeeAddr => 4,
            ZbDeviceInfoProp::Channel => 5,
            ZbDeviceInfoProp::PanId => 6,
            ZbDeviceInfoProp::ExtPanId => 7,
        }
    }

    pub fn from_u8(c: u8) -> (r: Option<Self>)
        ensures
            r == Self::spec_from_code(c),
            r matches Some(e) ==> e.spec_code() == c,
    {
        match c {
            0 => Some(ZbDeviceInfoProp::DevState),
            1 => Some(ZbDeviceInfoProp::IeeeAddr),
            2 => Some(ZbDeviceInfoProp::ShortAddr),
            3 => Some(ZbDeviceInfoProp::ParentShortAddr),
            4 => Some(ZbDeviceInfoProp::ParentIeeeAddr),
            5 => Some(ZbDeviceInfoProp::Channel),
            6 => Some(ZbDeviceInfoProp::PanId),
            7 => Some(ZbDeviceInfoProp::ExtPanId),
            _ => None,
        }
    }
}

#[derive(Debug)]
pub struct ZbGetDeviceInfoReq {
    pub param: ZbDeviceInfoProp,
}

impl Payload for ZbGetDeviceInfoReq {
    open spec fn model(&self) -> Seq<Value> {
        seq![Value::U8(self.param.spec_code())]
    }

    open spec fn kinds() -> Seq<Kind> {
        seq![Kind::U8]
    }

    open spec fn admits(vs: Seq<Value>) -> bool {
        ZbDeviceInfoProp::spec_from_code(byte_of(vs[0])) is Some
    }

    fn schema() -> (r: Vec<Kind>) {
        vec![Kind::U8]
    }

    fn to_fields(&self) -> (r: Vec<Field>) {
        let r = vec![Field::U8(self.param.code())];
        assert(views(r@) =~= self.model());
        r
    }

    fn from_fields(fs: Vec<Field>) -> (r: Result<Self, DecodeError>) {
        let param = match ZbDeviceInfoProp::from_u8(get_u8(&fs, 0)) {
            Some(e) => e,
            None => {
                return Err(DecodeError::InvalidValue);
            },
        };
        let v = ZbGetDeviceInfoReq {
            param,
        };
        assert(v.model() =~= views(fs@));
        Ok(v)
    }

    proof fn lemma_model(&self) {
    }
}

#[derive(Debug)]
pub struct ZbGetDeviceInfoRsp {
    pub param: ZbDeviceInfoProp,
    pub value: [u8; 8],
}

impl Payload for ZbGetDeviceInfoRsp {
    open spec fn model(&self) -> Seq<Value> {
        seq![
            Value::U8(self.param.spec_code()),
            Value::U8(self.value[0]),
            Value::U8(self.value[1]),
            Value::U8(self.value[2]),
            Value::U8(self.value[3]),
            Value::U8(self.value[4]),
            Value::U8(self.value[5]),
            Value::U8(self.value[6]),
            Value::U8(self.value[7]),
        ]
    }

    open spec fn kinds() -> Seq<Kind> {
        seq![
            Kind::U8,
            Kind::U8,
            Kind::U8,
            Kind::U8,
            Kind::U8,
            Kind::U8,
            Kind::U8,
            Kind::U8,
            Kind::U8,
        ]
    }

    open spec fn admits(vs: Seq<Value>) -> bool {
        ZbDeviceInfoProp::spec_from_code(byte_of(vs[0])) is Some
    }

    fn schema() -> (r: Vec<Kind>) {
        vec![
            Kind::U8,
            Kind::U8,
            Kind::U8,
            Kind::U8,
            Kind::U8,
            Kind::U8,
            Kind::U8,
            Kind::U8,
            Kind::U8,
        ]
    }

    fn to_fields(&self) -> (r: Vec<Field>) {
        let r = vec![
            Field::U8(self.param.code()),
            Field::U8(self.value[0]),
            Field::U8(self.value[1]),
            Field::U8(self.value[2]),
            Field::U8(self.value[3]),
            Field::U8(self.value[4]),
            Field::U8(self.value[5]),
            Field::U8(self.value[6]),
            Field::U8(self.value[7]),
        ];
        assert(views(r@) =~= self.model());
        r
    }

    fn from_fields(fs: Vec<Field>) -> (r: Result<Self, DecodeError>) {
        let param = match ZbDeviceInfoProp::from_u8(get_u8(&fs, 0)) {
            Some(e) => e,
            None => {
                return Err(DecodeError::InvalidValue);
            },
        };
        let v = ZbGetDeviceInfoRsp {
            param,
            value: [
                get_u8(&fs, 1),
                get_u8(&fs, 2),
                get_u8(&fs, 3),
                get_u8(&fs, 4),
                get_u8(&fs, 5),
                get_u8(&fs, 6),
                get_u8(&fs, 7),
                get_u8(&fs, 8),
            ],
        };
        assert(v.model() =~= views(fs@));
        Ok(v)
    }

    proof fn lemma_model(&self) {
    }
}

impl Sreq for ZbGetDeviceInfoReq {
    type Srsp = ZbGetDeviceInfoRsp;

    open spec fn spec_subsys() -> Subsys {
        Subsys::SAPI
    }

    open spec fn spec_cmd_id() -> u8 {
        0x06
    }

    fn subsys() -> (r: Subsys) {
        Subsys::SAPI
    }

    fn cmd_id() -> (r: u8) {
        0x06
    }

    fn max_size() -> (r: usize) {
        9
    }
}

#[derive(Debug, Clone, Copy, PartialEq, Eq, Structural)]
pub enum ConfigId {
    /// EXTADDR
    Extaddr,
    /// BOOTCOUNTER
    Bootcounter,
    /// STARTUP_OPTION
    StartupOption,
    /// START_DELAY
    StartDelay,
    /// NIB
    Nib,
    /// DEVICE_LIST
    DeviceList,
    /// ADDRMGR
    Addrmgr,
    /// POLL_RATE
    PollRate,
    /// QUEUED_POLL_RATE
    QueuedPollRate,
    /// RESPONSE_POLL_RATE
    ResponsePollRate,
    /// REJOIN_POLL_RATE
    RejoinPollRate,
    /// DATA_RETRIES
    DataRetries,
    /// POLL_FAILURE_RETRIES
    PollFailureRetries,
    /// STACK_PROFILE
    StackProfile,
    /// INDIRECT_MSG_TIMEOUT
    IndirectMsgTimeout,
    /// ROUTE_EXPIRY_TIME
    RouteExpiryTime,
    /// EXTENDED_PAN_ID
    ExtendedPanId,
    /// BCAST_RETRIES
    BcastRetries,
    /// PASSIVE_ACK_TIMEOUT
    PassiveAckTimeout,
    /// BCAST_DELIVERY_TIME
    BcastDeliveryTime,
    /// NWK_MODE
    NwkMode,
    /// CONCENTRATOR_ENABLE
    ConcentratorEnable,
    /// CONCENTRATOR_DISCOVERY
    ConcentratorDiscovery,
    /// CONCENTRATOR_RADIUS
    ConcentratorRadius,
    /// CONCENTRATOR_RC
    ConcentratorRc,
    /// NWK_MGR_MODE
    NwkMgrMode,
    /// SRC_RTG_EXPIRY_TIME
    SrcRtgExpiryTime,
    /// ROUTE_DISCOVERY_TIME
    RouteDiscoveryTime,
    /// NWK_ACTIVE_KEY_INFO
    NwkActiveKeyInfo,
    /// NWK_ALTERN_KEY_INFO
    NwkAlternKeyInfo,
    /// ROUTER_OFF_ASSOC_CLEANUP
    RouterOffAssocCleanup,
    /// NWK_LEAVE_REQ_ALLOWED
    NwkLeaveReqAllowed,
    /// NWK_CHILD_AGE_ENABLE
    NwkChildAgeEnable,
    /// DEVICE_LIST_KA_TIMEOUT
    DeviceListKaTimeout,
    /// BINDING_TABLE
    BindingTable,
    /// GROUP_TABLE
    GroupTable,
    /// APS_FRAME_RETRIES
    ApsFrameRetries,
    /// APS_ACK_WAIT_DURATION
    ApsAckWaitDuration,
    /// APS_ACK_WAIT_MULTIPLIER
    ApsAckWaitMultiplier,
    /// BINDING_TIME
    BindingTime,
    /// APS_USE_EXT_PANID
    ApsUseExtPanid,
    /// APS_USE_INSECURE_JOIN
    ApsUseInsecureJoin,
    /// COMMISSIONED_NWK_ADDR
    CommissionedNwkAddr,
    /// APS_NONMEMBER_RADIUS
    ApsNonmemberRadius,
    /// APS_LINK_KEY_TABLE
    ApsLinkKeyTable,
    /// APS_DUPREJ_TIMEOUT_INC
    ApsDuprejTimeoutInc,
    /// APS_DUPREJ_TIMEOUT_COUNT
    ApsDuprejTimeoutCount,
    /// APS_DUPREJ_TABLE_SIZE
    ApsDuprejTableSize,
    /// DIAGNOSTIC_STATS
    DiagnosticStats,
    /// SECURITY_LEVEL
    SecurityLevel,
    /// PRECFGKEY
    Precfgkey,
    /// PRECFGKEYS_ENABLE
    PrecfgkeysEnable,
    /// SECURITY_MODE
    SecurityMode,
    /// SECURE_PERMIT_JOIN
    SecurePermitJoin,
    /// APS_LINK_KEY_TYPE
    ApsLinkKeyType,
    /// APS_ALLOW_R19_SECURITY
    ApsAllowR19Security,
    /// IMPLICIT_CERTIFICATE
    ImplicitCertificate,
    /// DEVICE_PRIVATE_KEY
    DevicePrivateKey,
    /// CA_PUBLIC_KEY
    CaPublicKey,
    /// KE_MAX_DEVICES
    KeMaxDevices,
    /// USE_DEFAULT_TCLK
    UseDefaultTclk,
    /// RNG_COUNTER
    RngCounter,
    /// RANDOM_SEED
    RandomSeed,
    /// TRUSTCENTER_ADDR
    TrustcenterAddr,
    /// USERDESC
    Userdesc,
    /// NWKKEY
    Nwkkey,
    /// PANID
    Panid,
    /// CHANLIST
    Chanlist,
    /// LEAVE_CTRL
    LeaveCtrl,
    /// SCAN_DURATION
    ScanDuration,
    /// LOGICAL_TYPE
    LogicalType,
    /// NWKMGR_MIN_TX
    NwkmgrMinTx,
    /// NWKMGR_ADDR
    NwkmgrAddr,
    /// ZDO_DIRECT_CB
    ZdoDirectCb,
    /// SCENE_TABLE
    SceneTable,
    /// MIN_FREE_NWK_ADDR
    MinFreeNwkAddr,
    /// MAX_FREE_NWK_ADDR
    MaxFreeNwkAddr,
    /// MIN_FREE_GRP_ID
    MinFreeGrpId,
    /// MAX_FREE_GRP_ID
    MaxFreeGrpId,
    /// MIN_GRP_IDS
    MinGrpIds,
    /// MAX_GRP_IDS
    MaxGrpIds,
    /// OTA_BLOCK_REQ_DELAY
    OtaBlockReqDelay,
    /// SAPI_ENDPOINT
    SapiEndpoint,
    /// SAS_SHORT_ADDR
    SasShortAddr,
    /// SAS_EXT_PANID
    SasExtPanid,
    /// SAS_PANID
    SasPanid,
    /// SAS_CHANNEL_MASK
    SasChannelMask,
    /// SAS_PROTOCOL_VER
    SasProtocolVer,
    /// SAS_STACK_PROFILE
    SasStackProfile,
    /// SAS_STARTUP_CTRL
    SasStartupCtrl,
    /// SAS_TC_ADDR
    SasTcAddr,
    /// SAS_TC_MASTER_KEY
    SasTcMasterKey,
    /// SAS_NWK_KEY
    SasNwkKey,
    /// SAS_USE_INSEC_JOIN
    SasUseInsecJoin,
    /// SAS_PRECFG_LINK_KEY
    SasPrecfgLinkKey,
    /// SAS_NWK_KEY_SEQ_NUM
    SasNwkKeySeqNum,
    /// SAS_NWK_KEY_TYPE
    SasNwkKeyType,
    /// SAS_NWK_MGR_ADDR
    SasNwkMgrAddr,
    /// SAS_CURR_TC_MASTER_KEY
    SasCurrTcMasterKey,
    /// SAS_CURR_NWK_KEY
    SasCurrNwkKey,
    /// SAS_CURR_PRECFG_LINK_KEY
    SasCurrPrecfgLinkKey,
}

impl ConfigId {
    pub open spec fn spec_code(self) -> u8 {
        match self {
            ConfigId::Extaddr => 0x1,
            ConfigId::Bootcounter => 0x2,
            ConfigId::StartupOption => 0x3,
            ConfigId::StartDelay => 0x4,
            ConfigId::Nib => 0x21,
            ConfigId::DeviceList => 0x22,
            ConfigId::Addrmgr => 0x23,
            ConfigId::PollRate => 0x24,
            ConfigId::QueuedPollRate => 0x25,
            ConfigId::ResponsePollRate => 0x26,
            ConfigId::RejoinPollRate => 0x27,
            ConfigId::DataRetries => 0x28,
            ConfigId::PollFailureRetries => 0x29,
            ConfigId::StackProfile => 0x2a,
            ConfigId::IndirectMsgTimeout => 0x2b,
            ConfigId::RouteExpiryTime => 0x2c,
            ConfigId::ExtendedPanId => 0x2d,
            ConfigId::BcastRetries => 0x2e,
            ConfigId::PassiveAckTimeout => 0x2f,
            ConfigId::BcastDeliveryTime => 0x30,
            ConfigId::NwkMode => 0x31,
            ConfigId::ConcentratorEnable => 0x32,
            ConfigId::ConcentratorDiscovery => 0x33,
            ConfigId::ConcentratorRadius => 0x34,
            ConfigId::ConcentratorRc => 0x36,
            ConfigId::NwkMgrMode => 0x37,
            ConfigId::SrcRtgExpiryTime => 0x38,
            ConfigId::RouteDiscoveryTime => 0x39,
            ConfigId::NwkActiveKeyInfo => 0x3a,
            ConfigId::NwkAlternKeyInfo => 0x3b,
            ConfigId::RouterOffAssocCleanup => 0x3c,
            ConfigId::NwkLeaveReqAllowed => 0x3d,
            ConfigId::NwkChildAgeEnable => 0x3e,
            ConfigId::DeviceListKaTimeout => 0x3f,
            ConfigId::BindingTable => 0x41,
            ConfigId::GroupTable => 0x42,
            ConfigId::ApsFrameRetries => 0x43,
            ConfigId::ApsAckWaitDuration => 0x44,
            ConfigId::ApsAckWaitMultiplier => 0x45,
            ConfigId::BindingTime => 0x46,
            ConfigId::ApsUseExtPanid => 0x47,
            ConfigId::ApsUseInsecureJoin => 0x48,
            ConfigId::CommissionedNwkAddr => 0x49,
            ConfigId::ApsNonmemberRadius => 0x4b,
            ConfigId::ApsLinkKeyTable => 0x4c,
            ConfigId::ApsDuprejTimeoutInc => 0x4d,
            ConfigId::ApsDuprejTimeoutCount => 0x4e,
            ConfigId::ApsDuprejTableSize => 0x4f,
            ConfigId::DiagnosticStats => 0x50,
            ConfigId::SecurityLevel => 0x61,
            ConfigId::Precfgkey => 0x62,
            ConfigId::PrecfgkeysEnable => 0x63,
            ConfigId::SecurityMode => 0x64,
            ConfigId::SecurePermitJoin => 0x65,
            ConfigId::ApsLinkKeyType => 0x66,
            ConfigId::ApsAllowR19Security => 0x67,
            ConfigId::ImplicitCertificate => 0x69,
            ConfigId::DevicePrivateKey => 0x6a,
            ConfigId::CaPublicKey => 0x6b,
            ConfigId::KeMaxDevices => 0x6c,
            ConfigId::UseDefaultTclk => 0x6d,
            ConfigId::RngCounter => 0x6f,
            ConfigId::RandomSeed => 0x70,
            ConfigId::TrustcenterAddr => 0x71,
            ConfigId::Userdesc => 0x81,
            ConfigId::Nwkkey => 0x82,
            ConfigId::Panid => 0x83,
            ConfigId::Chanlist => 0x84,
            ConfigId::LeaveCtrl => 0x85,
            ConfigId::ScanDuration => 0x86,
            ConfigId::LogicalType => 0x87,
            ConfigId::NwkmgrMinTx => 0x88,
            ConfigId::NwkmgrAddr => 0x89,
            ConfigId::ZdoDirectCb => 0x8f,
            ConfigId::SceneTable => 0x91,
            ConfigId::MinFreeNwkAddr => 0x92,
            ConfigId::MaxFreeNwkAddr => 0x93,
            ConfigId::MinFreeGrpId => 0x94,
            ConfigId::MaxFreeGrpId => 0x95,
            ConfigId::MinGrpIds => 0x96,
            ConfigId::MaxGrpIds => 0x97,
            ConfigId::OtaBlockReqDelay => 0x98,
            ConfigId::SapiEndpoint => 0xa1,
            ConfigId::SasShortAddr => 0xb1,
            ConfigId::SasExtPanid => 0xb2,
            ConfigId::SasPanid => 0xb3,
            ConfigId::SasChannelMask => 0xb4,
            ConfigId::SasProtocolVer => 0xb5,
            ConfigId::SasStackProfile => 0xb6,
            ConfigId::SasStartupCtrl => 0xb7,
            ConfigId::SasTcAddr => 0xc1,
            ConfigId::SasTcMasterKey => 0xc2,
            ConfigId::SasNwkKey => 0xc3,
            ConfigId::SasUseInsecJoin => 0xc4,
            ConfigId::SasPrecfgLinkKey => 0xc5,
            ConfigId::SasNwkKeySeqNum => 0xc6,
            ConfigId::SasNwkKeyType => 0xc7,
            ConfigId::SasNwkMgrAddr => 0xc8,
            ConfigId::SasCurrTcMasterKey => 0xd1,
            ConfigId::SasCurrNwkKey => 0xd2,
            ConfigId::SasCurrPrecfgLinkKey => 0xd3,
        }
    }

    pub open spec fn spec_from_code(c: u8) -> Option<Self> {
        match c {
            0x1 => Some(ConfigId::Extaddr),
            0x2 => Some(ConfigId::Bootcounter),
            0x3 => Some(ConfigId::StartupOption),
            0x4 => Some(ConfigId::StartDelay),
            0x21 => Some(ConfigId::Nib),
            0x22 => Some(ConfigId::DeviceList),
            0x23 => Some(ConfigId::Addrmgr),
            0x24 => Some(ConfigId::PollRate),
            0x25 => Some(ConfigId::QueuedPollRate),
            0x26 => Some(ConfigId::ResponsePollRate),
            0x27 => Some(ConfigId::RejoinPollRate),
            0x28 => Some(ConfigId::DataRetries),
            0x29 => Some(ConfigId::PollFailureRetries),
            0x2a => Some(ConfigId::StackProfile),
            0x2b => Some(ConfigId::IndirectMsgTimeout),
            0x2c => Some(ConfigId::RouteExpiryTime),
            0x2d => Some(ConfigId::ExtendedPanId),
            0x2e => Some(ConfigId::BcastRetries),
            0x2f => Some(ConfigId::PassiveAckTimeout),
            0x30 => Some(ConfigId::BcastDeliveryTime),
            0x31 => Some(ConfigId::NwkMode),
            0x32 => Some(ConfigId::ConcentratorEnable),
            0x33 => Some(ConfigId::ConcentratorDiscovery),
            0x34 => Some(ConfigId::ConcentratorRadius),
            0x36 => Some(ConfigId::ConcentratorRc),
            0x37 => Some(ConfigId::NwkMgrMode),
            0x38 => Some(ConfigId::SrcRtgExpiryTime),
            0x39 => Some(ConfigId::RouteDiscoveryTime),
            0x3a => Some(ConfigId::NwkActiveKeyInfo),
            0x3b => Some(ConfigId::NwkAlternKeyInfo),
            0x3c => Some(ConfigId::RouterOffAssocCleanup),
            0x3d => Some(ConfigId::NwkLeaveReqAllowed),
            0x3e => Some(ConfigId::NwkChildAgeEnable),
            0x3f => Some(ConfigId::DeviceListKaTimeout),
            0x41 => Some(ConfigId::BindingTable),
            0x42 => Some(ConfigId::GroupTable),
            0x43 => Some(ConfigId::ApsFrameRetries),
            0x44 => Some(ConfigId::ApsAckWaitDuration),
            0x45 => Some(ConfigId::ApsAckWaitMultiplier),
            0x46 => Some(ConfigId::BindingTime),
            0x47 => Some(ConfigId::ApsUseExtPanid),
            0x48 => Some(ConfigId::ApsUseInsecureJoin),
            0x49 => Some(ConfigId::CommissionedNwkAddr),
            0x4b => Some(ConfigId::ApsNonmemberRadius),
            0x4c => Some(ConfigId::ApsLinkKeyTable),
            0x4d => Some(ConfigId::ApsDuprejTimeoutInc),
            0x4e => Some(ConfigId::ApsDuprejTimeoutCount),
            0x4f => Some(ConfigId::ApsDuprejTableSize),
            0x50 => Some(ConfigId::DiagnosticStats),
            0x61 => Some(ConfigId::SecurityLevel),
            0x62 => Some(ConfigId::Precfgkey),
            0x63 => Some(ConfigId::PrecfgkeysEnable),
            0x64 => Some(ConfigId::SecurityMode),
            0x65 => Some(ConfigId::SecurePermitJoin),
            0x66 => Some(ConfigId::ApsLinkKeyType),
            0x67 => Some(ConfigId::ApsAllowR19Security),
            0x69 => Some(ConfigId::ImplicitCertificate),
            0x6a => Some(ConfigId::DevicePrivateKey),
            0x6b => Some(ConfigId::CaPublicKey),
            0x6c => Some(ConfigId::KeMaxDevices),
            0x6d => Some(ConfigId::UseDefaultTclk),
            0x6f => Some(ConfigId::RngCounter),
            0x70 => Some(ConfigId::RandomSeed),
            0x71 => Some(ConfigId::TrustcenterAddr),
            0x81 => Some(ConfigId::Userdesc),
            0x82 => Some(ConfigId::Nwkkey),
            0x83 => Some(ConfigId::Panid),
            0x84 => Some(ConfigId::Chanlist),
            0x85 => Some(ConfigId::LeaveCtrl),
            0x86 => Some(ConfigId::ScanDuration),
            0x87 => Some(ConfigId::LogicalType),
            0x88 => Some(ConfigId::NwkmgrMinTx),
            0x89 => Some(ConfigId::NwkmgrAddr),
            0x8f => Some(ConfigId::ZdoDirectCb),
            0x91 => Some(ConfigId::SceneTable),
            0x92 => Some(ConfigId::MinFreeNwkAddr),
            0x93 => Some(ConfigId::MaxFreeNwkAddr),
            0x94 => Some(ConfigId::MinFreeGrpId),
            0x95 => Some(ConfigId::MaxFreeGrpId),
            0x96 => Some(ConfigId::MinGrpIds),
            0x97 => Some(ConfigId::MaxGrpIds),
            0x98 => Some(ConfigId::OtaBlockReqDelay),
            0xa1 => Some(ConfigId::SapiEndpoint),
            0xb1 => Some(ConfigId::SasShortAddr),
            0xb2 => Some(ConfigId::SasExtPanid),
            0xb3 => Some(ConfigId::SasPanid),
            0xb4 => Some(ConfigId::SasChannelMask),
            0xb5 => Some(ConfigId::SasProtocolVer),
            0xb6 => Some(ConfigId::SasStackProfile),
            0xb7 => Some(ConfigId::SasStartupCtrl),
            0xc1 => Some(ConfigId::SasTcAddr),
            0xc2 => Some(ConfigId::SasTcMasterKey),
            0xc3 => Some(ConfigId::SasNwkKey),
            0xc4 => Some(ConfigId::SasUseInsecJoin),
            0xc5 => Some(ConfigId::SasPrecfgLinkKey),
            0xc6 => Some(ConfigId::SasNwkKeySeqNum),
            0xc7 => Some(ConfigId::SasNwkKeyType),
            0xc8 => Some(ConfigId::SasNwkMgrAddr),
            0xd1 => Some(ConfigId::SasCurrTcMasterKey),
            0xd2 => Some(ConfigId::SasCurrNwkKey),
            0xd3 => Some(ConfigId::SasCurrPrecfgLinkKey),
            _ => None,
        }
    }

    pub fn code(self) -> (r: u8)
        ensures
            r == self.spec_code(),
    {
        match self {
            ConfigId::Extaddr => 0x1,
            ConfigId::Bootcounter => 0x2,
            ConfigId::StartupOption => 0x3,
            ConfigId::StartDelay => 0x4,
            ConfigId::Nib => 0x21,
            ConfigId::DeviceList => 0x22,
            ConfigId::Addrmgr => 0x23,
            ConfigId::PollRate => 0x24,
            ConfigId::QueuedPollRate => 0x25,
            ConfigId::ResponsePollRate => 0x26,
            ConfigId::RejoinPollRate => 0x27,
            ConfigId::DataRetries => 0x28,
            ConfigId::PollFailureRetries => 0x29,
            ConfigId::StackProfile => 0x2a,
            ConfigId::IndirectMsgTimeout => 0x2b,
            ConfigId::RouteExpiryTime => 0x2c,
            ConfigId::ExtendedPanId => 0x2d,
            ConfigId::BcastRetries => 0x2e,
            ConfigId::PassiveAckTimeout => 0x2f,
            ConfigId::BcastDeliveryTime => 0x30,
            ConfigId::NwkMode => 0x31,
            ConfigId::ConcentratorEnable => 0x32,
            ConfigId::ConcentratorDiscovery => 0x33,
            ConfigId::ConcentratorRadius => 0x34,
            ConfigId::ConcentratorRc => 0x36,
            ConfigId::NwkMgrMode => 0x37,
            ConfigId::SrcRtgExpiryTime => 0x38,
            ConfigId::RouteDiscoveryTime => 0x39,
            ConfigId::NwkActiveKeyInfo => 0x3a,
            ConfigId::NwkAlternKeyInfo => 0x3b,
            ConfigId::RouterOffAssocCleanup => 0x3c,
            ConfigId::NwkLeaveReqAllowed => 0x3d,
            ConfigId::NwkChildAgeEnable => 0x3e,
            ConfigId::DeviceListKaTimeout => 0x3f,
            ConfigId::BindingTable => 0x41,
            ConfigId::GroupTable => 0x42,
            ConfigId::ApsFrameRetries => 0x43,
            ConfigId::ApsAckWaitDuration => 0x44,
            ConfigId::ApsAckWaitMultiplier => 0x45,
            ConfigId::BindingTime => 0x46,
            ConfigId::ApsUseExtPanid => 0x47,
            ConfigId::ApsUseInsecureJoin => 0x48,
            ConfigId::CommissionedNwkAddr => 0x49,
            ConfigId::ApsNonmemberRadius => 0x4b,
            ConfigId::ApsLinkKeyTable => 0x4c,
            ConfigId::ApsDuprejTimeoutInc => 0x4d,
            ConfigId::ApsDuprejTimeoutCount => 0x4e,
            ConfigId::ApsDuprejTableSize => 0x4f,
            ConfigId::DiagnosticStats => 0x50,
            ConfigId::SecurityLevel => 0x61,
            ConfigId::Precfgkey => 0x62,
            ConfigId::PrecfgkeysEnable => 0x63,
            ConfigId::SecurityMode => 0x64,
            ConfigId::SecurePermitJoin => 0x65,
            ConfigId::ApsLinkKeyType => 0x66,
            ConfigId::ApsAllowR19Security => 0x67,
            ConfigId::ImplicitCertificate => 0x69,
            ConfigId::DevicePrivateKey => 0x6a,
            ConfigId::CaPublicKey => 0x6b,
            ConfigId::KeMaxDevices => 0x6c,
            ConfigId::UseDefaultTclk => 0x6d,
            ConfigId::RngCounter => 0x6f,
            ConfigId::RandomSeed => 0x70,
            ConfigId::TrustcenterAddr => 0x71,
            ConfigId::Userdesc => 0x81,
            ConfigId::Nwkkey => 0x82,
            ConfigId::Panid => 0x83,
            ConfigId::Chanlist => 0x84,
            ConfigId::LeaveCtrl => 0x85,
            ConfigId::ScanDuration => 0x86,
            ConfigId::LogicalType => 0x87,
            ConfigId::NwkmgrMinTx => 0x88,
            ConfigId::NwkmgrAddr => 0x89,
            ConfigId::ZdoDirectCb => 0x8f,
            ConfigId::SceneTable => 0x91,
            ConfigId::MinFreeNwkAddr => 0x92,
            ConfigId::MaxFreeNwkAddr => 0x93,
            ConfigId::MinFreeGrpId => 0x94,
            ConfigId::MaxFreeGrpId => 0x95,
            ConfigId::MinGrpIds => 0x96,
            ConfigId::MaxGrpIds => 0x97,
            ConfigId::OtaBlockReqDelay => 0x98,
            ConfigId::SapiEndpoint => 0xa1,
            ConfigId::SasShortAddr => 0xb1,
            ConfigId::SasExtPanid => 0xb2,
            ConfigId::SasPanid => 0xb3,
            ConfigId::SasChannelMask => 0xb4,
            ConfigId::SasProtocolVer => 0xb5,
            ConfigId::SasStackProfile => 0xb6,
            ConfigId::SasStartupCtrl => 0xb7,
            ConfigId::SasTcAddr => 0xc1,
            ConfigId::SasTcMasterKey => 0xc2,
            ConfigId::SasNwkKey => 0xc3,
            ConfigId::SasUseInsecJoin => 0xc4,
            ConfigId::SasPrecfgLinkKey => 0xc5,
            ConfigId::SasNwkKeySeqNum => 0xc6,
            ConfigId::SasNwkKeyType => 0xc7,
            ConfigId::SasNwkMgrAddr => 0xc8,
            ConfigId::SasCurrTcMasterKey => 0xd1,
            ConfigId::SasCurrNwkKey => 0xd2,
            ConfigId::SasCurrPrecfgLinkKey => 0xd3,
        }
    }

    pub fn from_u8(c: u8) -> (r: Option<Self>)
        ensures
            r == Self::spec_from_code(c),
            r matches Some(e) ==> e.spec_code() == c,
    {
        match c {
            0x1 => Some(ConfigId::Extaddr),
            0x2 => Some(ConfigId::Bootcounter),
            0x3 => Some(ConfigId::StartupOption),
            0x4 => Some(ConfigId::StartDelay),
            0x21 => Some(ConfigId::Nib),
            0x22 => Some(ConfigId::DeviceList),
            0x23 => Some(ConfigId::Addrmgr),
            0x24 => Some(ConfigId::PollRate),
            0x25 => Some(ConfigId::QueuedPollRate),
            0x26 => Some(ConfigId::ResponsePollRate),
            0x27 => Some(ConfigId::RejoinPollRate),
            0x28 => Some(ConfigId::DataRetries),
            0x29 => Some(ConfigId::PollFailureRetries),
            0x2a => Some(ConfigId::StackProfile),
            0x2b => Some(ConfigId::IndirectMsgTimeout),
            0x2c => Some(ConfigId::RouteExpiryTime),
            0x2d => Some(ConfigId::ExtendedPanId),
            0x2e => Some(ConfigId::BcastRetries),
            0x2f => Some(ConfigId::PassiveAckTimeout),
            0x30 => Some(ConfigId::BcastDeliveryTime),
            0x31 => Some(ConfigId::NwkMode),
            0x32 => Some(ConfigId::ConcentratorEnable),
            0x33 => Some(ConfigId::ConcentratorDiscovery),
            0x34 => Some(ConfigId::ConcentratorRadius),
            0x36 => Some(ConfigId::ConcentratorRc),
            0x37 => Some(ConfigId::NwkMgrMode),
            0x38 => Some(ConfigId::SrcRtgExpiryTime),
            0x39 => Some(ConfigId::RouteDiscoveryTime),
            0x3a => Some(ConfigId::NwkActiveKeyInfo),
            0x3b => Some(ConfigId::NwkAlternKeyInfo),
            0x3c => Some(ConfigId::RouterOffAssocCleanup),
            0x3d => Some(ConfigId::NwkLeaveReqAllowed),
            0x3e => Some(ConfigId::NwkChildAgeEnable),
            0x3f => Some(ConfigId::DeviceListKaTimeout),
            0x41 => Some(ConfigId::BindingTable),
            0x42 => Some(ConfigId::GroupTable),
            0x43 => Some(ConfigId::ApsFrameRetries),
            0x44 => Some(ConfigId::ApsAckWaitDuration),
            0x45 => Some(ConfigId::ApsAckWaitMultiplier),
            0x46 => Some(ConfigId::BindingTime),
            0x47 => Some(ConfigId::ApsUseExtPanid),
            0x48 => Some(ConfigId::ApsUseInsecureJoin),
            0x49 => Some(ConfigId::CommissionedNwkAddr),
            0x4b => Some(ConfigId::ApsNonmemberRadius),
            0x4c => Some(ConfigId::ApsLinkKeyTable),
            0x4d => Some(ConfigId::ApsDuprejTimeoutInc),
            0x4e => Some(ConfigId::ApsDuprejTimeoutCount),
            0x4f => Some(ConfigId::ApsDuprejTableSize),
            0x50 => Some(ConfigId::DiagnosticStats),
            0x61 => Some(ConfigId::SecurityLevel),
            0x62 => Some(ConfigId::Precfgkey),
            0x63 => Some(ConfigId::PrecfgkeysEnable),
            0x64 => Some(ConfigId::SecurityMode),
            0x65 => Some(ConfigId::SecurePermitJoin),
            0x66 => Some(ConfigId::ApsLinkKeyType),
            0x67 => Some(ConfigId::ApsAllowR19Security),
            0x69 => Some(ConfigId::ImplicitCertificate),
            0x6a => Some(ConfigId::DevicePrivateKey),
            0x6b => Some(ConfigId::CaPublicKey),
            0x6c => Some(ConfigId::KeMaxDevices),
            0x6d => Some(ConfigId::UseDefaultTclk),
            0x6f => Some(ConfigId::RngCounter),
            0x70 => Some(ConfigId::RandomSeed),
            0x71 => Some(ConfigId::TrustcenterAddr),
            0x81 => Some(ConfigId::Userdesc),
            0x82 => Some(ConfigId::Nwkkey),
            0x83 => Some(ConfigId::Panid),
            0x84 => Some(ConfigId::Chanlist),
            0x85 => Some(ConfigId::LeaveCtrl),
            0x86 => Some(ConfigId::ScanDuration),
            0x87 => Some(ConfigId::LogicalType),
            0x88 => Some(ConfigId::NwkmgrMinTx),
            0x89 => Some(ConfigId::NwkmgrAddr),
            0x8f => Some(ConfigId::ZdoDirectCb),
            0x91 => Some(ConfigId::SceneTable),
            0x92 => Some(ConfigId::MinFreeNwkAddr),
            0x93 => Some(ConfigId::MaxFreeNwkAddr),
            0x94 => Some(ConfigId::MinFreeGrpId),
            0x95 => Some(ConfigId::MaxFreeGrpId),
            0x96 => Some(ConfigId::MinGrpIds),
            0x97 => Some(ConfigId::MaxGrpIds),
            0x98 => Some(ConfigId::OtaBlockReqDelay),
            0xa1 => Some(ConfigId::SapiEndpoint),
            0xb1 => Some(ConfigId::SasShortAddr),
            0xb2 => Some(ConfigId::SasExtPanid),
            0xb3 => Some(ConfigId::SasPanid),
            0xb4 => Some(ConfigId::SasChannelMask),
            0xb5 => Some(ConfigId::SasProtocolVer),
            0xb6 => Some(ConfigId::SasStackProfile),
            0xb7 => Some(ConfigId::SasStartupCtrl),
            0xc1 => Some(ConfigId::SasTcAddr),
            0xc2 => Some(ConfigId::SasTcMasterKey),
            0xc3 => Some(ConfigId::SasNwkKey),
            0xc4 => Some(ConfigId::SasUseInsecJoin),
            0xc5 => Some(ConfigId::SasPrecfgLinkKey),
            0xc6 => Some(ConfigId::SasNwkKeySeqNum),
            0xc7 => Some(ConfigId::SasNwkKeyType),
            0xc8 => Some(ConfigId::SasNwkMgrAddr),
            0xd1 => Some(ConfigId::SasCurrTcMasterKey),
            0xd2 => Some(ConfigId::SasCurrNwkKey),
            0xd3 => Some(ConfigId::SasCurrPrecfgLinkKey),
            _ => None,
        }
    }
}

/// ZB_READ_CONFIGURATION
#[derive(Debug)]
pub struct ReadConfig {
    pub id: ConfigId,
}

impl Payload for ReadConfig {
    open spec fn model(&self) -> Seq<Value> {
        seq![Value::U8(self.id.spec_code())]
    }

    open spec fn kinds() -> Seq<Kind> {
        seq![Kind::U8]
    }

    open spec fn admits(vs: Seq<Value>) -> bool {
        ConfigId::spec_from_code(byte_of(vs[0])) is Some
    }

    fn schema() -> (r: Vec<Kind>) {
        vec![Kind::U8]
    }

    fn to_fields(&self) -> (r: Vec<Field>) {
        let r = vec![Field::U8(self.id.code())];
        assert(views(r@) =~= self.model());
        r
    }

    fn from_fields(fs: Vec<Field>) -> (r: Result<Self, DecodeError>) {
        let id = match ConfigId::from_u8(get_u8(&fs, 0)) {
            Some(e) => e,
            None => {
                return Err(DecodeError::InvalidValue);
            },
        };
        let v = ReadConfig {
            id,
        };
        assert(v.model() =~= views(fs@));
        Ok(v)
    }

    proof fn lemma_model(&self) {
    }
}

#[derive(Debug)]
pub struct ReadConfigRsp {
    /// Success 0 or Failure 1
    pub status: u8,
    pub id: ConfigId,
    pub value: Vec<u8>,
}

impl Payload for ReadConfigRsp {
    open spec fn model(&self) -> Seq<Value> {
        seq![
            Value::U8(self.status),
            Value::U8(self.id.spec_code()),
            Value::RestBytes(self.value@),
        ]
    }

    open spec fn kinds() -> Seq<Kind> {
        seq![Kind::U8, Kind::U8, Kind::RestBytes]
    }

    open spec fn admits(vs: Seq<Value>) -> bool {
        ConfigId::spec_from_code(byte_of(vs[1])) is Some
    }

    fn schema() -> (r: Vec<Kind>) {
        vec![Kind::U8, Kind::U8, Kind::RestBytes]
    }

    fn to_fields(&self) -> (r: Vec<Field>) {
        let r = vec![
            Field::U8(self.status),
            Field::U8(self.id.code()),
            Field::RestBytes(copy_bytes(&self.value)),
        ];
        assert(views(r@) =~= self.model());
        r
    }

    fn from_fields(fs: Vec<Field>) -> (r: Result<Self, DecodeError>) {
        let id = match ConfigId::from_u8(get_u8(&fs, 1)) {
            Some(e) => e,
            None => {
                return Err(DecodeError::InvalidValue);
            },
        };
        let v = ReadConfigRsp {
            status: get_u8(&fs, 0),
            id,
            value: get_bytes(&fs, 2),
        };
        assert(v.model() =~= views(fs@));
        Ok(v)
    }

    proof fn lemma_model(&self) {
    }
}

impl Sreq for ReadConfig {
    type Srsp = ReadConfigRsp;

    open spec fn spec_subsys() -> Subsys {
        Subsys::SAPI
    }

    open spec fn spec_cmd_id() -> u8 {
        0x04
    }

    fn subsys() -> (r: Subsys) {
        Subsys::SAPI
    }

    fn cmd_id() -> (r: u8) {
        0x04
    }

    fn max_size() -> (r: usize) {
        0x83
    }
}

} // verus!
