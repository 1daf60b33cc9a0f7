//! The commands: how each request is built and how each result payload is read.
use vstd::prelude::*;

use crate::buffer::{le16, le32, read_u16_le, read_u32_le};
use crate::request::ManagementRequest;
use crate::settings::{ControllerSettings, KNOWN_SETTINGS};
use crate::text::{decode_fixed_text, trim_trailing_zeros};
use crate::types::{Controller, ManagementCommand, ManagementError, NO_CONTROLLER};

verus! {

/// The protocol version and revision that the other end speaks.
#[derive(Clone, Copy, Debug, PartialEq, Eq, Structural)]
pub struct ManagementVersion {
    pub version: u8,
    pub revision: u16,
}

/// A controller's six-byte device address, in wire order.
#[derive(Clone, Copy, Debug, PartialEq, Eq)]
pub struct Address(pub [u8; 6]);

/// A snapshot of a controller's identity and capabilities.
pub struct ControllerInfo {
    pub address: Address,
    pub bluetooth_version: u8,
    pub manufacturer: [u8; 2],
    pub supported_settings: ControllerSettings,
    pub current_settings: ControllerSettings,
    pub class_of_device: [u8; 3],
    pub name: Vec<u8>,
    pub short_name: Vec<u8>,
}

/// Offset of the name field in a controller-info payload.
pub const INFO_NAME_OFFSET: usize = 20;

/// Width of the zero-padded name field in a controller-info payload.
pub const INFO_NAME_WIDTH: usize = 249;

/// The bytes of a result payload, if the answer carried one.
pub open spec fn payload_view(param: Option<&[u8]>) -> Option<Seq<u8>> {
    match param {
        Some(p) => Some(p@),
        None => None,
    }
}

/// The version record of a version-query result payload.
pub open spec fn version_of(param: Option<Seq<u8>>) -> Result<ManagementVersion, ManagementError> {
    match param {
        Some(p) => if p.len() >= 3 {
            Ok(ManagementVersion { version: p[0], revision: le16(p, 1) })
        } else {
            Err(ManagementError::MalformedFrame)
        },
        None => Err(ManagementError::MalformedFrame),
    }
}

/// A controller-list payload is long enough for the count it declares.
pub open spec fn controller_list_fits(p: Seq<u8>) -> bool {
    p.len() >= 2 && p.len() >= 2 + 2 * (le16(p, 0) as int)
}

/// The controllers of a controller-list payload, in wire order.
pub open spec fn controllers_of(p: Seq<u8>) -> Seq<Controller> {
    Seq::new(le16(p, 0) as nat, |i: int| Controller(le16(p, 2 + 2 * i)))
}

/// The settings word of a settings result payload, with unknown bits dropped.
pub open spec fn settings_of(param: Option<Seq<u8>>) -> Result<u32, ManagementError> {
    match param {
        Some(p) => if p.len() >= 4 {
            Ok(le32(p, 0) & KNOWN_SETTINGS)
        } else {
            Err(ManagementError::MalformedFrame)
        },
        None => Err(ManagementError::MalformedFrame),
    }
}

/// `info` holds the fields of the controller-info payload `p`.
pub open spec fn info_matches(info: ControllerInfo, p: Seq<u8>) -> bool {
    &&& info.address.0@ == p.subrange(0, 6)
    &&& info.bluetooth_version == p[6]
    &&& info.manufacturer@ == p.subrange(7, 9)
    &&& info.supported_settings@ == le32(p, 9) & KNOWN_SETTINGS
    &&& info.current_settings@ == le32(p, 13) & KNOWN_SETTINGS
    &&& info.class_of_device@ == p.subrange(17, 20)
    &&& info.name@ == trim_trailing_zeros(p.subrange(20, 269))
    &&& info.short_name@ == trim_trailing_zeros(p.subrange(269, p.len() as int))
}

/// The version query: no controller, no payload.
pub fn version_request() -> (r: ManagementRequest)
    ensures
        r@ == (ManagementCommand::ReadVersionInfo, Controller(NO_CONTROLLER), Seq::<u8>::empty()),
{
    let empty: [u8; 0] = [];
    let r = ManagementRequest::new(ManagementCommand::ReadVersionInfo, Controller::none(), &empty);
    assert(r@.2 =~= Seq::<u8>::empty());
    r
}

/// Reads the version and revision from a version-query result.
pub fn decode_version(param: Option<&[u8]>) -> (r: Result<ManagementVersion, ManagementError>)
    ensures
        r == version_of(payload_view(param)),
{
    match param {
        Some(p) => {
            if p.len() < 3 {
                return Err(ManagementError::MalformedFrame);
            }
            Ok(ManagementVersion { version: p[0], revision: read_u16_le(p, 1) })
        },
        None => Err(ManagementError::MalformedFrame),
    }
}

/// The controller enumeration: no controller, no payload.
pub fn controller_list_request() -> (r: ManagementRequest)
    ensures
        r@ == (
            ManagementCommand::ReadControllerIndexList,
            Controller(NO_CONTROLLER),
            Seq::<u8>::empty(),
        ),
{
    let empty: [u8; 0] = [];
    let r = ManagementRequest::new(
        ManagementCommand::ReadControllerIndexList,
        Controller::none(),
        &empty,
    );
    assert(r@.2 =~= Seq::<u8>::empty());
    r
}

/// Reads a count and that many controller indices, in wire order.
pub fn decode_controller_list(param: Option<&[u8]>) -> (r: Result<Vec<Controller>, ManagementError>)
    ensures
        r is Ok <==> (param matches Some(p) && controller_list_fits(p@)),
        r matches Ok(v) ==> (param matches Some(p) && v@ == controllers_of(p@)),
        r matches Err(e) ==> e == ManagementError::MalformedFrame,
{
    let p = match param {
        Some(p) => p,
        None => {
            return Err(ManagementError::MalformedFrame);
        },
    };
    if p.len() < 2 {
        return Err(ManagementError::MalformedFrame);
    }
    let count = read_u16_le(p, 0) as usize;
    if (p.len() - 2) / 2 < count {
        return Err(ManagementError::MalformedFrame);
    }
    let mut controllers: Vec<Controller> = Vec::new();
    let mut i: usize = 0;
    while i < count
        invariant
            i <= count,
            count == le16(p@, 0),
            2 + 2 * count <= p@.len(),
            controllers@ =~= controllers_of(p@).subrange(0, i as int),
        decreases count - i,
    {
        controllers.push(Controller(read_u16_le(p, 2 + 2 * i)));
        i = i + 1;
    }
    assert(controllers@ =~= controllers_of(p@));
    Ok(controllers)
}

/// The controller-info query: the given controller, no payload.
pub fn controller_info_request(controller: Controller) -> (r: ManagementRequest)
    ensures
        r@ == (ManagementCommand::ReadControllerInfo, controller, Seq::<u8>::empty()),
{
    let empty: [u8; 0] = [];
    let r = ManagementRequest::new(ManagementCommand::ReadControllerInfo, controller, &empty);
    assert(r@.2 =~= Seq::<u8>::empty());
    r
}

/// Reads the fixed controller-info layout: address, version, manufacturer, the
/// supported and current settings, class of device, then the two name fields.
pub fn decode_controller_info(param: Option<&[u8]>) -> (r: Result<ControllerInfo, ManagementError>)
    ensures
        r is Ok <==> (param matches Some(p) && p@.len() >= INFO_NAME_OFFSET + INFO_NAME_WIDTH),
        r matches Ok(info) ==> (param matches Some(p) && info_matches(info, p@)),
        r matches Err(e) ==> e == ManagementError::MalformedFrame,
{
    let p = match param {
        Some(p) => p,
        None => {
            return Err(ManagementError::MalformedFrame);
        },
    };
    if p.len() < INFO_NAME_OFFSET + INFO_NAME_WIDTH {
        return Err(ManagementError::MalformedFrame);
    }
    let address = Address([p[0], p[1], p[2], p[3], p[4], p[5]]);
    let manufacturer: [u8; 2] = [p[7], p[8]];
    let class_of_device: [u8; 3] = [p[17], p[18], p[19]];
    let info = ControllerInfo {
        address,
        bluetooth_version: p[6],
        manufacturer,
        supported_settings: ControllerSettings::from_bits_truncate(read_u32_le(p, 9)),
        current_settings: ControllerSettings::from_bits_truncate(read_u32_le(p, 13)),
        class_of_device,
        name: decode_fixed_text(&p[INFO_NAME_OFFSET..INFO_NAME_OFFSET + INFO_NAME_WIDTH]),
        short_name: decode_fixed_text(&p[INFO_NAME_OFFSET + INFO_NAME_WIDTH..p.len()]),
    };
    assert(info.address.0@ =~= p@.subrange(0, 6));
    assert(info.manufacturer@ =~= p@.subrange(7, 9));
    assert(info.class_of_device@ =~= p@.subrange(17, 20));
    Ok(info)
}

/// The power toggle: the given controller, a one-byte payload, 1 for on and 0 for off.
pub fn set_powered_request(controller: Controller, powered: bool) -> (r: ManagementRequest)
    ensures
        r@ == (ManagementCommand::SetPowered, controller, seq![if powered { 1u8 } else { 0u8 }]),
{
    let payload: [u8; 1] = [if powered { 1u8 } else { 0u8 }];
    let r = ManagementRequest::new(ManagementCommand::SetPowered, controller, &payload);
    assert(r@.2 =~= seq![if powered { 1u8 } else { 0u8 }]);
    r
}

/// Reads a four-byte settings word, keeping only the recognised flags.
pub fn decode_settings(param: Option<&[u8]>) -> (r: Result<ControllerSettings, ManagementError>)
    ensures
        r matches Ok(s) ==> settings_of(payload_view(param)) == Ok::<u32, ManagementError>(s@)
            && s.wf(),
        r matches Err(e) ==> settings_of(payload_view(param)) == Err::<u32, ManagementError>(e),
{
    match param {
        Some(p) => {
            if p.len() < 4 {
                return Err(ManagementError::MalformedFrame);
            }
            Ok(ControllerSettings::from_bits_truncate(read_u32_le(p, 0)))
        },
        None => Err(ManagementError::MalformedFrame),
    }
}

} // verus!
