use mgmt_proto::catalog::{
    controller_info_request, controller_list_request, decode_controller_info,
    decode_controller_list, decode_settings, decode_version, set_powered_request, version_request,
};
use mgmt_proto::text::{decode_fixed_text, encode_fixed_text};
use mgmt_proto::{
    Controller, ControllerSettings, Correlation, ManagementCommand, ManagementCommandStatus,
    ManagementError, ManagementEvent, ManagementRequest, ManagementResponse, ManagementVersion,
    PendingCommand, Setting,
};

fn frame(code: u16, controller: u16, payload: &[u8]) -> Vec<u8> {
    let mut out = Vec::new();
    out.extend_from_slice(&code.to_le_bytes());
    out.extend_from_slice(&controller.to_le_bytes());
    out.extend_from_slice(&(payload.len() as u16).to_le_bytes());
    out.extend_from_slice(payload);
    out
}

fn complete(opcode: u16, status: u8, result: &[u8]) -> Vec<u8> {
    let mut p = opcode.to_le_bytes().to_vec();
    p.push(status);
    p.extend_from_slice(result);
    frame(0x0001, 0xFFFF, &p)
}

fn succeeded_payload(c: Correlation) -> Option<Vec<u8>> {
    match c {
        Correlation::Succeeded(p) => p.map(|b| b.to_vec()),
        Correlation::Unrelated => panic!("unrelated"),
        Correlation::Failed(e) => panic!("failed: {:?}", e),
    }
}

#[test]
fn request_round_trip() {
    let payload: Vec<u8> = (0..300u32).map(|i| (i % 251) as u8).collect();
    let req = ManagementRequest::new(ManagementCommand::ReadControllerInfo, Controller(7), &payload);
    let bytes = req.encode().unwrap();
    assert_eq!(bytes.len(), 6 + 300);
    let back = ManagementRequest::decode(&bytes).unwrap();
    assert_eq!(back.opcode, ManagementCommand::ReadControllerInfo);
    assert_eq!(back.controller, Controller(7));
    assert_eq!(back.param.to_vec(), payload);
}

#[test]
fn request_round_trip_largest_payload() {
    let payload = vec![0xAB; 0xFFFF];
    let req = ManagementRequest::new(ManagementCommand::SetPowered, Controller(0), &payload);
    let bytes = req.encode().unwrap();
    assert_eq!(&bytes[0..6], &[0x05, 0x00, 0x00, 0x00, 0xFF, 0xFF]);
    let back = ManagementRequest::decode(&bytes).unwrap();
    assert_eq!(back.param.len(), 0xFFFF);
}

#[test]
fn request_encode_exact_bytes() {
    let req = set_powered_request(Controller(0x0102), true);
    assert_eq!(req.encode().unwrap(), vec![0x05, 0x00, 0x02, 0x01, 0x01, 0x00, 0x01]);
    let req = version_request();
    assert_eq!(req.encode().unwrap(), vec![0x01, 0x00, 0xFF, 0xFF, 0x00, 0x00]);
    let req = controller_list_request();
    assert_eq!(req.encode().unwrap(), vec![0x03, 0x00, 0xFF, 0xFF, 0x00, 0x00]);
    let req = controller_info_request(Controller(1));
    assert_eq!(req.encode().unwrap(), vec![0x04, 0x00, 0x01, 0x00, 0x00, 0x00]);
}

#[test]
fn request_payload_too_long() {
    let payload = vec![0u8; 0x10000];
    let req = ManagementRequest::new(ManagementCommand::SetPowered, Controller(0), &payload);
    assert_eq!(req.encode(), Err(ManagementError::PayloadTooLong));
}

#[test]
fn request_decode_errors() {
    assert_eq!(ManagementRequest::decode(&[0x01, 0x00, 0xFF]).err(), Some(ManagementError::MalformedFrame));
    assert_eq!(
        ManagementRequest::decode(&[0x01, 0x00, 0xFF, 0xFF, 0x02, 0x00, 0x01]).err(),
        Some(ManagementError::MalformedFrame)
    );
    assert_eq!(
        ManagementRequest::decode(&[0xFF, 0x00, 0xFF, 0xFF, 0x00, 0x00]).err(),
        Some(ManagementError::UnknownOpcode { opcode: 0x00FF })
    );
}

#[test]
fn request_decode_ignores_trailing_bytes() {
    let mut bytes = set_powered_request(Controller(3), false).encode().unwrap();
    bytes.extend_from_slice(&[9, 9, 9]);
    let back = ManagementRequest::decode(&bytes).unwrap();
    assert_eq!(back.opcode, ManagementCommand::SetPowered);
    assert_eq!(back.controller, Controller(3));
    assert_eq!(back.param.to_vec(), vec![0x00]);
}

#[test]
fn response_ignores_trailing_bytes() {
    let mut bytes = complete(0x0001, 0x00, &[0x06, 0x23, 0x01]);
    bytes.extend_from_slice(&[0xEE, 0xEE]);
    let r = ManagementResponse::parse(&bytes).unwrap();
    assert_eq!(r.controller, Controller(0xFFFF));
    match r.event {
        ManagementEvent::CommandComplete { opcode, status, param } => {
            assert_eq!(opcode, ManagementCommand::ReadVersionInfo);
            assert_eq!(status, ManagementCommandStatus::Success);
            assert_eq!(param.to_vec(), vec![0x06, 0x23, 0x01]);
        }
        _ => panic!("wrong event"),
    }
}

#[test]
fn response_short_or_truncated_is_malformed() {
    assert_eq!(ManagementResponse::parse(&[0x01, 0x00]).err(), Some(ManagementError::MalformedFrame));
    let mut bytes = complete(0x0001, 0x00, &[0x06, 0x23, 0x01]);
    bytes.pop();
    assert_eq!(ManagementResponse::parse(&bytes).err(), Some(ManagementError::MalformedFrame));
    let bytes = frame(0x0001, 0, &[0x01, 0x00]);
    assert_eq!(ManagementResponse::parse(&bytes).err(), Some(ManagementError::MalformedFrame));
    let bytes = frame(0x0003, 0, &[]);
    assert_eq!(ManagementResponse::parse(&bytes).err(), Some(ManagementError::MalformedFrame));
    let bytes = frame(0x0008, 0, &[0u8; 248]);
    assert_eq!(ManagementResponse::parse(&bytes).err(), Some(ManagementError::MalformedFrame));
}

#[test]
fn response_unknown_status() {
    let bytes = complete(0x0001, 0x7F, &[]);
    assert_eq!(
        ManagementResponse::parse(&bytes).err(),
        Some(ManagementError::UnknownStatus { status: 0x7F })
    );
}

#[test]
fn response_unhandled_events() {
    for code in [0x0006u16, 0x0007, 0x0042] {
        let bytes = frame(code, 0, &[0, 0, 0, 0]);
        assert_eq!(
            ManagementResponse::parse(&bytes).err(),
            Some(ManagementError::UnhandledEvent { code })
        );
    }
}

#[test]
fn response_simple_events() {
    let r = ManagementResponse::parse(&frame(0x0003, 2, &[0x0C])).unwrap();
    assert_eq!(r.controller, Controller(2));
    assert!(matches!(r.event, ManagementEvent::ControllerError { code: 0x0C }));
    let r = ManagementResponse::parse(&frame(0x0004, 1, &[])).unwrap();
    assert_eq!(r.controller, Controller(1));
    assert!(matches!(r.event, ManagementEvent::IndexAdded));
    let r = ManagementResponse::parse(&frame(0x0005, 1, &[])).unwrap();
    assert!(matches!(r.event, ManagementEvent::IndexRemoved));
    let r = ManagementResponse::parse(&frame(0x0002, 0, &[0x05, 0x00, 0x0A])).unwrap();
    assert!(matches!(
        r.event,
        ManagementEvent::CommandStatus {
            opcode: ManagementCommand::SetPowered,
            status: ManagementCommandStatus::Busy
        }
    ));
}

#[test]
fn response_local_name_changed_trims_zeros() {
    let mut p = vec![0u8; 249 + 11];
    p[0..4].copy_from_slice(b"host");
    p[249..252].copy_from_slice(b"hst");
    let r = ManagementResponse::parse(&frame(0x0008, 0, &p)).unwrap();
    match r.event {
        ManagementEvent::LocalNameChanged { name, short_name } => {
            assert_eq!(name, b"host".to_vec());
            assert_eq!(short_name, b"hst".to_vec());
        }
        _ => panic!("wrong event"),
    }
}

#[test]
fn settings_truncation_drops_unknown_bits() {
    let s = ControllerSettings::from_bits_truncate(0xFFFF_0001);
    assert_eq!(s.bits(), 0x0003_0001);
    assert!(s.contains(Setting::Powered));
    assert!(s.contains(Setting::PhyConfiguration));
    assert!(s.contains(Setting::WidebandSpeech));
    assert!(!s.contains(Setting::Connectable));
    let s = decode_settings(Some(&[0x00, 0x00, 0x00, 0x80])).unwrap();
    assert_eq!(s.bits(), 0);
}

#[test]
fn settings_combination() {
    let s = ControllerSettings::empty().with(Setting::Powered).with(Setting::LowEnergy);
    assert_eq!(s.bits(), 0x0201);
    let t = ControllerSettings::from_bits_truncate(0x0002);
    assert_eq!(s.union(&t).bits(), 0x0203);
    assert_eq!(Setting::BrEdr.mask(), 0x80);
}

#[test]
fn scenario_version_query() {
    let pending = PendingCommand::new(ManagementCommand::ReadVersionInfo);
    let p = succeeded_payload(pending.accept_frame(&complete(0x0001, 0x00, &[0x06, 0x23, 0x01])));
    let v = decode_version(p.as_deref()).unwrap();
    assert_eq!(v, ManagementVersion { version: 6, revision: 0x0123 });
}

#[test]
fn version_needs_three_bytes() {
    assert_eq!(decode_version(Some(&[0x06, 0x23])), Err(ManagementError::MalformedFrame));
    assert_eq!(decode_version(None), Err(ManagementError::MalformedFrame));
}

#[test]
fn scenario_controller_enumeration() {
    let list = decode_controller_list(Some(&[0x02, 0x00, 0x00, 0x00, 0x01, 0x00])).unwrap();
    assert_eq!(list, vec![Controller(0), Controller(1)]);
    let pending = PendingCommand::new(ManagementCommand::ReadControllerIndexList);
    let p = succeeded_payload(
        pending.accept_frame(&complete(0x0003, 0x00, &[0x02, 0x00, 0x00, 0x00, 0x01, 0x00])),
    );
    assert_eq!(decode_controller_list(p.as_deref()).unwrap(), vec![Controller(0), Controller(1)]);
}

#[test]
fn controller_list_short_is_malformed() {
    assert_eq!(
        decode_controller_list(Some(&[0x02, 0x00, 0x00, 0x00, 0x01])),
        Err(ManagementError::MalformedFrame)
    );
    assert_eq!(decode_controller_list(Some(&[0x00, 0x00])), Ok(vec![]));
}

#[test]
fn scenario_failed_command() {
    let pending = PendingCommand::new(ManagementCommand::SetPowered);
    match pending.accept_frame(&frame(0x0002, 0, &[0x05, 0x00, 0x0A])) {
        Correlation::Failed(e) => assert_eq!(
            e,
            ManagementError::CommandError {
                opcode: ManagementCommand::SetPowered,
                status: ManagementCommandStatus::Busy
            }
        ),
        _ => panic!("expected a command error"),
    }
}

#[test]
fn scenario_unknown_opcode() {
    let bytes = complete(0x00FF, 0x00, &[]);
    assert_eq!(
        ManagementResponse::parse(&bytes).err(),
        Some(ManagementError::UnknownOpcode { opcode: 0x00FF })
    );
    let pending = PendingCommand::new(ManagementCommand::ReadVersionInfo);
    assert!(matches!(
        pending.accept_frame(&bytes),
        Correlation::Failed(ManagementError::UnknownOpcode { opcode: 0x00FF })
    ));
}

#[test]
fn scenario_power_toggle() {
    let req = set_powered_request(Controller(0), true);
    assert_eq!(req.param.to_vec(), vec![0x01]);
    let pending = PendingCommand::new(req.opcode);
    let p = succeeded_payload(pending.accept_frame(&complete(0x0005, 0x00, &[0x9F, 0x00, 0x00, 0x00])));
    let s = decode_settings(p.as_deref()).unwrap();
    assert_eq!(s.bits(), 0x0000_009F);
    for (flag, set) in [
        (Setting::Powered, true),
        (Setting::Connectable, true),
        (Setting::FastConnectable, true),
        (Setting::Discoverable, true),
        (Setting::Bondable, true),
        (Setting::LinkSecurity, false),
        (Setting::SecureSimplePairing, false),
        (Setting::BrEdr, true),
        (Setting::HighSpeed, false),
        (Setting::LowEnergy, false),
    ] {
        assert_eq!(s.contains(flag), set);
    }
    let off = set_powered_request(Controller(0), false);
    assert_eq!(off.param.to_vec(), vec![0x00]);
}

#[test]
fn unrelated_frames_are_discarded() {
    let pending = PendingCommand::new(ManagementCommand::SetPowered);
    assert!(matches!(pending.accept_frame(&frame(0x0004, 1, &[])), Correlation::Unrelated));
    assert!(matches!(
        pending.accept_frame(&complete(0x0001, 0x00, &[0x06, 0x23, 0x01])),
        Correlation::Unrelated
    ));
    assert!(matches!(
        pending.accept_frame(&frame(0x0002, 0, &[0x01, 0x00, 0x03])),
        Correlation::Unrelated
    ));
}

#[test]
fn command_status_success_has_no_payload() {
    let pending = PendingCommand::new(ManagementCommand::SetPowered);
    let p = succeeded_payload(pending.accept_frame(&frame(0x0002, 0, &[0x05, 0x00, 0x00])));
    assert_eq!(p, None);
    assert_eq!(decode_settings(p.as_deref()), Err(ManagementError::MalformedFrame));
}

#[test]
fn completion_with_failure_status() {
    let pending = PendingCommand::new(ManagementCommand::ReadVersionInfo);
    assert!(matches!(
        pending.accept_frame(&complete(0x0001, 0x03, &[])),
        Correlation::Failed(ManagementError::CommandError {
            opcode: ManagementCommand::ReadVersionInfo,
            status: ManagementCommandStatus::Failed
        })
    ));
}

#[test]
fn controller_info_layout() {
    let mut p = vec![0u8; 269 + 11];
    p[0..6].copy_from_slice(&[1, 2, 3, 4, 5, 6]);
    p[6] = 9;
    p[7..9].copy_from_slice(&[0x02, 0x00]);
    p[9..13].copy_from_slice(&0xFFFF_FFFFu32.to_le_bytes());
    p[13..17].copy_from_slice(&0x0000_0081u32.to_le_bytes());
    p[17..20].copy_from_slice(&[0x0C, 0x01, 0x1A]);
    p[20..25].copy_from_slice(b"alpha");
    p[269..271].copy_from_slice(b"al");
    let info = decode_controller_info(Some(&p)).unwrap();
    assert_eq!(info.address.0, [1, 2, 3, 4, 5, 6]);
    assert_eq!(info.bluetooth_version, 9);
    assert_eq!(info.manufacturer, [0x02, 0x00]);
    assert_eq!(info.supported_settings.bits(), 0x0003_FFFF);
    assert_eq!(info.current_settings.bits(), 0x0000_0081);
    assert_eq!(info.class_of_device, [0x0C, 0x01, 0x1A]);
    assert_eq!(info.name, b"alpha".to_vec());
    assert_eq!(info.short_name, b"al".to_vec());
    assert!(decode_controller_info(Some(&p[0..268])).is_err());
}

#[test]
fn fixed_text_codec() {
    let padded = encode_fixed_text(b"abc", 6);
    assert_eq!(padded, vec![b'a', b'b', b'c', 0, 0, 0]);
    assert_eq!(decode_fixed_text(&padded), b"abc".to_vec());
    assert_eq!(decode_fixed_text(&[0, 0, 0]), Vec::<u8>::new());
    assert_eq!(decode_fixed_text(&[0, b'x', 0]), vec![0, b'x']);
}

#[test]
fn controller_sentinel() {
    assert!(Controller::none().is_none());
    assert!(!Controller(0).is_none());
    assert_eq!(ManagementCommand::from_code(0x0004), Some(ManagementCommand::ReadControllerInfo));
    assert_eq!(ManagementCommand::from_code(0x00FF), None);
    assert_eq!(ManagementCommand::SetPowered.code(), 0x0005);
    assert_eq!(ManagementCommandStatus::from_code(0x14), Some(ManagementCommandStatus::PermissionDenied));
    assert_eq!(ManagementCommandStatus::from_code(0x15), None);
}
